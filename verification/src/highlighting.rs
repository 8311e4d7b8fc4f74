use vstd::prelude::*;
use ansi_to_tui::IntoText;
use bat::assets::HighlightingAssets;
use bat::config::Config;
use bat::controller::Controller;
use bat::Input;
use ratatui::text::Text;
use ratatui::widgets::{Block, Borders, Paragraph, Wrap};

verus! {

/// `ratatui::text::Text`: styled lines, carried through unopened.
#[verifier::external_type_specification]
#[verifier::external_body]
pub struct ExText<'a>(Text<'a>);

/// The message text as markdown, coloured by bat's syntax highlighting (rendered to ANSI
/// escapes, then parsed by ansi-to-tui); the plain text where either step fails.
/// Nothing is stated of the result: it is an opaque styled text, and bat's built-in
/// syntax mappings read environment variables, so it is not a function of the text alone.
#[verifier::external_body]
pub fn highlight_markdown(content: &str) -> Text<'static> {
    let config = Config { colored_output: true, ..Default::default() };
    let assets = HighlightingAssets::from_binary();
    let mut buffer = String::new();
    let input = Input::from_bytes(content.as_bytes()).name("text.md");
    match Controller::new(&config, &assets).run(vec![input.into()], Some(&mut buffer)) {
        Ok(_) => match buffer.into_text() {
            Ok(text) => text,
            Err(_) => Text::raw(content.to_string()),
        },
        Err(_) => Text::raw(content.to_string()),
    }
}

/// `Text::clone` (derived): a copy equal to the original.
#[verifier::external_body]
pub(crate) fn clone_text(t: &Text<'static>) -> (r: Text<'static>)
    ensures
        r == *t,
{
    t.clone()
}

/// `Text::raw`: the text unstyled.
#[verifier::external_body]
pub(crate) fn raw_text(content: String) -> Text<'static> {
    Text::raw(content)
}

/// `Paragraph::line_count` of the text in a bordered block, wrapped without trimming:
/// rows the message takes at `width`. As ratatui's source shows, no rows at width zero,
/// and the two border rows at least otherwise.
#[verifier::external_body]
pub(crate) fn bordered_line_count(text: Text<'static>, width: u16) -> (r: usize)
    ensures
        width == 0 ==> r == 0,
        width > 0 ==> r >= 2,
{
    let block = Block::default().borders(Borders::ALL);
    Paragraph::new(text).block(block).wrap(Wrap { trim: false }).line_count(width)
}

} // verus!
