use vstd::prelude::*;
use ratatui::layout::{Constraint, Layout};
use ratatui::text::Text;
use crate::layout::Rect;
use crate::mode::Mode;
use crate::text::{lines_of, owned, push_char, push_str};

verus! {

/// The rows of the screen: breadcrumb on top, content, status at the bottom.
#[derive(Clone, Copy, Debug, PartialEq, Eq)]
pub enum AppLayout {
    Normal { breadcrumb: Rect, content: Rect, status: Rect },
}

/// The three areas ratatui's layout solver gives for a vertical split of `area`, inside a
/// margin, into a top of fixed height, a middle of at least `middle_min` rows and a bottom
/// of fixed height.
pub uninterp spec fn vertical_split(area: Rect, margin: u16, top: u16, middle_min: u16, bottom: u16) -> (
    Rect,
    Rect,
    Rect,
);

/// `Layout::vertical([Length(top), Min(middle_min), Length(bottom)]).margin(margin).split(area)`:
/// the three areas, as ratatui's solver computes them.
#[verifier::external_body]
fn split_rows(area: Rect, margin: u16, top: u16, middle_min: u16, bottom: u16) -> (r: (Rect, Rect, Rect))
    ensures
        r == vertical_split(area, margin, top, middle_min, bottom),
{
    let whole = ratatui::layout::Rect { x: area.x, y: area.y, width: area.width, height: area.height };
    let rows = [Constraint::Length(top), Constraint::Min(middle_min), Constraint::Length(bottom)];
    let c = Layout::vertical(rows).margin(margin).split(whole);
    (
        Rect { x: c[0].x, y: c[0].y, width: c[0].width, height: c[0].height },
        Rect { x: c[1].x, y: c[1].y, width: c[1].width, height: c[1].height },
        Rect { x: c[2].x, y: c[2].y, width: c[2].width, height: c[2].height },
    )
}

/// The screen split with a breadcrumb of `top` rows and a status of two, inside a margin
/// of one.
pub open spec fn screen_layout(area: Rect, top: u16) -> AppLayout {
    let (b, c, s) = vertical_split(area, 1, top, 0, 2);
    AppLayout::Normal { breadcrumb: b, content: c, status: s }
}

impl AppLayout {
    /// The screen's rows for the mode: a taller breadcrumb when editing.
    pub fn new(area: Rect, mode: Mode) -> (r: AppLayout)
        ensures
            r == screen_layout(
                area,
                match mode {
                    Mode::Normal => 2,
                    Mode::Edit => 3,
                },
            ),
    {
        match mode {
            Mode::Normal => AppLayout::normal_layout(area),
            Mode::Edit => AppLayout::edit_layout(area),
        }
    }

    /// Breadcrumb of two rows, content, status of two rows.
    pub fn normal_layout(area: Rect) -> (r: AppLayout)
        ensures
            r == screen_layout(area, 2),
    {
        let (breadcrumb, content, status) = split_rows(area, 1, 2, 0, 2);
        AppLayout::Normal { breadcrumb, content, status }
    }

    /// Breadcrumb of three rows, content, status of two rows.
    pub fn edit_layout(area: Rect) -> (r: AppLayout)
        ensures
            r == screen_layout(area, 3),
    {
        let (breadcrumb, content, status) = split_rows(area, 1, 3, 0, 2);
        AppLayout::Normal { breadcrumb, content, status }
    }
}

/// Display widths (in terminal columns) of the lines of a text as ratatui splits it.
pub uninterp spec fn line_widths(text: Seq<char>) -> Seq<usize>;

/// The display widths of the lines of `Text::from(msg)`. As ratatui's `Text::raw` shows,
/// the empty text is one empty line and any other text is split as `str::lines` splits it.
#[verifier::external_body]
fn text_line_widths(msg: &str) -> (r: Vec<usize>)
    ensures
        r@ == line_widths(msg@),
        r@.len() == if msg@.len() == 0 {
            1
        } else {
            lines_of(msg@).len()
        },
{
    Text::from(msg).lines.iter().map(|line| line.width()).collect()
}

/// The widest of the widths, each taken as a `u16`.
pub open spec fn widest(ws: Seq<usize>) -> u16
    decreases ws.len(),
{
    if ws.len() == 0 {
        0
    } else {
        let w = widest(ws.drop_last());
        let l = ws.last() as u16;
        if l > w {
            l
        } else {
            w
        }
    }
}

/// The widest of the widths, each taken as a `u16`.
fn widest_of(widths: &Vec<usize>) -> (r: u16)
    ensures
        r == widest(widths@),
{
    let mut width: u16 = 0;
    let mut i: usize = 0;
    while i < widths.len()
        invariant
            i <= widths@.len(),
            width == widest(widths@.take(i as int)),
        decreases widths.len() - i,
    {
        assert(widths@.take(i as int + 1).drop_last() =~= widths@.take(i as int));
        let len = widths[i] as u16;
        if len > width {
            width = len;
        }
        i = i + 1;
    }
    assert(widths@.take(i as int) =~= widths@);
    width
}

/// Whether the popup for `msg`, padded by `padding_x` columns and `padding_y` rows on
/// each side, can be measured in terminal coordinates.
pub open spec fn popup_size_fits(msg: Seq<char>, padding_x: u16, padding_y: u16) -> bool {
    &&& widest(line_widths(msg)) + 2 * padding_x <= u16::MAX
    &&& (line_widths(msg).len() as u16) + 2 * padding_y <= u16::MAX
}

/// Width and height of the popup for `msg`: the widest line and the line count, with
/// padding on both sides, the width at most `max_width`.
pub open spec fn popup_size(msg: Seq<char>, max_width: u16, padding_x: u16, padding_y: u16) -> (u16, u16) {
    (
        if widest(line_widths(msg)) + 2 * padding_x < max_width {
            (widest(line_widths(msg)) + 2 * padding_x) as u16
        } else {
            max_width
        },
        ((line_widths(msg).len() as u16) + 2 * padding_y) as u16,
    )
}

/// Width and height of the error popup: the widest line and the line count, with padding
/// on both sides, the width at most `max_width`.
pub fn measure_popup(msg: &str, max_width: u16, padding_x: u16, padding_y: u16) -> (r: (u16, u16))
    requires
        popup_size_fits(msg@, padding_x, padding_y),
    ensures
        r == popup_size(msg@, max_width, padding_x, padding_y),
{
    let widths = text_line_widths(msg);
    let width = widest_of(&widths);
    let lines = widths.len();
    let padded = width + 2 * padding_x;
    let popup_width = if padded < max_width {
        padded
    } else {
        max_width
    };
    let popup_height = lines as u16 + 2 * padding_y;
    (popup_width, popup_height)
}

/// Width and height of the popup for `msg`, or nothing when the padded text is too wide
/// or too long to be measured in terminal coordinates.
pub fn fitted_measure_popup(msg: &str, max_width: u16, padding_x: u16, padding_y: u16) -> (r: Option<
    (u16, u16),
>)
    ensures
        match r {
            Some(p) => popup_size_fits(msg@, padding_x, padding_y) && p == popup_size(
                msg@,
                max_width,
                padding_x,
                padding_y,
            ),
            None => !popup_size_fits(msg@, padding_x, padding_y),
        },
{
    let widths = text_line_widths(msg);
    let width = widest_of(&widths);
    let lines = widths.len() as u16;
    if width as u32 + 2 * padding_x as u32 > u16::MAX as u32 || lines as u32 + 2 * padding_y as u32
        > u16::MAX as u32 {
        None
    } else {
        Some(measure_popup(msg, max_width, padding_x, padding_y))
    }
}

/// `n` line breaks.
pub open spec fn breaks(n: nat) -> Seq<char> {
    Seq::new(n, |i: int| '\n')
}

/// The error text with line breaks above and below: half the padding above (rounded
/// down), the rest below.
pub fn pad_content_vertically(content: &str, padding_y: u16) -> (r: String)
    ensures
        r@ == breaks((padding_y / 2) as nat) + content@ + breaks((padding_y - padding_y / 2) as nat),
{
    let pad_top = padding_y / 2;
    let pad_bottom = padding_y - pad_top;
    let mut s = String::new();
    let mut i: u16 = 0;
    while i < pad_top
        invariant
            i <= pad_top,
            s@ == breaks(i as nat),
        decreases pad_top - i,
    {
        push_char(&mut s, '\n');
        assert(s@ =~= breaks(i as nat + 1));
        i = i + 1;
    }
    push_str(&mut s, content);
    let ghost mid = s@;
    let mut j: u16 = 0;
    while j < pad_bottom
        invariant
            j <= pad_bottom,
            s@ == mid + breaks(j as nat),
        decreases pad_bottom - j,
    {
        push_char(&mut s, '\n');
        assert(s@ =~= mid + breaks(j as nat + 1));
        j = j + 1;
    }
    s
}

/// Where the error popup goes: centred in the area, at most sixty columns wide, padded
/// by four columns and two rows.
pub open spec fn popup_area_of(area: Rect, msg: Seq<char>) -> Rect {
    let max_width = if area.width < 60 {
        area.width
    } else {
        60
    };
    let w = widest(line_widths(msg)) + 8;
    let pw = if w < max_width {
        w as u16
    } else {
        max_width
    };
    let ph = ((line_widths(msg).len() as u16) + 4) as u16;
    Rect {
        x: (area.x + (if area.width > pw {
            area.width - pw
        } else {
            0
        }) / 2) as u16,
        y: (area.y + (if area.height > ph {
            area.height - ph
        } else {
            0
        }) / 2) as u16,
        width: pw,
        height: ph,
    }
}

/// Whether the popup for `msg` and its place in `area` can be measured in terminal
/// coordinates: its padded width and height, and the far edge of the area's middle,
/// stay within a `u16`.
pub open spec fn popup_fits(area: Rect, msg: Seq<char>) -> bool {
    &&& widest(line_widths(msg)) + 8 <= u16::MAX
    &&& (line_widths(msg).len() as u16) + 4 <= u16::MAX
    &&& area.x + area.width / 2 <= u16::MAX
    &&& area.y + area.height / 2 <= u16::MAX
}

/// Where the error popup goes for an error text.
pub fn error_popup_area(area: Rect, msg: &str) -> (r: Rect)
    requires
        popup_fits(area, msg@),
    ensures
        r == popup_area_of(area, msg@),
{
    let max_width = if area.width < 60 {
        area.width
    } else {
        60
    };
    let padding_x: u16 = 4;
    let padding_y: u16 = 2;
    let (popup_width, popup_height) = measure_popup(msg, max_width, padding_x, padding_y);
    Rect {
        x: area.x + area.width.saturating_sub(popup_width) / 2,
        y: area.y + area.height.saturating_sub(popup_height) / 2,
        width: popup_width,
        height: popup_height,
    }
}

/// Where the error popup goes, or nothing when the text is too wide or too long, or
/// the area too far out, for the popup to be measured in terminal coordinates.
pub fn fitted_error_popup_area(area: Rect, msg: &str) -> (r: Option<Rect>)
    ensures
        match r {
            Some(p) => popup_fits(area, msg@) && p == popup_area_of(area, msg@),
            None => !popup_fits(area, msg@),
        },
{
    let widths = text_line_widths(msg);
    let width = widest_of(&widths);
    let lines = widths.len() as u16;
    if width > u16::MAX - 8 || lines > u16::MAX - 4 || area.width / 2 > u16::MAX - area.x
        || area.height / 2 > u16::MAX - area.y {
        None
    } else {
        Some(error_popup_area(area, msg))
    }
}

/// Dashes that fill a line between a left and a right text, a space on either side.
pub fn calculate_dash_count(left_len: usize, right_len: usize, width: u16) -> (r: usize)
    requires
        left_len + right_len + 2 <= usize::MAX,
    ensures
        r == if width > left_len + right_len + 2 {
            width - (left_len + right_len + 2)
        } else {
            0
        },
{
    let available_width = width as usize;
    let used = left_len + right_len + 2;
    if available_width > used {
        available_width - used
    } else {
        0
    }
}

} // verus!
