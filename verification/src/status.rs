use vstd::prelude::*;
use crate::actions::{essential_entries, essential_ids, registered_schemas, ActionSchema};
use crate::input::InputHandler;
use crate::keybindings::Keybindings;
use crate::keys::{KeyChord, KeyCode};
use crate::layout::Rect;
use crate::mode::Mode;
use crate::state::{current_branch_of, current_tree_of, AppState};
use crate::text::{owned, push_char, push_str};

verus! {

/// A piece of the help line: a key (shown in the key colour) or plain text.
#[derive(Debug)]
pub struct HelpSpan {
    pub text: String,
    pub key: bool,
}

/// The texts and kinds of help pieces.
pub open spec fn spans_view(v: Seq<HelpSpan>) -> Seq<(Seq<char>, bool)> {
    Seq::new(v.len(), |i: int| (v[i].text@, v[i].key))
}

/// The mode's name as `Debug` writes it.
pub open spec fn mode_name(m: Mode) -> Seq<char> {
    match m {
        Mode::Normal => "Normal"@,
        Mode::Edit => "Edit"@,
    }
}

/// The left of the status bar: the mode, and whether an error is shown.
pub fn build_mode_text(app_state: &AppState) -> (r: String)
    ensures
        r@ == "Mode: "@ + mode_name(app_state.mode) + if app_state.error_message is Some {
            " > Error"@
        } else {
            Seq::empty()
        },
{
    let mut s = owned("Mode: ");
    match app_state.mode {
        Mode::Normal => push_str(&mut s, "Normal"),
        Mode::Edit => push_str(&mut s, "Edit"),
    }
    if app_state.error_message.is_some() {
        push_str(&mut s, " > Error");
    }
    s
}

/// The right of the status bar: provider and model.
pub fn build_model_info(app_state: &AppState) -> (r: String)
    ensures
        r@ == app_state.config.model.provider@ + ": "@ + app_state.config.model.name@,
{
    let mut s = app_state.config.model.provider.clone();
    push_str(&mut s, ": ");
    push_str(&mut s, app_state.config.model.name.as_str());
    s
}

/// The help line: the row below the status bar's top.
pub fn create_help_area(area: Rect) -> (r: Rect)
    requires
        area.y < u16::MAX,
    ensures
        r == (Rect { x: area.x, y: (area.y + 1) as u16, width: area.width, height: 1 }),
{
    Rect { x: area.x, y: area.y + 1, width: area.width, height: 1 }
}

/// Whether a separator goes before the `index`-th action.
pub fn should_add_separator(index: usize) -> (r: bool)
    ensures
        r == (index > 0),
{
    index > 0
}

/// Whether an action is left out of the help: it needs a focused message and none is.
pub fn should_skip_schema(schema: &ActionSchema, app_state: &AppState) -> (r: bool)
    ensures
        r == (schema.requires_focus_of() && app_state.focused_message_id is None),
{
    schema.requires_focus() && app_state.focused_message_id.is_none()
}

/// How a key is written in the help.
pub open spec fn key_code_text(k: KeyCode) -> Seq<char> {
    match k {
        KeyCode::Char(c) => seq![c],
        KeyCode::Up => "↑"@,
        KeyCode::Down => "↓"@,
        KeyCode::Left => "←"@,
        KeyCode::Right => "→"@,
        KeyCode::Esc => "esc"@,
        KeyCode::Enter => "enter"@,
        KeyCode::Tab => "tab"@,
        KeyCode::Backspace => "backspace"@,
        KeyCode::Delete => "delete"@,
        KeyCode::Home => "home"@,
        KeyCode::End => "end"@,
        KeyCode::PageUp => "pgup"@,
        KeyCode::PageDown => "pgdn"@,
        _ => "?"@,
    }
}

/// How a key is written in the help.
pub fn format_key_code(key_code: KeyCode) -> (r: String)
    ensures
        r@ == key_code_text(key_code),
{
    match key_code {
        KeyCode::Char(c) => {
            let mut s = String::new();
            push_char(&mut s, c);
            s
        },
        KeyCode::Up => owned("↑"),
        KeyCode::Down => owned("↓"),
        KeyCode::Left => owned("←"),
        KeyCode::Right => owned("→"),
        KeyCode::Esc => owned("esc"),
        KeyCode::Enter => owned("enter"),
        KeyCode::Tab => owned("tab"),
        KeyCode::Backspace => owned("backspace"),
        KeyCode::Delete => owned("delete"),
        KeyCode::Home => owned("home"),
        KeyCode::End => owned("end"),
        KeyCode::PageUp => owned("pgup"),
        KeyCode::PageDown => owned("pgdn"),
        _ => owned("?"),
    }
}

/// The modifiers of a chord as written in the help: control, shift, alt, in that order.
pub open spec fn modifiers_text(k: KeyChord) -> Seq<char> {
    (if k.modifiers.control {
        "ctrl-"@
    } else {
        Seq::empty()
    }) + (if k.modifiers.shift {
        "shift-"@
    } else {
        Seq::empty()
    }) + (if k.modifiers.alt {
        "alt-"@
    } else {
        Seq::empty()
    })
}

/// The modifiers of a chord as written in the help.
pub fn build_modifiers_string(key_chord: &KeyChord) -> (r: String)
    ensures
        r@ == modifiers_text(*key_chord),
{
    let mut result = String::new();
    if key_chord.modifiers.control {
        push_str(&mut result, "ctrl-");
    }
    if key_chord.modifiers.shift {
        push_str(&mut result, "shift-");
    }
    if key_chord.modifiers.alt {
        push_str(&mut result, "alt-");
    }
    assert(result@ =~= modifiers_text(*key_chord));
    result
}

/// A chord as written in the help: modifiers, then the key.
pub fn format_key_chord(key_chord: &KeyChord) -> (r: String)
    ensures
        r@ == modifiers_text(*key_chord) + key_code_text(key_chord.key),
{
    let mut s = build_modifiers_string(key_chord);
    push_str(&mut s, format_key_code(key_chord.key).as_str());
    s
}

/// The first chord bound to an action in a mode.
pub open spec fn first_key(kb: Keybindings, mode: Mode, id: Seq<char>) -> Option<KeyChord> {
    match kb.lookup(mode, id) {
        Some(ks) => if ks.len() > 0 {
            Some(ks[0])
        } else {
            None
        },
        None => None,
    }
}

/// The help pieces of one action: its first chord, then its name; none without a chord.
pub open spec fn action_spans_of(s: AppState, id: Seq<char>, schema: ActionSchema) -> Option<
    Seq<(Seq<char>, bool)>,
> {
    match first_key(s.config.keybindings, s.mode, id) {
        Some(k) => Some(
            seq![
                (modifiers_text(k) + key_code_text(k.key), true),
                (": "@ + schema.name_of() + "  "@, false),
            ],
        ),
        None => None,
    }
}

/// The help pieces of one action.
pub fn create_action_spans(app_state: &AppState, action_id: &str, schema: &ActionSchema) -> (r:
    Option<Vec<HelpSpan>>)
    ensures
        match action_spans_of(*app_state, action_id@, *schema) {
            Some(v) => r matches Some(x) && spans_view(x@) == v,
            None => r is None,
        },
{
    let key_chord = match app_state.config.get_key_for_action(app_state.mode, action_id) {
        Some(k) => k,
        None => return None,
    };
    let key_display = format_key_chord(key_chord);
    let mut label = owned(": ");
    push_str(&mut label, schema.name());
    push_str(&mut label, "  ");
    let v = vec![HelpSpan { text: key_display, key: true }, HelpSpan { text: label, key: false }];
    assert(spans_view(v@) =~= action_spans_of(*app_state, action_id@, *schema).unwrap());
    Some(v)
}

/// The help pieces of the actions, in order: a separator before each but the first (kept
/// for a left-out action), then the action's pieces unless it needs a focus that is
/// missing or has no chord.
pub open spec fn actions_spans(s: AppState, entries: Seq<(Seq<char>, ActionSchema)>) -> Seq<
    (Seq<char>, bool),
>
    decreases entries.len(),
{
    if entries.len() == 0 {
        Seq::empty()
    } else {
        let i = entries.len() - 1;
        let (id, schema) = entries[i];
        actions_spans(s, entries.drop_last()) + (if i > 0 {
            seq![("  "@, false)]
        } else {
            Seq::empty()
        }) + if schema.requires_focus_of() && s.focused_message_id is None {
            Seq::empty()
        } else {
            match action_spans_of(s, id, schema) {
                Some(v) => v,
                None => Seq::empty(),
            }
        }
    }
}

/// The help pieces of the actions, in order.
pub fn build_action_spans(app_state: &AppState, available_schemas: &[(&'static str, &ActionSchema)]) -> (r:
    Vec<HelpSpan>)
    ensures
        spans_view(r@) == actions_spans(
            *app_state,
            Seq::new(
                available_schemas@.len(),
                |k: int| (available_schemas@[k].0@, *available_schemas@[k].1),
            ),
        ),
{
    let ghost entries = Seq::new(
        available_schemas@.len(),
        |k: int| (available_schemas@[k].0@, *available_schemas@[k].1),
    );
    let mut spans: Vec<HelpSpan> = Vec::new();
    let mut i: usize = 0;
    while i < available_schemas.len()
        invariant
            i <= available_schemas@.len(),
            entries == Seq::new(
                available_schemas@.len(),
                |k: int| (available_schemas@[k].0@, *available_schemas@[k].1),
            ),
            spans_view(spans@) == actions_spans(*app_state, entries.take(i as int)),
        decreases available_schemas.len() - i,
    {
        let ghost before = spans_view(spans@);
        assert(entries.take(i as int + 1).drop_last() =~= entries.take(i as int));
        let (action_id, schema) = available_schemas[i];
        if should_add_separator(i) {
            spans.push(HelpSpan { text: owned("  "), key: false });
        }
        let ghost mid = spans_view(spans@);
        if !should_skip_schema(schema, app_state) {
            if let Some(action_spans) = create_action_spans(app_state, action_id, schema) {
                let mut k: usize = 0;
                let mut action_spans = action_spans;
                let ghost added = spans_view(action_spans@);
                let mut rest: Vec<HelpSpan> = Vec::new();
                while action_spans.len() > 0
                    invariant
                        spans_view(spans@) + spans_view(action_spans@) == mid + added,
                    decreases action_spans.len(),
                {
                    let ghost a = spans_view(action_spans@);
                    let ghost b = spans_view(spans@);
                    let first = action_spans.remove(0);
                    assert(a =~= seq![(first.text@, first.key)] + spans_view(action_spans@));
                    spans.push(first);
                    assert(spans_view(spans@) =~= b.push((first.text@, first.key)));
                    assert(spans_view(spans@) + spans_view(action_spans@) =~= b + a);
                }
                assert(spans_view(action_spans@) =~= Seq::<(Seq<char>, bool)>::empty());
                assert(spans_view(spans@) =~= mid + added);
            }
        }
        proof {
            if i > 0 {
                assert(mid =~= before + seq![("  "@, false)]);
            } else {
                assert(mid =~= before + Seq::<(Seq<char>, bool)>::empty());
            }
            assert(spans_view(spans@) =~= actions_spans(*app_state, entries.take(i as int + 1)));
        }
        i = i + 1;
    }
    assert(entries.take(i as int) =~= entries);
    spans
}

/// The help shown over an error: escape dismisses it.
pub fn create_error_help_line() -> (r: Vec<HelpSpan>)
    ensures
        spans_view(r@) == seq![("esc"@, true), (": dismiss"@, false)],
{
    let v = vec![
        HelpSpan { text: owned("esc"), key: true },
        HelpSpan { text: owned(": dismiss"), key: false },
    ];
    assert(spans_view(v@) =~= seq![("esc"@, true), (": dismiss"@, false)]);
    v
}

/// The help line: how to dismiss an error when one shows, else the mode's essential
/// actions with their keys.
pub fn create_help_line(app_state: &AppState) -> (r: Vec<HelpSpan>)
    ensures
        spans_view(r@) == if app_state.error_message is Some {
            seq![("esc"@, true), (": dismiss"@, false)]
        } else {
            actions_spans(
                *app_state,
                essential_entries(registered_schemas(), essential_ids(app_state.mode), app_state.mode),
            )
        },
{
    if app_state.error_message.is_some() {
        return create_error_help_line();
    }
    let input_handler = InputHandler::new(&app_state.config);
    let available_schemas = input_handler.get_essential_schemas(app_state.mode);
    let r = build_action_spans(app_state, available_schemas.as_slice());
    assert(Seq::new(
        available_schemas@.len(),
        |k: int| (available_schemas@[k].0@, *available_schemas@[k].1),
    ) =~= essential_entries(registered_schemas(), essential_ids(app_state.mode), app_state.mode));
    r
}

/// Whether the dialogue has several trees.
pub fn has_multiple_trees(app_state: &AppState) -> (r: bool)
    ensures
        r == (app_state.dialogue.trees@.len() > 1),
{
    app_state.dialogue.trees.len() > 1
}

/// Whether the tree shown has several branches.
pub fn has_multiple_branches(app_state: &AppState) -> (r: bool)
    ensures
        r == match current_tree_of(*app_state) {
            Some(t) => t.branches@.len() > 1,
            None => false,
        },
{
    match app_state.current_tree() {
        Some(tree) => tree.branches.len() > 1,
        None => false,
    }
}

/// The path of dialogue, tree and (when the tree has several) branch, joined by " > ".
pub open spec fn tree_path(s: AppState, dialogue_name: Seq<char>) -> Seq<char> {
    match current_tree_of(s) {
        Some(t) => dialogue_name + " > "@ + t.name@ + if t.branches@.len() > 1 {
            match current_branch_of(s) {
                Some(b) => " > "@ + b.name@,
                None => Seq::empty(),
            }
        } else {
            Seq::empty()
        },
        None => dialogue_name,
    }
}

/// The path of dialogue, tree and optional branch.
pub fn breadcrumb_with_tree_and_optional_branch(app_state: &AppState, dialogue_name: &str) -> (r:
    String)
    ensures
        r@ == tree_path(*app_state, dialogue_name@),
{
    let mut s = owned(dialogue_name);
    if let Some(tree) = app_state.current_tree() {
        push_str(&mut s, " > ");
        push_str(&mut s, tree.name.as_str());
        if tree.branches.len() > 1 {
            if let Some(branch) = app_state.current_branch() {
                push_str(&mut s, " > ");
                push_str(&mut s, branch.name.as_str());
            }
        }
    }
    s
}

/// The dialogue and branch, joined by " >> ", or the dialogue alone without a branch.
pub fn breadcrumb_with_branch(app_state: &AppState, dialogue_name: &str) -> (r: String)
    ensures
        r@ == match current_branch_of(*app_state) {
            Some(b) => dialogue_name@ + " >> "@ + b.name@,
            None => dialogue_name@,
        },
{
    let mut s = owned(dialogue_name);
    if let Some(branch) = app_state.current_branch() {
        push_str(&mut s, " >> ");
        push_str(&mut s, branch.name.as_str());
    }
    s
}

/// The breadcrumb: with several trees, the tree path; with one tree of several branches,
/// the branch; else the dialogue's name.
pub open spec fn breadcrumb_of(s: AppState) -> Seq<char> {
    let name = s.dialogue.name@;
    if s.dialogue.trees@.len() > 1 {
        tree_path(s, name)
    } else if match current_tree_of(s) {
        Some(t) => t.branches@.len() > 1,
        None => false,
    } {
        match current_branch_of(s) {
            Some(b) => name + " >> "@ + b.name@,
            None => name,
        }
    } else {
        name
    }
}

/// The breadcrumb above the messages.
pub fn build_breadcrumb_text(app_state: &AppState) -> (r: String)
    ensures
        r@ == breadcrumb_of(*app_state),
{
    let dialogue_name = app_state.dialogue.name.clone();
    if has_multiple_trees(app_state) {
        breadcrumb_with_tree_and_optional_branch(app_state, dialogue_name.as_str())
    } else if has_multiple_branches(app_state) {
        breadcrumb_with_branch(app_state, dialogue_name.as_str())
    } else {
        dialogue_name
    }
}

} // verus!
