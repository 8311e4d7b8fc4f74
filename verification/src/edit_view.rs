use vstd::prelude::*;
use crate::dialogue::{index_of_message, Message, Role};
use crate::editor::{after_insert_newline, after_insert_str, after_move_cursor, buffer_lines, buffer_selecting, CursorMoveKind, TextBuffer};
use crate::heights::{calculate_message_display_height, ceil_div, height_budget, lemma_budget_prefix, lemma_message_height_bound, message_height, messages_fit};
use crate::layout::Rect;
use crate::mode::Mode;
use crate::normal_mode_handler::with_error;
use crate::state::{append_mode_of, current_branch_of, current_messages_of, AppState};
use crate::text::{byte_len, chars_of, lemma_byte_len_ge_len, lines_of, owned, split_lines, string_from_chars};

verus! {

/// The texts of a list of strings.
pub open spec fn strings_view(v: Seq<String>) -> Seq<Seq<char>> {
    Seq::new(v.len(), |i: int| v[i]@)
}

/// Columns available for text in the editor: four fewer than the viewport (borders,
/// scrollbar and padding), none below that.
pub fn calculate_wrap_width(viewport_width: u16) -> (r: usize)
    ensures
        r == if viewport_width >= 4 {
            viewport_width - 4
        } else {
            0
        },
{
    if viewport_width >= 4 {
        (viewport_width - 4) as usize
    } else {
        0
    }
}

/// The lines `textwrap::wrap` breaks a line into at a width.
pub uninterp spec fn wrapped_lines(line: Seq<char>, width: usize) -> Seq<Seq<char>>;

/// `textwrap::wrap` of one line at a width (default options: break at word boundaries,
/// split words longer than the width), each piece as an owned string.
#[verifier::external_body]
fn wrap_line(line: &str, width: usize) -> (r: Vec<String>)
    ensures
        strings_view(r@) == wrapped_lines(line@, width),
{
    textwrap::wrap(line, width).into_iter().map(|piece| piece.to_string()).collect()
}

/// The lines of a text wrapped one by one; an empty line stays one empty line.
pub open spec fn wrap_lines(ls: Seq<Seq<char>>, w: usize) -> Seq<Seq<char>>
    decreases ls.len(),
{
    if ls.len() == 0 {
        Seq::empty()
    } else {
        wrap_lines(ls.drop_last(), w) + if ls.last().len() == 0 {
            seq![Seq::<char>::empty()]
        } else {
            wrapped_lines(ls.last(), w)
        }
    }
}

/// A text's lines (as `str::lines` splits them), each wrapped at the width.
pub fn wrap_content(content: &str, wrap_width: usize) -> (r: Vec<String>)
    ensures
        strings_view(r@) == wrap_lines(lines_of(content@), wrap_width),
{
    let chars = chars_of(content);
    let lines = split_lines(chars.as_slice());
    let ghost ls = lines_of(content@);
    let mut out: Vec<String> = Vec::new();
    let mut i: usize = 0;
    while i < lines.len()
        invariant
            i <= lines@.len(),
            lines@.len() == ls.len(),
            ls == lines_of(content@),
            forall|k: int| 0 <= k < lines@.len() ==> #[trigger] lines@[k]@ == ls[k],
            strings_view(out@) == wrap_lines(ls.take(i as int), wrap_width),
        decreases lines.len() - i,
    {
        let ghost before = out@;
        assert(ls.take(i as int + 1).drop_last() =~= ls.take(i as int));
        assert(ls.take(i as int + 1).last() == lines@[i as int]@);
        if lines[i].len() == 0 {
            out.push(String::new());
            assert(strings_view(out@) =~= strings_view(before) + seq![Seq::<char>::empty()]);
        } else {
            let line = string_from_chars(lines[i].as_slice());
            let pieces = wrap_line(line.as_str(), wrap_width);
            let mut k: usize = 0;
            while k < pieces.len()
                invariant
                    k <= pieces@.len(),
                    strings_view(out@) == strings_view(before) + strings_view(pieces@).take(k as int),
                decreases pieces.len() - k,
            {
                let ghost mid = out@;
                out.push(pieces[k].clone());
                assert(strings_view(out@) =~= strings_view(mid).push(pieces@[k as int]@));
                assert(strings_view(pieces@).take(k as int + 1) =~= strings_view(pieces@).take(
                    k as int,
                ).push(pieces@[k as int]@));
                k = k + 1;
            }
            assert(strings_view(pieces@).take(k as int) =~= strings_view(pieces@));
        }
        i = i + 1;
    }
    assert(ls.take(i as int) =~= ls);
    out
}

/// The editor after typing the lines one after the other, a line break between two.
pub open spec fn inserted_lines(t: TextBuffer, ls: Seq<Seq<char>>) -> TextBuffer
    decreases ls.len(),
{
    if ls.len() == 0 {
        t
    } else if ls.len() == 1 {
        after_insert_str(t, ls[0])
    } else {
        after_insert_str(after_insert_newline(inserted_lines(t, ls.drop_last())), ls.last())
    }
}

/// Types the lines into the editor, a line break between two.
pub fn insert_lines_into_textarea(textarea: &mut TextBuffer, lines: &[String])
    ensures
        *final(textarea) == inserted_lines(*old(textarea), strings_view(lines@)),
{
    let ghost ls = strings_view(lines@);
    let mut i: usize = 0;
    while i < lines.len()
        invariant
            i <= lines@.len(),
            ls == strings_view(lines@),
            *textarea == inserted_lines(*old(textarea), ls.take(i as int)),
        decreases lines.len() - i,
    {
        assert(ls.take(i as int + 1).drop_last() =~= ls.take(i as int));
        if i > 0 {
            textarea.insert_newline();
        }
        textarea.insert_str(lines[i].as_str());
        i = i + 1;
    }
    assert(ls.take(i as int) =~= ls);
}

/// The editor with the cursor at the start of its first line.
pub open spec fn at_start(t: TextBuffer) -> TextBuffer {
    after_move_cursor(after_move_cursor(t, CursorMoveKind::Top), CursorMoveKind::Head)
}

/// Puts the cursor at the start of the first line.
pub fn position_cursor_at_start(textarea: &mut TextBuffer)
    ensures
        *final(textarea) == at_start(*old(textarea)),
{
    textarea.move_cursor(CursorMoveKind::Top);
    textarea.move_cursor(CursorMoveKind::Head);
}

/// The content of a message of the branch being shown, or why it cannot be had.
pub open spec fn message_content_in_view(s: AppState, id: u128) -> Result<Seq<char>, Seq<char>> {
    match current_branch_of(s) {
        None => Err("No branch selected"@),
        Some(b) => match index_of_message(b.messages@, id) {
            None => Err("Message not found"@),
            Some(i) => Ok(b.messages@[i].content@),
        },
    }
}

/// The content of a message of the branch being shown.
pub fn get_message_content(app_state: &AppState, message_id: u128) -> (r: Result<String, String>)
    ensures
        match message_content_in_view(*app_state, message_id) {
            Ok(c) => r matches Ok(x) && x@ == c,
            Err(e) => r matches Err(x) && x@ == e,
        },
{
    let branch = match app_state.current_branch() {
        Some(b) => b,
        None => return Err(owned("No branch selected")),
    };
    match branch.get_message_by_id(message_id) {
        Some(m) => Ok(m.content.clone()),
        None => Err(owned("Message not found")),
    }
}

/// Whether `t` is a fresh editor holding the content wrapped at the width, cursor at the
/// start.
pub open spec fn editing_from_start(t: TextBuffer, content: Seq<char>, wrap_width: usize) -> bool {
    exists|t0: TextBuffer|
        buffer_lines(t0) == seq![Seq::<char>::empty()] && !buffer_selecting(t0) && t == at_start(
            inserted_lines(t0, wrap_lines(lines_of(content), wrap_width)),
        )
}

/// The state once the focused message is loaded into a fresh editor, wrapped to the
/// viewport; or the error saying why it cannot be.
pub open spec fn textarea_initialized(s: AppState, f: AppState, viewport_width: u16) -> bool {
    match s.focused_message_id {
        None => with_error(s, f, "No message selected for editing"@),
        Some(id) => match message_content_in_view(s, id) {
            Err(e) => with_error(s, f, e),
            Ok(c) => match f.edit_textarea {
                Some(t) => editing_from_start(
                    t,
                    c,
                    if viewport_width >= 4 {
                        (viewport_width - 4) as usize
                    } else {
                        0
                    },
                ) && (AppState { edit_textarea: f.edit_textarea, ..s }) == f,
                None => false,
            },
        },
    }
}

/// Loads the focused message into a fresh editor, wrapped to the viewport, cursor at the
/// start.
pub fn initialize_from_message(app_state: &mut AppState, viewport_width: u16)
    ensures
        textarea_initialized(*old(app_state), *final(app_state), viewport_width),
{
    let message_id = match app_state.focused_message_id {
        Some(id) => id,
        None => {
            app_state.error_message = Some(owned("No message selected for editing"));
            return ;
        },
    };
    let content = match get_message_content(app_state, message_id) {
        Ok(c) => c,
        Err(e) => {
            app_state.error_message = Some(e);
            return ;
        },
    };
    let mut textarea = TextBuffer::new();
    let ghost t0 = textarea;
    let wrap_width = calculate_wrap_width(viewport_width);
    let wrapped = wrap_content(content.as_str(), wrap_width);
    insert_lines_into_textarea(&mut textarea, wrapped.as_slice());
    position_cursor_at_start(&mut textarea);
    assert(editing_from_start(textarea, content@, wrap_width)) by {
        assert(buffer_lines(t0) == seq![Seq::<char>::empty()] && !buffer_selecting(t0));
    }
    app_state.edit_textarea = Some(textarea);
}

/// Loads the focused message into a fresh editor, wrapped to the viewport, cursor at the
/// start; reports a missing focus, branch or message.
pub fn initialize_textarea_with_wrapping(app_state: &mut AppState, viewport_width: u16)
    ensures
        textarea_initialized(*old(app_state), *final(app_state), viewport_width),
{
    initialize_from_message(app_state, viewport_width);
}

/// Whether the editor must be filled: in edit mode without one.
pub fn should_initialize_textarea(app_state: &AppState) -> (r: bool)
    ensures
        r == (app_state.edit_textarea is None && app_state.mode == Mode::Edit),
{
    app_state.edit_textarea.is_none() && app_state.mode == Mode::Edit
}

/// Rows a line takes in the editor: one when empty, else its characters over the width,
/// rounded up.
pub open spec fn line_rows_in_editor(line: Seq<char>, wrap_width: nat) -> nat {
    if line.len() == 0 {
        1
    } else {
        ceil_div(line.len(), wrap_width)
    }
}

/// Rows the lines take in the editor.
pub open spec fn editor_rows(ls: Seq<Seq<char>>, wrap_width: nat) -> nat
    decreases ls.len(),
{
    if ls.len() == 0 {
        0
    } else {
        editor_rows(ls.drop_last(), wrap_width) + line_rows_in_editor(ls.last(), wrap_width)
    }
}

/// Whether every non-empty line can be divided by the width (a zero width divides none).
pub open spec fn wrappable(ls: Seq<Seq<char>>, wrap_width: nat) -> bool {
    forall|i: int| 0 <= i < ls.len() && ls[i].len() > 0 ==> wrap_width > 0
}

proof fn lemma_editor_rows_bound(ls: Seq<Seq<char>>, w: nat)
    requires
        w > 0 || forall|i: int| 0 <= i < ls.len() ==> ls[i].len() == 0,
    ensures
        editor_rows(ls, w) <= lines_size(ls),
    decreases ls.len(),
{
    if ls.len() > 0 {
        lemma_editor_rows_bound(ls.drop_last(), w);
        let l = ls.last();
        if l.len() > 0 {
            assert(ls[ls.len() - 1].len() > 0);
            assert(w > 0);
            assert(ceil_div(l.len(), w) <= l.len()) by (nonlinear_arith)
                requires
                    w > 0,
                    l.len() > 0,
                    ceil_div(l.len(), w) == l.len() / w + if l.len() % w != 0 {
                        1nat
                    } else {
                        0nat
                    },
            {
                assert(l.len() / w * w + l.len() % w == l.len());
                if l.len() % w != 0 {
                    assert(l.len() / w * w + 1 <= l.len());
                    assert(l.len() / w + 1 <= l.len()) by {
                        assert(l.len() / w <= l.len() / w * w);
                    }
                } else {
                    assert(l.len() / w <= l.len() / w * w);
                }
            }
        }
    }
}

/// Characters of the lines plus one per line: a bound on their rows in the editor.
pub open spec fn lines_size(ls: Seq<Seq<char>>) -> nat
    decreases ls.len(),
{
    if ls.len() == 0 {
        0
    } else {
        lines_size(ls.drop_last()) + ls.last().len() + 1
    }
}

/// Rows a line takes in the editor.
pub fn calculate_line_display_height(line: &str, wrap_width: usize) -> (r: usize)
    requires
        line@.len() > 0 ==> wrap_width > 0,
    ensures
        r == line_rows_in_editor(line@, wrap_width as nat),
{
    let chars = chars_of(line);
    let n = chars.len();
    if n == 0 {
        1
    } else {
        assert(n % wrap_width == 0 || n / wrap_width + 1 <= n) by (nonlinear_arith)
            requires
                wrap_width > 0,
                n > 0,
        {
            if wrap_width == 1 {
                assert(n % wrap_width == 0);
            } else {
                assert(n / wrap_width * wrap_width <= n);
                assert(n / wrap_width * 2 <= n / wrap_width * wrap_width);
            }
        }
        n / wrap_width + if n % wrap_width != 0 {
            1
        } else {
            0
        }
    }
}

/// Height of the editor in rows: its lines' rows at the area width less the borders,
/// plus the two borders, at most the area width.
pub open spec fn display_height(ls: Seq<Seq<char>>, area_width: u16) -> int {
    let w = if area_width >= 2 {
        area_width - 2
    } else {
        0
    };
    let rows = editor_rows(ls, w as nat) + 2;
    if rows < area_width {
        rows as int
    } else {
        area_width as int
    }
}

/// Whether the editor's lines can be measured at the area width: a line with text has a
/// width to wrap at, and the characters and line breaks stay within a `usize`.
pub open spec fn display_measurable(ls: Seq<Seq<char>>, area_width: u16) -> bool {
    &&& wrappable(
        ls,
        if area_width >= 2 {
            (area_width - 2) as nat
        } else {
            0
        },
    )
    &&& lines_size(ls) + 2 <= usize::MAX
}

proof fn lemma_lines_size_prefix(ls: Seq<Seq<char>>, j: int)
    requires
        0 <= j <= ls.len(),
    ensures
        lines_size(ls.take(j)) <= lines_size(ls),
    decreases ls.len(),
{
    if j == ls.len() {
        assert(ls.take(j) =~= ls);
    } else {
        lemma_lines_size_prefix(ls.drop_last(), j);
        assert(ls.drop_last().take(j) =~= ls.take(j));
    }
}

/// The editor's height in rows at the area width, or nothing when its lines cannot be
/// measured there (a line with text and no width to wrap at, or too many characters).
pub fn fitted_display_height(textarea: &TextBuffer, area_width: u16) -> (r: Option<u16>)
    ensures
        match r {
            Some(h) => display_measurable(buffer_lines(*textarea), area_width) && h == display_height(
                buffer_lines(*textarea),
                area_width,
            ),
            None => !display_measurable(buffer_lines(*textarea), area_width),
        },
{
    let wrap_width: usize = if area_width >= 2 {
        (area_width - 2) as usize
    } else {
        0
    };
    let lines = textarea.lines();
    let ghost ls = buffer_lines(*textarea);
    let mut size: usize = 0;
    let mut i: usize = 0;
    while i < lines.len()
        invariant
            i <= lines@.len() == ls.len(),
            forall|k: int| 0 <= k < lines@.len() ==> #[trigger] lines@[k]@ == ls[k],
            size == lines_size(ls.take(i as int)),
            size + 2 <= usize::MAX,
            ls == buffer_lines(*textarea),
            wrappable(ls.take(i as int), wrap_width as nat),
            wrap_width == (if area_width >= 2 {
                (area_width - 2) as nat
            } else {
                0
            }),
        decreases lines.len() - i,
    {
        assert(ls.take(i as int + 1).drop_last() =~= ls.take(i as int));
        let n = chars_of(lines[i].as_str()).len();
        assert(lines@[i as int]@ == ls[i as int]);
        if n > 0 && wrap_width == 0 {
            assert(ls[i as int].len() > 0);
            return None;
        }
        if size > usize::MAX - 3 || n > usize::MAX - 3 - size {
            proof {
                lemma_lines_size_prefix(ls, i as int + 1);
            }
            return None;
        }
        size = size + n + 1;
        i = i + 1;
        assert forall|k: int| 0 <= k < ls.take(i as int).len() && ls.take(i as int)[k].len() > 0 implies wrap_width > 0 by {
            if k < i - 1 {
                assert(ls.take(i as int)[k] == ls.take(i as int - 1)[k]);
            }
        }
    }
    assert(ls.take(i as int) =~= ls);
    Some(calculate_display_height(textarea, area_width))
}

/// Height of the editor in rows at the area width.
pub fn calculate_display_height(textarea: &TextBuffer, area_width: u16) -> (r: u16)
    requires
        wrappable(
            buffer_lines(*textarea),
            if area_width >= 2 {
                (area_width - 2) as nat
            } else {
                0
            },
        ),
        lines_size(buffer_lines(*textarea)) + 2 <= usize::MAX,
    ensures
        r == display_height(buffer_lines(*textarea), area_width),
{
    let wrap_width: usize = if area_width >= 2 {
        (area_width - 2) as usize
    } else {
        0
    };
    let lines = textarea.lines();
    let ghost ls = buffer_lines(*textarea);
    let mut display_lines: usize = 0;
    let mut i: usize = 0;
    proof {
        lemma_editor_rows_bound(ls, wrap_width as nat);
    }
    while i < lines.len()
        invariant
            i <= lines@.len() == ls.len(),
            forall|k: int| 0 <= k < lines@.len() ==> #[trigger] lines@[k]@ == ls[k],
            wrappable(ls, wrap_width as nat),
            editor_rows(ls, wrap_width as nat) <= lines_size(ls),
            lines_size(ls) + 2 <= usize::MAX,
            display_lines == editor_rows(ls.take(i as int), wrap_width as nat),
        decreases lines.len() - i,
    {
        assert(ls.take(i as int + 1).drop_last() =~= ls.take(i as int));
        proof {
            lemma_rows_prefix(ls, i as int + 1, wrap_width as nat);
        }
        let h = calculate_line_display_height(lines[i].as_str(), wrap_width);
        display_lines = display_lines + h;
        i = i + 1;
    }
    assert(ls.take(i as int) =~= ls);
    let total = display_lines + 2;
    if total < area_width as usize {
        total as u16
    } else {
        area_width
    }
}

proof fn lemma_rows_prefix(ls: Seq<Seq<char>>, n: int, w: nat)
    requires
        0 <= n <= ls.len(),
    ensures
        editor_rows(ls.take(n), w) <= editor_rows(ls, w),
    decreases ls.len() - n,
{
    if n < ls.len() {
        lemma_rows_prefix(ls, n + 1, w);
        assert(ls.take(n + 1).drop_last() =~= ls.take(n));
    } else {
        assert(ls.take(n) =~= ls);
    }
}

/// Areas of the append-mode screen: the history above, the editor at the bottom.
#[derive(Clone, Copy, Debug, PartialEq, Eq)]
pub struct AppendModeLayout {
    pub history: Rect,
    pub textarea: Rect,
}

/// The editor at the bottom with `textarea_height` rows, the history above it; the whole
/// area to the editor when it needs as much or more.
pub open spec fn append_layout(area: Rect, textarea_height: u16) -> AppendModeLayout {
    if textarea_height >= area.height {
        AppendModeLayout {
            history: Rect { x: area.x, y: area.y, width: area.width, height: 0 },
            textarea: area,
        }
    } else {
        let h = (area.height - textarea_height) as u16;
        AppendModeLayout {
            history: Rect { x: area.x, y: area.y, width: area.width, height: h },
            textarea: Rect {
                x: area.x,
                y: (area.y + h) as u16,
                width: area.width,
                height: textarea_height,
            },
        }
    }
}

/// Splits the area between the history above and the editor at the bottom.
pub fn calculate_append_layout(area: Rect, textarea_height: u16) -> (r: AppendModeLayout)
    requires
        textarea_height < area.height ==> area.y + (area.height - textarea_height) <= u16::MAX,
    ensures
        r == append_layout(area, textarea_height),
{
    if textarea_height >= area.height {
        return AppendModeLayout {
            history: Rect { x: area.x, y: area.y, width: area.width, height: 0 },
            textarea: Rect { x: area.x, y: area.y, width: area.width, height: area.height },
        };
    }
    let history_height = area.height - textarea_height;
    AppendModeLayout {
        history: Rect { x: area.x, y: area.y, width: area.width, height: history_height },
        textarea: Rect {
            x: area.x,
            y: area.y + history_height,
            width: area.width,
            height: textarea_height,
        },
    }
}

/// Areas of the edit screen around an edited message that fits: the history before it
/// right above the editor, and the history after it below.
#[derive(Clone, Copy, Debug, PartialEq, Eq)]
pub struct ProgressiveLayout {
    pub history_above: Rect,
    pub textarea: Rect,
    pub history_below: Rect,
}

/// The history before the message takes the rows it needs above the editor, as far as
/// the rows left by the editor allow; the editor follows it; what is left goes to the
/// history after the message.
pub open spec fn progressive_layout(area: Rect, textarea_height: u16, history_height: u16) -> ProgressiveLayout {
    let free = area.height - textarea_height;
    let above = if history_height < free {
        history_height as int
    } else {
        free
    };
    ProgressiveLayout {
        history_above: Rect { x: area.x, y: area.y, width: area.width, height: above as u16 },
        textarea: Rect {
            x: area.x,
            y: (area.y + above) as u16,
            width: area.width,
            height: textarea_height,
        },
        history_below: Rect {
            x: area.x,
            y: (area.y + above + textarea_height) as u16,
            width: area.width,
            height: (free - above) as u16,
        },
    }
}

/// Places the editor right below the history before the edited message, when the editor
/// is shorter than the area.
pub fn calculate_adaptive_progressive_layout(area: Rect, textarea_height: u16, history_height: u16) -> (r:
    ProgressiveLayout)
    requires
        textarea_height < area.height,
        area.y + area.height <= u16::MAX,
    ensures
        r == progressive_layout(area, textarea_height, history_height),
{
    let free = area.height - textarea_height;
    let above = if history_height < free {
        history_height
    } else {
        free
    };
    ProgressiveLayout {
        history_above: Rect { x: area.x, y: area.y, width: area.width, height: above },
        textarea: Rect { x: area.x, y: area.y + above, width: area.width, height: textarea_height },
        history_below: Rect {
            x: area.x,
            y: area.y + above + textarea_height,
            width: area.width,
            height: free - above,
        },
    }
}

/// The content area once one column is kept for the scrollbar.
pub fn get_content_area_for_scrollbar(area: Rect) -> (r: Rect)
    ensures
        r == (Rect {
            x: area.x,
            y: area.y,
            width: if area.width == 0 {
                0
            } else {
                (area.width - 1) as u16
            },
            height: area.height,
        }),
{
    Rect { x: area.x, y: area.y, width: area.width.saturating_sub(1), height: area.height }
}

/// What edit mode shows about the edited message.
#[derive(Clone, Copy, Debug, PartialEq, Eq, Structural)]
pub struct EditContext {
    pub is_append_mode: bool,
    pub message_role: Role,
}

/// Why the edited message cannot be shown.
#[derive(Clone, Copy, Debug, PartialEq, Eq, Structural)]
pub enum ContextError {
    NoBranch,
    MessageNotFound,
}

/// Whether the message is continued (append mode) and who wrote it; or why it cannot be
/// shown.
pub open spec fn edit_context_of(s: AppState, id: u128) -> Result<EditContext, ContextError> {
    match current_branch_of(s) {
        None => Err(ContextError::NoBranch),
        Some(b) => match index_of_message(b.messages@, id) {
            None => Err(ContextError::MessageNotFound),
            Some(i) => Ok(
                EditContext { is_append_mode: append_mode_of(s), message_role: b.messages@[i].role },
            ),
        },
    }
}

/// Whether the message is continued (append mode) and who wrote it.
pub fn get_edit_context(app_state: &AppState, message_id: u128) -> (r: Result<EditContext, ContextError>)
    ensures
        r == edit_context_of(*app_state, message_id),
{
    let branch = match app_state.current_branch() {
        Some(b) => b,
        None => return Err(ContextError::NoBranch),
    };
    let message = match branch.get_message_by_id(message_id) {
        Some(m) => m,
        None => return Err(ContextError::MessageNotFound),
    };
    Ok(EditContext { is_append_mode: app_state.is_append_mode(), message_role: message.role })
}

/// The messages before the first one with identifier `exclude` (all of them when none
/// has it).
pub open spec fn messages_before(msgs: Seq<Message>, exclude: u128) -> Seq<Message> {
    match index_of_message(msgs, exclude) {
        Some(i) => msgs.take(i),
        None => msgs,
    }
}

/// The messages after the first one with identifier `exclude` (none when none has it).
pub open spec fn messages_after(msgs: Seq<Message>, exclude: u128) -> Seq<Message> {
    match index_of_message(msgs, exclude) {
        Some(i) => msgs.skip(i + 1),
        None => Seq::empty(),
    }
}

/// The messages that do not have identifier `exclude`, in order.
pub open spec fn messages_without(msgs: Seq<Message>, exclude: u128) -> Seq<Message>
    decreases msgs.len(),
{
    if msgs.len() == 0 {
        msgs
    } else if msgs.last().id == exclude {
        messages_without(msgs.drop_last(), exclude)
    } else {
        messages_without(msgs.drop_last(), exclude).push(msgs.last())
    }
}

/// The messages of the branch before the edited one.
pub fn get_filtered_messages_before(app_state: &AppState, exclude_id: u128) -> (r: Vec<Message>)
    ensures
        r@ == messages_before(current_messages_of(*app_state), exclude_id),
{
    let all = app_state.current_messages();
    let mut before: Vec<Message> = Vec::new();
    let mut i: usize = 0;
    while i < all.len()
        invariant
            i <= all@.len(),
            all@ == current_messages_of(*app_state),
            before@ == all@.take(i as int),
            forall|j: int| 0 <= j < i ==> all@[j].id != exclude_id,
        decreases all.len() - i,
    {
        if all[i].id == exclude_id {
            proof {
                assert(crate::dialogue::is_first_index(all@, exclude_id, i as int));
                let k = choose|k: int| crate::dialogue::is_first_index(all@, exclude_id, k);
                if k < i as int {
                    assert(all@[k].id != exclude_id);
                } else if k > i as int {
                    assert(all@[i as int].id != exclude_id);
                }
                assert(index_of_message(all@, exclude_id) == Some(i as int));
                assert(before@ =~= all@.take(i as int));
            }
            return before;
        }
        before.push(all[i].clone());
        assert(before@ =~= all@.take(i as int + 1));
        i = i + 1;
    }
    proof {
        assert(all@.take(i as int) =~= all@);
        if exists|k: int| crate::dialogue::is_first_index(all@, exclude_id, k) {
            let k = choose|k: int| crate::dialogue::is_first_index(all@, exclude_id, k);
            assert(all@[k].id != exclude_id);
        }
    }
    before
}

/// The messages of the branch before the edited one.
pub fn get_messages_before(app_state: &AppState, exclude_id: u128) -> (r: Vec<Message>)
    ensures
        r@ == messages_before(current_messages_of(*app_state), exclude_id),
{
    get_filtered_messages_before(app_state, exclude_id)
}

/// The messages of the branch after the edited one.
pub fn get_filtered_messages_after(app_state: &AppState, exclude_id: u128) -> (r: Vec<Message>)
    ensures
        r@ == messages_after(current_messages_of(*app_state), exclude_id),
{
    let all = app_state.current_messages();
    let mut found_excluded = false;
    let mut after: Vec<Message> = Vec::new();
    let mut i: usize = 0;
    let ghost mut first: int = 0;
    while i < all.len()
        invariant
            i <= all@.len(),
            all@ == current_messages_of(*app_state),
            !found_excluded ==> after@.len() == 0 && forall|j: int| 0 <= j < i ==> all@[j].id
                != exclude_id,
            found_excluded ==> crate::dialogue::is_first_index(all@, exclude_id, first) && first < i
                && after@ == all@.subrange(first + 1, i as int),
        decreases all.len() - i,
    {
        if found_excluded {
            after.push(all[i].clone());
            assert(after@ =~= all@.subrange(first + 1, i as int + 1));
        } else if all[i].id == exclude_id {
            found_excluded = true;
            proof {
                first = i as int;
                assert(after@ =~= all@.subrange(first + 1, i as int + 1));
            }
        }
        i = i + 1;
    }
    proof {
        if found_excluded {
            let k = choose|k: int| crate::dialogue::is_first_index(all@, exclude_id, k);
            if k < first {
                assert(all@[k].id != exclude_id);
            } else if k > first {
                assert(all@[first].id != exclude_id);
            }
            assert(all@.skip(first + 1) =~= all@.subrange(first + 1, all@.len() as int));
        } else if exists|k: int| crate::dialogue::is_first_index(all@, exclude_id, k) {
            let k = choose|k: int| crate::dialogue::is_first_index(all@, exclude_id, k);
            assert(all@[k].id != exclude_id);
        }
    }
    after
}

/// Rows the messages take one after the other.
pub open spec fn rows_of(msgs: Seq<Message>, w: u16) -> int
    decreases msgs.len(),
{
    if msgs.len() == 0 {
        0
    } else {
        rows_of(msgs.drop_last(), w) + message_height(msgs.last(), w)
    }
}

proof fn lemma_rows_bound(msgs: Seq<Message>, w: u16)
    ensures
        0 <= rows_of(msgs, w) <= height_budget(msgs),
    decreases msgs.len(),
{
    if msgs.len() > 0 {
        lemma_rows_bound(msgs.drop_last(), w);
        lemma_message_height_bound(msgs.last(), w);
    }
}

/// Rows the messages take one after the other.
fn sum_heights(messages: &[Message], width: u16) -> (r: usize)
    requires
        messages_fit(messages@),
    ensures
        r == rows_of(messages@, width),
{
    let mut total: usize = 0;
    let mut i: usize = 0;
    while i < messages.len()
        invariant
            i <= messages@.len(),
            messages_fit(messages@),
            total == rows_of(messages@.take(i as int), width),
        decreases messages.len() - i,
    {
        proof {
            assert(messages@.take(i as int + 1).drop_last() =~= messages@.take(i as int));
            lemma_budget_prefix(messages@, i as int + 1);
            lemma_rows_bound(messages@.take(i as int + 1), width);
            lemma_budget_prefix(messages@, i as int);
        }
        total = total + calculate_message_display_height(&messages[i], width);
        i = i + 1;
    }
    assert(messages@.take(i as int) =~= messages@);
    total
}

/// The rows to skip so that the messages end at the bottom of the area, with no gap.
pub fn calculate_scroll_to_bottom(area: Rect, messages: &[Message]) -> (r: usize)
    requires
        messages_fit(messages@),
    ensures
        r == if rows_of(messages@, area.width) > area.height {
            rows_of(messages@, area.width) - area.height
        } else {
            0
        },
{
    let total_height = sum_heights(messages, area.width);
    let available_height = area.height as usize;
    if total_height > available_height {
        total_height - available_height
    } else {
        0
    }
}

/// Rows of the messages as a `u16`, truncated.
pub fn calculate_messages_height(messages: &[Message], width: u16) -> (r: u16)
    requires
        messages_fit(messages@),
    ensures
        r == rows_of(messages@, width) as u16,
{
    sum_heights(messages, width) as u16
}

/// Whether a message ending above the scrolled-off rows is skipped entirely.
pub fn should_skip_message(current_height: usize, message_height: usize, scroll_offset: usize) -> (r:
    bool)
    requires
        current_height + message_height <= usize::MAX,
    ensures
        r == (current_height + message_height <= scroll_offset),
{
    current_height + message_height <= scroll_offset
}

/// Where a message of the history goes: its position in the list, its area, and the
/// rows of it scrolled off at the top.
#[derive(Clone, Copy, Debug, PartialEq, Eq)]
pub struct Placement {
    pub message_index: usize,
    pub area: Rect,
    pub skip_lines: usize,
}

/// The visible part of a message starting `current_height` rows into the history, drawn
/// from row `render_y`: the rows not scrolled off, as many as the area still has.
pub open spec fn visible_portion(area: Rect, render_y: int, current_height: int, message_height: int, scroll_offset: int) -> Rect {
    let skip = if scroll_offset > current_height {
        scroll_offset - current_height
    } else {
        0
    };
    let content = message_height - skip;
    let available = area.y + area.height - render_y;
    let h = if content < available {
        content
    } else {
        available
    };
    Rect { x: area.x, y: render_y as u16, width: area.width, height: h as u16 }
}

/// The visible part of a message of the history.
pub fn calculate_visible_portion(
    area: Rect,
    render_y: u16,
    current_height: usize,
    message_height: usize,
    scroll_offset: usize,
) -> (r: Rect)
    requires
        area.y + area.height <= u16::MAX,
        render_y <= area.y + area.height,
        scroll_offset - current_height <= message_height,
    ensures
        r == visible_portion(
            area,
            render_y as int,
            current_height as int,
            message_height as int,
            scroll_offset as int,
        ),
{
    let skip_lines = if scroll_offset > current_height {
        scroll_offset - current_height
    } else {
        0
    };
    let content_height = message_height - skip_lines;
    let available_height = (area.y + area.height - render_y) as usize;
    let visible_height = if content_height < available_height {
        content_height
    } else {
        available_height
    };
    Rect { x: area.x, y: render_y, width: area.width, height: visible_height as u16 }
}

/// Placements of messages `i` on, `cur` rows into the history and drawing from row `y`:
/// messages wholly scrolled off are passed, drawing stops at the bottom of the area, and a
/// message shows when some of it fits.
pub open spec fn placements_from(
    hs: Seq<int>,
    i: int,
    cur: int,
    y: int,
    area: Rect,
    so: int,
) -> Seq<Placement>
    decreases hs.len() - i,
{
    if i >= hs.len() || i < 0 {
        Seq::empty()
    } else if cur + hs[i] <= so {
        placements_from(hs, i + 1, cur + hs[i], y, area, so)
    } else if y >= area.y + area.height {
        Seq::empty()
    } else {
        let r = visible_portion(area, y, cur, hs[i], so);
        let skip = if so > cur {
            so - cur
        } else {
            0
        };
        if r.height > 0 {
            seq![Placement { message_index: i as usize, area: r, skip_lines: skip as usize }]
                + placements_from(hs, i + 1, cur + hs[i], y + r.height, area, so)
        } else {
            placements_from(hs, i + 1, cur + hs[i], y, area, so)
        }
    }
}

/// Heights of the messages at a width.
pub open spec fn heights_of(msgs: Seq<Message>, w: u16) -> Seq<int> {
    Seq::new(msgs.len(), |i: int| message_height(msgs[i], w) as int)
}

proof fn lemma_rows_take(msgs: Seq<Message>, i: int, w: u16)
    requires
        0 <= i < msgs.len(),
    ensures
        rows_of(msgs.take(i + 1), w) == rows_of(msgs.take(i), w) + message_height(msgs[i], w),
{
    assert(msgs.take(i + 1).drop_last() =~= msgs.take(i));
}

proof fn lemma_rows_prefix_le(msgs: Seq<Message>, i: int, w: u16)
    requires
        0 <= i <= msgs.len(),
    ensures
        rows_of(msgs.take(i), w) <= rows_of(msgs, w),
    decreases msgs.len() - i,
{
    if i < msgs.len() {
        lemma_rows_prefix_le(msgs, i + 1, w);
        lemma_rows_take(msgs, i, w);
    } else {
        assert(msgs.take(i) =~= msgs);
    }
}

/// Where the messages of a history go in the area, `scroll_offset` rows scrolled off.
pub fn visible_placements(area: Rect, messages: &[Message], scroll_offset: usize) -> (r: Vec<
    Placement,
>)
    requires
        messages_fit(messages@),
        area.y + area.height <= u16::MAX,
    ensures
        r@ == placements_from(heights_of(messages@, area.width), 0, 0, area.y as int, area, scroll_offset as int),
{
    let ghost hs = heights_of(messages@, area.width);
    let bottom: u16 = area.y + area.height;
    let mut out: Vec<Placement> = Vec::new();
    let mut current_height: usize = 0;
    let mut render_y: u16 = area.y;
    let mut i: usize = 0;
    proof {
        lemma_rows_bound(messages@, area.width);
    }
    while i < messages.len()
        invariant
            i <= messages@.len(),
            hs == heights_of(messages@, area.width),
            messages_fit(messages@),
            bottom == area.y + area.height,
            area.y <= render_y <= bottom,
            current_height == rows_of(messages@.take(i as int), area.width),
            rows_of(messages@, area.width) <= height_budget(messages@),
            out@ + placements_from(hs, i as int, current_height as int, render_y as int, area, scroll_offset as int)
                == placements_from(hs, 0, 0, area.y as int, area, scroll_offset as int),
        decreases messages.len() - i,
    {
        proof {
            lemma_budget_prefix(messages@, i as int);
            lemma_rows_take(messages@, i as int, area.width);
            lemma_rows_prefix_le(messages@, i as int + 1, area.width);
        }
        let message_height = calculate_message_display_height(&messages[i], area.width);
        if should_skip_message(current_height, message_height, scroll_offset) {
            current_height = current_height + message_height;
            i = i + 1;
            continue;
        }
        if render_y >= bottom {
            assert(out@ + Seq::<Placement>::empty() =~= out@);
            return out;
        }
        let portion = calculate_visible_portion(area, render_y, current_height, message_height, scroll_offset);
        let ghost rest = placements_from(hs, i as int + 1, (current_height + message_height) as int, (render_y + portion.height) as int, area, scroll_offset as int);
        if portion.height > 0 {
            let skip_lines = if scroll_offset > current_height {
                scroll_offset - current_height
            } else {
                0
            };
            let ghost before = out@;
            out.push(Placement { message_index: i, area: portion, skip_lines });
            assert(before + (seq![Placement { message_index: i, area: portion, skip_lines }] + rest)
                =~= out@ + rest);
            render_y = render_y + portion.height;
        }
        current_height = current_height + message_height;
        i = i + 1;
    }
    assert(out@ + Seq::<Placement>::empty() =~= out@);
    out
}

/// A history to draw: the messages and where each shown one goes.
#[derive(Debug)]
pub struct HistoryLayout {
    pub messages: Vec<Message>,
    pub placements: Vec<Placement>,
}

/// The history above the edited message: the messages before it, ending at the bottom of
/// the area.
pub fn layout_excluding_message(app_state: &AppState, area: Rect, exclude_message_id: u128) -> (r:
    HistoryLayout)
    requires
        messages_fit(current_messages_of(*app_state)),
        area.y + area.height <= u16::MAX,
    ensures
        r.messages@ == messages_before(current_messages_of(*app_state), exclude_message_id),
        r.placements@ == if r.messages@.len() == 0 {
            Seq::empty()
        } else {
            placements_from(
                heights_of(r.messages@, area.width),
                0,
                0,
                area.y as int,
                area,
                if rows_of(r.messages@, area.width) > area.height {
                    rows_of(r.messages@, area.width) - area.height
                } else {
                    0
                },
            )
        },
{
    let messages = get_filtered_messages_before(app_state, exclude_message_id);
    proof {
        lemma_fit_prefix(current_messages_of(*app_state), messages@.len() as int);
        assert(current_messages_of(*app_state).take(messages@.len() as int) =~= messages@);
    }
    if messages.len() == 0 {
        return HistoryLayout { messages, placements: Vec::new() };
    }
    let scroll_offset = calculate_scroll_to_bottom(area, messages.as_slice());
    let placements = visible_placements(area, messages.as_slice(), scroll_offset);
    HistoryLayout { messages, placements }
}

/// The history below the edited message: the messages after it, from the top of the area.
pub fn layout_excluding_message_below(app_state: &AppState, area: Rect, exclude_message_id: u128) -> (r:
    HistoryLayout)
    requires
        messages_fit(current_messages_of(*app_state)),
        area.y + area.height <= u16::MAX,
    ensures
        r.messages@ == messages_after(current_messages_of(*app_state), exclude_message_id),
        r.placements@ == if r.messages@.len() == 0 {
            Seq::empty()
        } else {
            placements_from(heights_of(r.messages@, area.width), 0, 0, area.y as int, area, 0)
        },
{
    let messages = get_filtered_messages_after(app_state, exclude_message_id);
    proof {
        let all = current_messages_of(*app_state);
        if messages@.len() > 0 {
            lemma_fit_suffix(all, all.len() - messages@.len());
            assert(all.skip(all.len() - messages@.len()) =~= messages@);
        }
    }
    if messages.len() == 0 {
        return HistoryLayout { messages, placements: Vec::new() };
    }
    let placements = visible_placements(area, messages.as_slice(), 0);
    HistoryLayout { messages, placements }
}

proof fn lemma_fit_prefix(msgs: Seq<Message>, n: int)
    requires
        0 <= n <= msgs.len(),
        messages_fit(msgs),
    ensures
        messages_fit(msgs.take(n)),
{
    lemma_budget_prefix(msgs, n);
}

proof fn lemma_fit_suffix(msgs: Seq<Message>, n: int)
    requires
        0 <= n <= msgs.len(),
        messages_fit(msgs),
    ensures
        messages_fit(msgs.skip(n)),
    decreases n,
{
    if n > 0 {
        crate::normal_view::lemma_budget_split(msgs);
        lemma_fit_suffix(msgs.drop_first(), n - 1);
        assert(msgs.drop_first().skip(n - 1) =~= msgs.skip(n));
    } else {
        assert(msgs.skip(0) =~= msgs);
    }
}

/// The history without the edited message, ending at the bottom of the area.
/// The whole history but the edited message, scrolled so that its end is at the bottom
/// of the area.
pub fn layout_history_excluding_message(app_state: &AppState, area: Rect, exclude_message_id: u128) -> (r:
    HistoryLayout)
    requires
        messages_fit(current_messages_of(*app_state)),
        area.y + area.height <= u16::MAX,
    ensures
        r.messages@ == messages_without(current_messages_of(*app_state), exclude_message_id),
        r.placements@ == if r.messages@.len() == 0 {
            Seq::empty()
        } else {
            placements_from(
                heights_of(r.messages@, area.width),
                0,
                0,
                area.y as int,
                area,
                if rows_of(r.messages@, area.width) > area.height {
                    rows_of(r.messages@, area.width) - area.height
                } else {
                    0
                },
            )
        },
{
    let all = app_state.current_messages();
    let mut messages: Vec<Message> = Vec::new();
    let mut i: usize = 0;
    proof {
        lemma_without_fit(all@, exclude_message_id);
    }
    while i < all.len()
        invariant
            i <= all@.len(),
            all@ == current_messages_of(*app_state),
            messages@ == messages_without(all@.take(i as int), exclude_message_id),
        decreases all.len() - i,
    {
        assert(all@.take(i as int + 1).drop_last() =~= all@.take(i as int));
        if all[i].id != exclude_message_id {
            messages.push(all[i].clone());
        }
        i = i + 1;
    }
    assert(all@.take(i as int) =~= all@);
    if messages.len() == 0 {
        return HistoryLayout { messages, placements: Vec::new() };
    }
    let scroll_offset = calculate_scroll_to_bottom(area, messages.as_slice());
    let placements = visible_placements(area, messages.as_slice(), scroll_offset);
    HistoryLayout { messages, placements }
}

proof fn lemma_without_fit(msgs: Seq<Message>, exclude: u128)
    requires
        messages_fit(msgs),
    ensures
        messages_fit(messages_without(msgs, exclude)),
    decreases msgs.len(),
{
    lemma_without_budget(msgs, exclude);
}

proof fn lemma_without_budget(msgs: Seq<Message>, exclude: u128)
    ensures
        height_budget(messages_without(msgs, exclude)) <= height_budget(msgs),
    decreases msgs.len(),
{
    if msgs.len() > 0 {
        lemma_without_budget(msgs.drop_last(), exclude);
        if msgs.last().id != exclude {
            let w = messages_without(msgs.drop_last(), exclude).push(msgs.last());
            assert(w.drop_last() =~= messages_without(msgs.drop_last(), exclude));
        }
    }
}

/// The areas of append mode: the editor at the bottom, as tall as its wrapped lines plus
/// borders (at most the area), the history above; and how many rows the editor grew
/// beyond one line.
/// Areas of the append-mode screen sized by the editor's wrapped lines, and how many rows
/// the editor has grown past its first.
#[derive(Clone, Copy, Debug, PartialEq, Eq)]
pub struct AppendAreas {
    pub history: Rect,
    pub textarea: Rect,
    pub textarea_growth: usize,
}

/// The append-mode areas for an editor holding `ls`.
/// The editor at the bottom, as tall as its wrapped lines and borders (at most the area),
/// the history above it.
pub open spec fn append_areas(area: Rect, ls: Seq<Seq<char>>) -> AppendAreas {
    let w = if area.width >= 2 {
        area.width - 2
    } else {
        0
    };
    let rows = editor_rows(ls, w as nat);
    let th = if rows + 2 < area.height {
        (rows + 2) as int
    } else {
        area.height as int
    };
    let hh = area.height - th;
    AppendAreas {
        history: Rect { x: area.x, y: area.y, width: area.width, height: hh as u16 },
        textarea: Rect { x: area.x, y: (area.y + hh) as u16, width: area.width, height: th as u16 },
        textarea_growth: if rows > 0 {
            (rows - 1) as usize
        } else {
            0
        },
    }
}

/// Splits the area for append mode given the editor's lines.
/// Splits the append-mode screen by the editor's wrapped lines.
pub fn append_mode_areas(area: Rect, lines: &[String]) -> (r: AppendAreas)
    requires
        wrappable(
            strings_view(lines@),
            if area.width >= 2 {
                (area.width - 2) as nat
            } else {
                0
            },
        ),
        lines_size(strings_view(lines@)) + 2 <= usize::MAX,
        area.y + area.height <= u16::MAX,
    ensures
        r == append_areas(area, strings_view(lines@)),
{
    let wrap_width: usize = if area.width >= 2 {
        (area.width - 2) as usize
    } else {
        0
    };
    let ghost ls = strings_view(lines@);
    let mut display_lines: usize = 0;
    let mut i: usize = 0;
    proof {
        lemma_editor_rows_bound(ls, wrap_width as nat);
    }
    while i < lines.len()
        invariant
            i <= lines@.len(),
            ls == strings_view(lines@),
            wrappable(ls, wrap_width as nat),
            editor_rows(ls, wrap_width as nat) <= lines_size(ls),
            lines_size(ls) + 2 <= usize::MAX,
            display_lines == editor_rows(ls.take(i as int), wrap_width as nat),
        decreases lines.len() - i,
    {
        assert(ls.take(i as int + 1).drop_last() =~= ls.take(i as int));
        proof {
            lemma_rows_prefix(ls, i as int + 1, wrap_width as nat);
        }
        display_lines = display_lines + calculate_line_display_height(lines[i].as_str(), wrap_width);
        i = i + 1;
    }
    assert(ls.take(i as int) =~= ls);
    let textarea_height: u16 = if display_lines + 2 < area.height as usize {
        (display_lines + 2) as u16
    } else {
        area.height
    };
    let history_height = area.height - textarea_height;
    AppendAreas {
        history: Rect { x: area.x, y: area.y, width: area.width, height: history_height },
        textarea: Rect {
            x: area.x,
            y: area.y + history_height,
            width: area.width,
            height: textarea_height,
        },
        textarea_growth: if display_lines > 0 {
            display_lines - 1
        } else {
            0
        },
    }
}

/// Rows of a message in edit mode: the editor's height for the edited message (when there
/// is an editor), else its usual height.
pub open spec fn edit_mode_height(s: AppState, m: Message, w: u16) -> int {
    if s.focused_message_id == Some(m.id) {
        match s.edit_textarea {
            Some(t) => display_height(buffer_lines(t), w),
            None => message_height(m, w) as int,
        }
    } else {
        message_height(m, w) as int
    }
}

/// Rows of the messages in edit mode.
pub open spec fn edit_mode_rows(s: AppState, msgs: Seq<Message>, w: u16) -> int
    decreases msgs.len(),
{
    if msgs.len() == 0 {
        0
    } else {
        edit_mode_rows(s, msgs.drop_last(), w) + edit_mode_height(s, msgs.last(), w)
    }
}

/// The conditions under which the edit-mode heights can be computed: the messages fit,
/// the editor's lines can be wrapped at the width, and the total fits.
pub open spec fn edit_rows_allowed(s: AppState, w: u16) -> bool {
    &&& messages_fit(current_messages_of(s))
    &&& match s.edit_textarea {
        Some(t) => wrappable(
            buffer_lines(t),
            if w >= 2 {
                (w - 2) as nat
            } else {
                0
            },
        ) && lines_size(buffer_lines(t)) + 2 <= usize::MAX,
        None => true,
    }
    &&& edit_mode_rows(s, current_messages_of(s), w) <= isize::MAX
}

proof fn lemma_edit_rows_prefix(s: AppState, msgs: Seq<Message>, i: int, w: u16)
    requires
        0 <= i <= msgs.len(),
    ensures
        0 <= edit_mode_rows(s, msgs.take(i), w) <= edit_mode_rows(s, msgs, w),
    decreases msgs.len() - i,
{
    if i < msgs.len() {
        lemma_edit_rows_prefix(s, msgs, i + 1, w);
        assert(msgs.take(i + 1).drop_last() =~= msgs.take(i));
        lemma_edit_rows_nonneg(s, msgs.take(i), w);
    } else {
        assert(msgs.take(i) =~= msgs);
        lemma_edit_rows_nonneg(s, msgs, w);
    }
}

proof fn lemma_edit_rows_nonneg(s: AppState, msgs: Seq<Message>, w: u16)
    ensures
        0 <= edit_mode_rows(s, msgs, w),
    decreases msgs.len(),
{
    if msgs.len() > 0 {
        lemma_edit_rows_nonneg(s, msgs.drop_last(), w);
    }
}

/// Rows of the branch in edit mode, the edited message as tall as the editor.
pub fn calculate_total_content_height_with_textarea(app_state: &AppState, viewport_width: u16) -> (r:
    usize)
    requires
        edit_rows_allowed(*app_state, viewport_width),
    ensures
        r == edit_mode_rows(*app_state, current_messages_of(*app_state), viewport_width),
{
    let messages = app_state.current_messages();
    let mut total_height: usize = 0;
    let mut i: usize = 0;
    while i < messages.len()
        invariant
            i <= messages@.len(),
            messages@ == current_messages_of(*app_state),
            edit_rows_allowed(*app_state, viewport_width),
            total_height == edit_mode_rows(*app_state, messages@.take(i as int), viewport_width),
        decreases messages.len() - i,
    {
        proof {
            assert(messages@.take(i as int + 1).drop_last() =~= messages@.take(i as int));
            lemma_edit_rows_prefix(*app_state, messages@, i as int + 1, viewport_width);
            lemma_budget_prefix(messages@, i as int);
        }
        let message = &messages[i];
        let h = if app_state.focused_message_id == Some(message.id) {
            match &app_state.edit_textarea {
                Some(t) => calculate_display_height(t, viewport_width) as usize,
                None => calculate_message_display_height(message, viewport_width),
            }
        } else {
            calculate_message_display_height(message, viewport_width)
        };
        total_height = total_height + h;
        i = i + 1;
    }
    assert(messages@.take(i as int) =~= messages@);
    total_height
}

/// Sets the scrollbar for edit mode, the edited message as tall as the editor.
pub fn update_scrollbar_for_edit_mode(app_state: &mut AppState, viewport_height: usize, viewport_width: u16)
    requires
        edit_rows_allowed(*old(app_state), viewport_width),
        viewport_height + edit_mode_rows(*old(app_state), current_messages_of(*old(app_state)), viewport_width)
            <= isize::MAX,
        isize::MIN <= old(app_state).scroll_offset - crate::scrolling::min_scroll(viewport_height as int)
            <= isize::MAX,
    ensures
        ({
            let t = edit_mode_rows(*old(app_state), current_messages_of(*old(app_state)), viewport_width);
            let range = crate::scrolling::scroll_range(viewport_height as int, t);
            &&& final(app_state).scrollbar_state == (crate::scrolling::ScrollbarModel {
                content_length: (if range < 1 {
                    1
                } else {
                    range
                }) as usize,
                viewport_content_length: viewport_height,
                position: crate::scrolling::scrollbar_position(
                    old(app_state).scroll_offset as int,
                    crate::scrolling::min_scroll(viewport_height as int),
                    range,
                ) as usize,
            })
            &&& (AppState { scrollbar_state: final(app_state).scrollbar_state, ..*old(app_state) })
                == *final(app_state)
        }),
{
    let total_height = calculate_total_content_height_with_textarea(app_state, viewport_width);
    app_state.scrollbar_state = crate::scrolling::update_scrollbar_state(
        app_state.scrollbar_state,
        app_state.scroll_offset,
        viewport_height,
        total_height,
    );
}

/// Takes the pending scrolling request, if any, and applies what it resolves to.
pub fn process_pending_scrolling_request(app_state: &mut AppState, viewport_height: usize, viewport_width: u16)
    requires
        match old(app_state).pending_scrolling_request {
            Some(req) => crate::focus_resolver::resolve_allowed(
                req,
                current_messages_of(*old(app_state)),
                old(app_state).scroll_offset as int,
                viewport_height as int,
                viewport_width,
            ),
            None => true,
        },
    ensures
        match old(app_state).pending_scrolling_request {
            Some(req) => match crate::focus_resolver::resolve_request(
                req,
                current_messages_of(*old(app_state)),
                old(app_state).scroll_offset as int,
                viewport_height as int,
                viewport_width,
            ) {
                Some((id, so)) => (AppState {
                    pending_scrolling_request: None,
                    focused_message_id: Some(id),
                    scroll_offset: so as isize,
                    ..*old(app_state)
                }) == *final(app_state),
                None => (AppState { pending_scrolling_request: None, ..*old(app_state) })
                    == *final(app_state),
            },
            None => *final(app_state) == *old(app_state),
        },
{
    crate::normal_view::resolve_pending_focus_request_handler(app_state, viewport_height, viewport_width);
}

} // verus!
