use vstd::prelude::*;
use tui_textarea::{CursorMove, Input, Key, TextArea};
use crate::keys::{KeyChord, KeyCode};

verus! {

/// The text being edited: a `tui_textarea::TextArea` (lines, cursor, selection, undo
/// history and yank buffer), opaque to proofs and known through the names below.
#[verifier::external_body]
pub struct TextBuffer {
    pub inner: TextArea<'static>,
}

/// A cursor move inside the edited text.
#[derive(Clone, Copy, Debug, PartialEq, Eq, Structural)]
pub enum CursorMoveKind {
    Forward,
    Back,
    Up,
    Down,
    WordForward,
    WordEnd,
    WordBack,
    ParagraphForward,
    ParagraphBack,
    End,
    Head,
    Top,
    Bottom,
}

/// The lines of the buffer.
pub uninterp spec fn buffer_lines(t: TextBuffer) -> Seq<Seq<char>>;

/// Whether a selection is ongoing in the buffer.
pub uninterp spec fn buffer_selecting(t: TextBuffer) -> bool;

/// The selected range of the buffer, start before end, when a selection is ongoing.
pub uninterp spec fn buffer_selection(t: TextBuffer) -> Option<((usize, usize), (usize, usize))>;

/// The buffer after `TextArea::delete_char`.
pub uninterp spec fn after_delete_char(t: TextBuffer) -> TextBuffer;

/// The buffer after `TextArea::delete_next_char`.
pub uninterp spec fn after_delete_next_char(t: TextBuffer) -> TextBuffer;

/// The buffer after `TextArea::insert_newline`.
pub uninterp spec fn after_insert_newline(t: TextBuffer) -> TextBuffer;

/// The buffer after `TextArea::delete_line_by_end`.
pub uninterp spec fn after_delete_line_by_end(t: TextBuffer) -> TextBuffer;

/// The buffer after `TextArea::delete_line_by_head`.
pub uninterp spec fn after_delete_line_by_head(t: TextBuffer) -> TextBuffer;

/// The buffer after `TextArea::delete_word`.
pub uninterp spec fn after_delete_word(t: TextBuffer) -> TextBuffer;

/// The buffer after `TextArea::delete_next_word`.
pub uninterp spec fn after_delete_next_word(t: TextBuffer) -> TextBuffer;

/// The buffer after `TextArea::undo`.
pub uninterp spec fn after_undo(t: TextBuffer) -> TextBuffer;

/// The buffer after `TextArea::redo`.
pub uninterp spec fn after_redo(t: TextBuffer) -> TextBuffer;

/// The buffer after `TextArea::copy`.
pub uninterp spec fn after_copy(t: TextBuffer) -> TextBuffer;

/// The buffer after `TextArea::cut`.
pub uninterp spec fn after_cut(t: TextBuffer) -> TextBuffer;

/// The buffer after `TextArea::paste`.
pub uninterp spec fn after_paste(t: TextBuffer) -> TextBuffer;

/// The buffer after `TextArea::select_all`.
pub uninterp spec fn after_select_all(t: TextBuffer) -> TextBuffer;

/// The buffer after `TextArea::move_cursor`.
pub uninterp spec fn after_move_cursor(t: TextBuffer, m: CursorMoveKind) -> TextBuffer;

/// The buffer after `TextArea::start_selection`.
pub uninterp spec fn after_start_selection(t: TextBuffer) -> TextBuffer;

/// The buffer after `TextArea::cancel_selection`.
pub uninterp spec fn after_cancel_selection(t: TextBuffer) -> TextBuffer;

/// The buffer after `TextArea::insert_str`.
pub uninterp spec fn after_insert_str(t: TextBuffer, s: Seq<char>) -> TextBuffer;

/// The buffer after `TextArea::input` of a key press.
pub uninterp spec fn after_input(t: TextBuffer, key: KeyChord) -> TextBuffer;

/// The cursor stands at the start of the text: the buffer is one whose cursor went to
/// the top line, then to its head.
pub open spec fn at_text_start(t: TextBuffer) -> bool {
    exists|t0: TextBuffer|
        #[trigger] after_move_cursor(after_move_cursor(t0, CursorMoveKind::Top), CursorMoveKind::Head)
            == t
}

/// The cursor stands at the end of the text: the buffer is one whose cursor went to the
/// bottom line, then to its end.
pub open spec fn at_text_end(t: TextBuffer) -> bool {
    exists|t0: TextBuffer|
        #[trigger] after_move_cursor(after_move_cursor(t0, CursorMoveKind::Bottom), CursorMoveKind::End)
            == t
}

/// `after` is `before` with a non-empty tail cut off its last line, every other line kept.
pub open spec fn last_line_tail_cut(before: Seq<Seq<char>>, after: Seq<Seq<char>>) -> bool {
    &&& before.len() > 0
    &&& after.len() == before.len()
    &&& forall|i: int| 0 <= i < before.len() - 1 ==> #[trigger] after[i] == before[i]
    &&& after.last().len() < before.last().len()
    &&& after.last() == before.last().subrange(0, after.last().len() as int)
}

/// `after` is `before` with a non-empty head cut off its first line, every other line kept.
pub open spec fn first_line_head_cut(before: Seq<Seq<char>>, after: Seq<Seq<char>>) -> bool {
    &&& before.len() > 0
    &&& after.len() == before.len()
    &&& forall|i: int| 1 <= i < before.len() ==> #[trigger] after[i] == before[i]
    &&& after[0].len() < before[0].len()
    &&& after[0] == before[0].subrange(before[0].len() - after[0].len(), before[0].len() as int)
}

/// What deleting the word before the cursor does at the two ends of an unselected text:
/// nothing at its start; at its end, with a non-empty last line, it cuts a non-empty tail
/// off that line.
pub open spec fn deletes_word_before_cursor(t: TextBuffer, u: TextBuffer) -> bool {
    &&& (!buffer_selecting(t) && at_text_start(t) ==> buffer_lines(u) == buffer_lines(t))
    &&& (!buffer_selecting(t) && at_text_end(t) && buffer_lines(t).len() > 0
        && buffer_lines(t).last().len() > 0 ==> last_line_tail_cut(buffer_lines(t), buffer_lines(u)))
}

/// What deleting the word after the cursor does at the two ends of an unselected text:
/// nothing at its end; at its start, with a non-empty first line, it cuts a non-empty head
/// off that line.
pub open spec fn deletes_word_after_cursor(t: TextBuffer, u: TextBuffer) -> bool {
    &&& (!buffer_selecting(t) && at_text_end(t) ==> buffer_lines(u) == buffer_lines(t))
    &&& (!buffer_selecting(t) && at_text_start(t) && buffer_lines(t).len() > 0
        && buffer_lines(t)[0].len() > 0 ==> first_line_head_cut(buffer_lines(t), buffer_lines(u)))
}

/// `tui_textarea::CursorMove`, carried through unopened.
#[verifier::external_type_specification]
#[verifier::external_body]
pub struct ExCursorMove(CursorMove);

/// `tui_textarea::Key`, carried through unopened.
#[verifier::external_type_specification]
#[verifier::external_body]
pub struct ExKey(Key);

/// The `tui_textarea` cursor move of the same name.
#[verifier::external_body]
fn tui_move(m: CursorMoveKind) -> CursorMove {
    match m {
        CursorMoveKind::Forward => CursorMove::Forward,
        CursorMoveKind::Back => CursorMove::Back,
        CursorMoveKind::Up => CursorMove::Up,
        CursorMoveKind::Down => CursorMove::Down,
        CursorMoveKind::WordForward => CursorMove::WordForward,
        CursorMoveKind::WordEnd => CursorMove::WordEnd,
        CursorMoveKind::WordBack => CursorMove::WordBack,
        CursorMoveKind::ParagraphForward => CursorMove::ParagraphForward,
        CursorMoveKind::ParagraphBack => CursorMove::ParagraphBack,
        CursorMoveKind::End => CursorMove::End,
        CursorMoveKind::Head => CursorMove::Head,
        CursorMoveKind::Top => CursorMove::Top,
        CursorMoveKind::Bottom => CursorMove::Bottom,
    }
}

/// The `tui_textarea` key of the same name; keys it lacks become `Key::Null`.
#[verifier::external_body]
fn tui_key(k: KeyCode) -> Key {
    match k {
        KeyCode::Backspace => Key::Backspace, KeyCode::Enter => Key::Enter,
        KeyCode::Left => Key::Left, KeyCode::Right => Key::Right,
        KeyCode::Up => Key::Up, KeyCode::Down => Key::Down,
        KeyCode::Home => Key::Home, KeyCode::End => Key::End,
        KeyCode::PageUp => Key::PageUp, KeyCode::PageDown => Key::PageDown,
        KeyCode::Tab => Key::Tab, KeyCode::Delete => Key::Delete,
        KeyCode::Esc => Key::Esc, KeyCode::F(n) => Key::F(n),
        KeyCode::Char(c) => Key::Char(c), KeyCode::Other => Key::Null,
    }
}

impl TextBuffer {
    /// `TextArea::default`: one empty line, no selection.
    #[verifier::external_body]
    pub(crate) fn new() -> (r: TextBuffer)
        ensures
            buffer_lines(r) == seq![Seq::<char>::empty()],
            !buffer_selecting(r),
    {
        TextBuffer { inner: TextArea::default() }
    }

    /// `TextArea::from` one empty line: one empty line, no selection.
    #[verifier::external_body]
    pub(crate) fn with_empty_line() -> (r: TextBuffer)
        ensures
            buffer_lines(r) == seq![Seq::<char>::empty()],
            !buffer_selecting(r),
    {
        TextBuffer { inner: TextArea::from(vec![""]) }
    }

    /// `TextArea::lines`: the lines of the text.
    #[verifier::external_body]
    pub(crate) fn lines(&self) -> (r: &[String])
        ensures
            r@.len() == buffer_lines(*self).len(),
            forall|i: int| 0 <= i < r@.len() ==> #[trigger] r@[i]@ == buffer_lines(*self)[i],
    {
        self.inner.lines()
    }

    /// `TextArea::is_selecting`: whether a selection start is recorded.
    #[verifier::external_body]
    pub(crate) fn is_selecting(&self) -> (r: bool)
        ensures
            r == buffer_selecting(*self),
    {
        self.inner.is_selecting()
    }

    /// `TextArea::selection_range`: the selected range, start first, when selecting.
    #[verifier::external_body]
    pub(crate) fn selection_range(&self) -> (r: Option<((usize, usize), (usize, usize))>)
        ensures
            r == buffer_selection(*self),
            r is Some == buffer_selecting(*self),
    {
        self.inner.selection_range()
    }

    /// `TextArea::start_selection`: records the cursor as selection start; text unchanged.
    #[verifier::external_body]
    pub(crate) fn start_selection(&mut self)
        ensures
            *final(self) == after_start_selection(*old(self)),
            buffer_selecting(*final(self)),
            buffer_lines(*final(self)) == buffer_lines(*old(self)),
    {
        self.inner.start_selection()
    }

    /// `TextArea::cancel_selection`: forgets the selection start; text unchanged.
    #[verifier::external_body]
    pub(crate) fn cancel_selection(&mut self)
        ensures
            *final(self) == after_cancel_selection(*old(self)),
            !buffer_selecting(*final(self)),
            buffer_lines(*final(self)) == buffer_lines(*old(self)),
    {
        self.inner.cancel_selection()
    }

    /// `TextArea::move_cursor`: moves the cursor; text and selection state unchanged.
    #[verifier::external_body]
    pub(crate) fn move_cursor(&mut self, m: CursorMoveKind)
        ensures
            *final(self) == after_move_cursor(*old(self), m),
            buffer_selecting(*final(self)) == buffer_selecting(*old(self)),
            buffer_lines(*final(self)) == buffer_lines(*old(self)),
    {
        self.inner.move_cursor(tui_move(m))
    }

    /// `TextArea::delete_char`.
    #[verifier::external_body]
    pub(crate) fn delete_char(&mut self)
        ensures
            *final(self) == after_delete_char(*old(self)),
    {
        self.inner.delete_char();
    }

    /// `TextArea::delete_next_char`.
    #[verifier::external_body]
    pub(crate) fn delete_next_char(&mut self)
        ensures
            *final(self) == after_delete_next_char(*old(self)),
    {
        self.inner.delete_next_char();
    }

    /// `TextArea::insert_newline`.
    #[verifier::external_body]
    pub(crate) fn insert_newline(&mut self)
        ensures
            *final(self) == after_insert_newline(*old(self)),
    {
        self.inner.insert_newline();
    }

    /// `TextArea::delete_line_by_end`.
    #[verifier::external_body]
    pub(crate) fn delete_line_by_end(&mut self)
        ensures
            *final(self) == after_delete_line_by_end(*old(self)),
    {
        self.inner.delete_line_by_end();
    }

    /// `TextArea::delete_line_by_head`.
    #[verifier::external_body]
    pub(crate) fn delete_line_by_head(&mut self)
        ensures
            *final(self) == after_delete_line_by_head(*old(self)),
    {
        self.inner.delete_line_by_head();
    }

    /// `TextArea::delete_word`. With no selection, the cursor at the start of the text
    /// finds no word before it and no line above, so the text stays; at the end of the
    /// text the word (or the run of spaces and the word) before the cursor is drained from
    /// its column to the end of the last line. What it does elsewhere is not stated.
    #[verifier::external_body]
    pub(crate) fn delete_word(&mut self)
        ensures
            *final(self) == after_delete_word(*old(self)),
            deletes_word_before_cursor(*old(self), *final(self)),
    {
        self.inner.delete_word();
    }

    /// `TextArea::delete_next_word`. With no selection, the cursor at the end of the text
    /// finds nothing after it and no line below, so the text stays; at the start of the
    /// text the word after the cursor is drained from the head of the first line. What it
    /// does elsewhere is not stated.
    #[verifier::external_body]
    pub(crate) fn delete_next_word(&mut self)
        ensures
            *final(self) == after_delete_next_word(*old(self)),
            deletes_word_after_cursor(*old(self), *final(self)),
    {
        self.inner.delete_next_word();
    }

    /// `TextArea::undo`.
    #[verifier::external_body]
    pub(crate) fn undo(&mut self)
        ensures
            *final(self) == after_undo(*old(self)),
    {
        self.inner.undo();
    }

    /// `TextArea::redo`.
    #[verifier::external_body]
    pub(crate) fn redo(&mut self)
        ensures
            *final(self) == after_redo(*old(self)),
    {
        self.inner.redo();
    }

    /// `TextArea::copy`: copies the selection into the yank buffer; the text is unchanged.
    #[verifier::external_body]
    pub(crate) fn copy(&mut self)
        ensures
            *final(self) == after_copy(*old(self)),
            buffer_lines(*final(self)) == buffer_lines(*old(self)),
    {
        self.inner.copy();
    }

    /// `TextArea::cut`.
    #[verifier::external_body]
    pub(crate) fn cut(&mut self)
        ensures
            *final(self) == after_cut(*old(self)),
    {
        self.inner.cut();
    }

    /// `TextArea::paste`: inserts the yank buffer.
    #[verifier::external_body]
    pub(crate) fn paste(&mut self)
        ensures
            *final(self) == after_paste(*old(self)),
    {
        self.inner.paste();
    }

    /// `TextArea::select_all`: selects the whole text; the text is unchanged.
    #[verifier::external_body]
    pub(crate) fn select_all(&mut self)
        ensures
            *final(self) == after_select_all(*old(self)),
            buffer_selecting(*final(self)),
            buffer_lines(*final(self)) == buffer_lines(*old(self)),
    {
        self.inner.select_all();
    }

    /// `TextArea::insert_str`.
    #[verifier::external_body]
    pub(crate) fn insert_str(&mut self, s: &str)
        ensures
            *final(self) == after_insert_str(*old(self), s@),
    {
        self.inner.insert_str(s);
    }

    /// `TextArea::input` of a key press.
    #[verifier::external_body]
    pub(crate) fn input(&mut self, key: KeyChord)
        ensures
            *final(self) == after_input(*old(self), key),
    {
        self.inner.input(Input { key: tui_key(key.key), ctrl: key.modifiers.control, alt: key.modifiers.alt, shift: key.modifiers.shift });
    }
}

} // verus!
