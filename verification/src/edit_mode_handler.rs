use vstd::prelude::*;
use crate::actions::EditModeAction;
use crate::dialogue_service::{delete_outcome, old_content_of, DialogueCommand, DialogueService};
use crate::editor::{
    after_cancel_selection, after_copy, after_cut, after_delete_char, after_delete_line_by_end,
    after_delete_line_by_head, after_delete_next_char, after_delete_next_word, after_delete_word,
    after_input, after_insert_newline, after_insert_str, after_move_cursor, after_paste, after_redo,
    after_select_all, after_start_selection, after_undo, buffer_lines, buffer_selecting,
    buffer_selection, deletes_word_after_cursor, deletes_word_before_cursor, CursorMoveKind,
    TextBuffer,
};
use crate::focus_resolver::ScrollingRequest;
use crate::keys::KeyChord;
use crate::mode::Mode;
use crate::normal_mode_handler::with_error;
use crate::reducer::{DialogueRequest, Effect, Followup};
use crate::selection::{build_selected_text, selected_text};
use crate::state::{append_mode_of, AppState};
use crate::text::{join_lines, joined_lines, owned, push_str, string_from_chars, trim_chars, trimmed};

verus! {

/// An operation on the text being edited.
#[derive(Debug)]
pub enum TextOp {
    DeleteChar,
    DeleteNextChar,
    InsertNewline,
    DeleteLineByEnd,
    DeleteLineByHead,
    DeleteLine,
    DeleteWord,
    DeleteNextWord,
    Undo,
    Redo,
    SelectAll,
    Copy,
    Cut,
    Paste,
    InsertStr(String),
    Move(CursorMoveKind),
    Select(CursorMoveKind),
}

/// The text after an operation. A cursor move first drops an ongoing selection; a
/// selecting move first starts one where none is ongoing; deleting a line goes to its
/// head, deletes to its end, then joins the next line.
pub open spec fn apply_text_op(t: TextBuffer, op: TextOp) -> TextBuffer {
    match op {
        TextOp::DeleteChar => after_delete_char(t),
        TextOp::DeleteNextChar => after_delete_next_char(t),
        TextOp::InsertNewline => after_insert_newline(t),
        TextOp::DeleteLineByEnd => after_delete_line_by_end(t),
        TextOp::DeleteLineByHead => after_delete_line_by_head(t),
        TextOp::DeleteLine => after_delete_next_char(
            after_delete_line_by_end(after_move_cursor(t, CursorMoveKind::Head)),
        ),
        TextOp::DeleteWord => after_delete_word(t),
        TextOp::DeleteNextWord => after_delete_next_word(t),
        TextOp::Undo => after_undo(t),
        TextOp::Redo => after_redo(t),
        TextOp::SelectAll => after_select_all(t),
        TextOp::Copy => after_copy(t),
        TextOp::Cut => after_cut(t),
        TextOp::Paste => after_paste(t),
        TextOp::InsertStr(s) => after_insert_str(t, s@),
        TextOp::Move(m) => after_move_cursor(
            if buffer_selecting(t) {
                after_cancel_selection(t)
            } else {
                t
            },
            m,
        ),
        TextOp::Select(m) => after_move_cursor(
            if buffer_selecting(t) {
                t
            } else {
                after_start_selection(t)
            },
            m,
        ),
    }
}

/// The state after `op` on the text being edited; without one, the error saying so.
pub open spec fn text_op_done(s: AppState, f: AppState, op: TextOp) -> bool {
    match s.edit_textarea {
        Some(t) => (AppState { edit_textarea: Some(apply_text_op(t, op)), ..s }) == f,
        None => with_error(s, f, "No textarea available"@),
    }
}

/// Deleting a word before the cursor, and after it, does at the two ends of the text
/// what each does there: the one cuts the last line at the end and keeps the text at the
/// start, the other cuts the first line at the start and keeps the text at the end.
pub open spec fn word_deletion_done(s: AppState, f: AppState, op: TextOp) -> bool {
    match (s.edit_textarea, f.edit_textarea) {
        (Some(t), Some(u)) => match op {
            TextOp::DeleteWord => deletes_word_before_cursor(t, u),
            TextOp::DeleteNextWord => deletes_word_after_cursor(t, u),
            _ => true,
        },
        _ => true,
    }
}

/// Applies `op` to the text being edited; says, and reports, when there is none.
pub fn with_textarea(state: &mut AppState, op: TextOp) -> (r: bool)
    ensures
        r == old(state).edit_textarea is Some,
        text_op_done(*old(state), *final(state), op),
        word_deletion_done(*old(state), *final(state), op),
{
    let mut textarea = match state.edit_textarea.take() {
        Some(t) => t,
        None => {
            state.error_message = Some(owned("No textarea available"));
            return false;
        },
    };
    match op {
        TextOp::DeleteChar => textarea.delete_char(),
        TextOp::DeleteNextChar => textarea.delete_next_char(),
        TextOp::InsertNewline => textarea.insert_newline(),
        TextOp::DeleteLineByEnd => textarea.delete_line_by_end(),
        TextOp::DeleteLineByHead => textarea.delete_line_by_head(),
        TextOp::DeleteLine => {
            textarea.move_cursor(CursorMoveKind::Head);
            textarea.delete_line_by_end();
            textarea.delete_next_char();
        },
        TextOp::DeleteWord => textarea.delete_word(),
        TextOp::DeleteNextWord => textarea.delete_next_word(),
        TextOp::Undo => textarea.undo(),
        TextOp::Redo => textarea.redo(),
        TextOp::SelectAll => textarea.select_all(),
        TextOp::Copy => textarea.copy(),
        TextOp::Cut => textarea.cut(),
        TextOp::Paste => textarea.paste(),
        TextOp::InsertStr(s) => textarea.insert_str(s.as_str()),
        TextOp::Move(m) => {
            if textarea.is_selecting() {
                textarea.cancel_selection();
            }
            textarea.move_cursor(m);
        },
        TextOp::Select(m) => {
            if !textarea.is_selecting() {
                textarea.start_selection();
            }
            textarea.move_cursor(m);
        },
    }
    state.edit_textarea = Some(textarea);
    true
}

/// Applies `op` to the text being edited, or reports that there is none.
pub fn textarea_operation(state: &mut AppState, op: TextOp)
    ensures
        text_op_done(*old(state), *final(state), op),
        word_deletion_done(*old(state), *final(state), op),
{
    with_textarea(state, op);
}

/// Moves the cursor, dropping an ongoing selection.
pub fn move_cursor(state: &mut AppState, cursor_move: CursorMoveKind)
    ensures
        text_op_done(*old(state), *final(state), TextOp::Move(cursor_move)),
{
    with_textarea(state, TextOp::Move(cursor_move));
}

/// Moves the cursor, extending the selection (started here when none is ongoing).
pub fn select_with_cursor_move(state: &mut AppState, cursor_move: CursorMoveKind)
    ensures
        text_op_done(*old(state), *final(state), TextOp::Select(cursor_move)),
{
    with_textarea(state, TextOp::Select(cursor_move));
}

/// Types a key into the text being edited, when there is one.
pub fn handle_edit_mode_raw_input(state: &mut AppState, key: KeyChord)
    ensures
        match old(state).edit_textarea {
            Some(t) => (AppState { edit_textarea: Some(after_input(t, key)), ..*old(state) })
                == *final(state),
            None => *final(state) == *old(state),
        },
{
    if let Some(mut textarea) = state.edit_textarea.take() {
        textarea.input(key);
        state.edit_textarea = Some(textarea);
    }
}

/// Deletes the character before the cursor.
pub fn handle_delete_char(state: &mut AppState)
    ensures
        text_op_done(*old(state), *final(state), TextOp::DeleteChar),
{
    textarea_operation(state, TextOp::DeleteChar);
}

/// Deletes the character under the cursor.
pub fn handle_delete_next_char(state: &mut AppState)
    ensures
        text_op_done(*old(state), *final(state), TextOp::DeleteNextChar),
{
    textarea_operation(state, TextOp::DeleteNextChar);
}

/// Breaks the line at the cursor.
pub fn handle_insert_newline(state: &mut AppState)
    ensures
        text_op_done(*old(state), *final(state), TextOp::InsertNewline),
{
    textarea_operation(state, TextOp::InsertNewline);
}

/// Deletes from the cursor to the end of the line.
pub fn handle_delete_line_by_end(state: &mut AppState)
    ensures
        text_op_done(*old(state), *final(state), TextOp::DeleteLineByEnd),
{
    textarea_operation(state, TextOp::DeleteLineByEnd);
}

/// Deletes from the head of the line to the cursor.
pub fn handle_delete_line_by_head(state: &mut AppState)
    ensures
        text_op_done(*old(state), *final(state), TextOp::DeleteLineByHead),
{
    textarea_operation(state, TextOp::DeleteLineByHead);
}

/// Deletes the whole line the cursor is on.
pub fn handle_delete_line(state: &mut AppState)
    ensures
        text_op_done(*old(state), *final(state), TextOp::DeleteLine),
{
    textarea_operation(state, TextOp::DeleteLine);
}

/// Deletes the word before the cursor.
pub fn handle_delete_word(state: &mut AppState)
    ensures
        text_op_done(*old(state), *final(state), TextOp::DeleteWord),
        word_deletion_done(*old(state), *final(state), TextOp::DeleteWord),
{
    textarea_operation(state, TextOp::DeleteWord);
}

/// Deletes the word after the cursor.
pub fn handle_delete_next_word(state: &mut AppState)
    ensures
        text_op_done(*old(state), *final(state), TextOp::DeleteNextWord),
        word_deletion_done(*old(state), *final(state), TextOp::DeleteNextWord),
{
    textarea_operation(state, TextOp::DeleteNextWord);
}

/// Undoes the last change to the text.
pub fn handle_undo(state: &mut AppState)
    ensures
        text_op_done(*old(state), *final(state), TextOp::Undo),
{
    textarea_operation(state, TextOp::Undo);
}

/// Redoes the last undone change to the text.
pub fn handle_redo(state: &mut AppState)
    ensures
        text_op_done(*old(state), *final(state), TextOp::Redo),
{
    textarea_operation(state, TextOp::Redo);
}

/// Selects the whole text.
pub fn handle_select_all(state: &mut AppState)
    ensures
        text_op_done(*old(state), *final(state), TextOp::SelectAll),
{
    textarea_operation(state, TextOp::SelectAll);
}

/// Copying or cutting the selection.
#[derive(Clone, Copy, Debug, PartialEq, Eq, Structural)]
pub enum ClipboardOperation {
    Copy,
    Cut,
}

impl ClipboardOperation {
    /// The operation's name in messages.
    pub fn name(&self) -> (r: &'static str)
        ensures
            r@ == clipboard_name(*self),
    {
        match self {
            ClipboardOperation::Copy => "copy",
            ClipboardOperation::Cut => "cut",
        }
    }

    /// Carries the operation out on the editor.
    pub fn execute(&self, textarea: &mut TextBuffer)
        ensures
            *final(textarea) == apply_text_op(*old(textarea), self.text_op()),
    {
        match self {
            ClipboardOperation::Copy => textarea.copy(),
            ClipboardOperation::Cut => textarea.cut(),
        }
    }

    /// The text operation that carries it out on the editor.
    pub open spec fn text_op(self) -> TextOp {
        match self {
            ClipboardOperation::Copy => TextOp::Copy,
            ClipboardOperation::Cut => TextOp::Cut,
        }
    }
}

/// The name of a clipboard operation in messages.
pub open spec fn clipboard_name(op: ClipboardOperation) -> Seq<char> {
    match op {
        ClipboardOperation::Copy => "copy"@,
        ClipboardOperation::Cut => "cut"@,
    }
}

/// The selected text of the editor, when a selection is ongoing.
pub open spec fn selection_text_of(t: TextBuffer) -> Option<Seq<char>> {
    match buffer_selection(t) {
        Some(range) => Some(selected_text(buffer_lines(t), range)),
        None => None,
    }
}

/// The text of the editor's selection, when there is one.
fn extract_selected_text(textarea: &TextBuffer) -> (r: Option<String>)
    ensures
        match selection_text_of(*textarea) {
            Some(s) => r matches Some(x) && x@ == s,
            None => r is None,
        },
{
    match textarea.selection_range() {
        Some(range) => {
            let lines = textarea.lines();
            assert(Seq::new(lines@.len(), |i: int| lines@[i]@) =~= buffer_lines(*textarea));
            Some(build_selected_text(lines, range))
        },
        None => None,
    }
}

/// Copies or cuts the selection in the editor; the selected text, when there was one,
/// comes back to be put on the desktop clipboard.
pub fn clipboard_operation(state: &mut AppState, operation: ClipboardOperation) -> (r: Option<
    String,
>)
    ensures
        text_op_done(*old(state), *final(state), operation.text_op()),
        match old(state).edit_textarea {
            Some(t) => match selection_text_of(t) {
                Some(s) => r matches Some(x) && x@ == s,
                None => r is None,
            },
            None => r is None,
        },
{
    let selected = match &state.edit_textarea {
        Some(t) => extract_selected_text(t),
        None => None,
    };
    let op = match operation {
        ClipboardOperation::Copy => TextOp::Copy,
        ClipboardOperation::Cut => TextOp::Cut,
    };
    with_textarea(state, op);
    selected
}

/// Copies the selection; its text comes back for the desktop clipboard.
pub fn handle_copy(state: &mut AppState) -> (r: Option<String>)
    ensures
        text_op_done(*old(state), *final(state), TextOp::Copy),
        match old(state).edit_textarea {
            Some(t) => match selection_text_of(t) {
                Some(s) => r matches Some(x) && x@ == s,
                None => r is None,
            },
            None => r is None,
        },
{
    clipboard_operation(state, ClipboardOperation::Copy)
}

/// Cuts the selection; its text comes back for the desktop clipboard.
pub fn handle_cut(state: &mut AppState) -> (r: Option<String>)
    ensures
        text_op_done(*old(state), *final(state), TextOp::Cut),
        match old(state).edit_textarea {
            Some(t) => match selection_text_of(t) {
                Some(s) => r matches Some(x) && x@ == s,
                None => r is None,
            },
            None => r is None,
        },
{
    clipboard_operation(state, ClipboardOperation::Cut)
}

/// Reports that putting the text on the desktop clipboard failed.
pub fn report_clipboard_failure(state: &mut AppState, operation: ClipboardOperation, error: &str)
    ensures
        with_error(
            *old(state),
            *final(state),
            "Failed to "@ + clipboard_name(operation) + " to clipboard: "@ + error@,
        ),
{
    let mut message = owned("Failed to ");
    push_str(&mut message, operation.name());
    push_str(&mut message, " to clipboard: ");
    push_str(&mut message, error);
    state.error_message = Some(message);
}

/// Pastes the desktop clipboard's text when it could be read and is not empty, else the
/// editor's own yank buffer.
pub fn handle_paste(state: &mut AppState, desktop: Option<String>)
    ensures
        match desktop {
            Some(text) => if text@.len() > 0 {
                text_op_done(*old(state), *final(state), TextOp::InsertStr(text))
            } else {
                text_op_done(*old(state), *final(state), TextOp::Paste)
            },
            None => text_op_done(*old(state), *final(state), TextOp::Paste),
        },
{
    match desktop {
        Some(text) => {
            if !text.as_str().is_empty() {
                textarea_operation(state, TextOp::InsertStr(text));
            } else {
                textarea_operation(state, TextOp::Paste);
            }
        },
        None => textarea_operation(state, TextOp::Paste),
    }
}

/// The selecting cursor move, or the plain one, of an action.
pub open spec fn action_text_op(action: EditModeAction) -> Option<TextOp> {
    match action {
        EditModeAction::DeleteChar => Some(TextOp::DeleteChar),
        EditModeAction::DeleteNextChar => Some(TextOp::DeleteNextChar),
        EditModeAction::InsertNewline => Some(TextOp::InsertNewline),
        EditModeAction::DeleteLineByEnd => Some(TextOp::DeleteLineByEnd),
        EditModeAction::DeleteLineByHead => Some(TextOp::DeleteLineByHead),
        EditModeAction::DeleteWord => Some(TextOp::DeleteWord),
        EditModeAction::DeleteNextWord => Some(TextOp::DeleteNextWord),
        EditModeAction::Undo => Some(TextOp::Undo),
        EditModeAction::Redo => Some(TextOp::Redo),
        EditModeAction::SelectAll => Some(TextOp::SelectAll),
        EditModeAction::SelectForward => Some(TextOp::Select(CursorMoveKind::Forward)),
        EditModeAction::SelectBack => Some(TextOp::Select(CursorMoveKind::Back)),
        EditModeAction::SelectUp => Some(TextOp::Select(CursorMoveKind::Up)),
        EditModeAction::SelectDown => Some(TextOp::Select(CursorMoveKind::Down)),
        EditModeAction::SelectWordForward => Some(TextOp::Select(CursorMoveKind::WordForward)),
        EditModeAction::SelectWordBack => Some(TextOp::Select(CursorMoveKind::WordBack)),
        EditModeAction::SelectToEnd => Some(TextOp::Select(CursorMoveKind::End)),
        EditModeAction::SelectToHead => Some(TextOp::Select(CursorMoveKind::Head)),
        EditModeAction::MoveCursorForward => Some(TextOp::Move(CursorMoveKind::Forward)),
        EditModeAction::MoveCursorBack => Some(TextOp::Move(CursorMoveKind::Back)),
        EditModeAction::MoveCursorUp => Some(TextOp::Move(CursorMoveKind::Up)),
        EditModeAction::MoveCursorDown => Some(TextOp::Move(CursorMoveKind::Down)),
        EditModeAction::MoveCursorWordForward => Some(TextOp::Move(CursorMoveKind::WordForward)),
        EditModeAction::MoveCursorWordEnd => Some(TextOp::Move(CursorMoveKind::WordEnd)),
        EditModeAction::MoveCursorWordBack => Some(TextOp::Move(CursorMoveKind::WordBack)),
        EditModeAction::MoveCursorParagraphForward => Some(
            TextOp::Move(CursorMoveKind::ParagraphForward),
        ),
        EditModeAction::MoveCursorParagraphBack => Some(TextOp::Move(CursorMoveKind::ParagraphBack)),
        EditModeAction::MoveCursorEnd => Some(TextOp::Move(CursorMoveKind::End)),
        EditModeAction::MoveCursorHead => Some(TextOp::Move(CursorMoveKind::Head)),
        EditModeAction::MoveCursorTop => Some(TextOp::Move(CursorMoveKind::Top)),
        EditModeAction::MoveCursorBottom => Some(TextOp::Move(CursorMoveKind::Bottom)),
        _ => None,
    }
}

/// Cursor moves and selections by action.
fn move_or_select(state: &mut AppState, action: EditModeAction) -> (handled: bool)
    ensures
        match action_text_op(action) {
            Some(op) => handled && (op is Move || op is Select) ==> text_op_done(
                *old(state),
                *final(state),
                op,
            ),
            None => !handled && *final(state) == *old(state),
        },
        handled == (action_text_op(action) matches Some(op) && (op is Move || op is Select)),
        !handled ==> *final(state) == *old(state),
{
    let m = match action {
        EditModeAction::SelectForward => (CursorMoveKind::Forward, true),
        EditModeAction::SelectBack => (CursorMoveKind::Back, true),
        EditModeAction::SelectUp => (CursorMoveKind::Up, true),
        EditModeAction::SelectDown => (CursorMoveKind::Down, true),
        EditModeAction::SelectWordForward => (CursorMoveKind::WordForward, true),
        EditModeAction::SelectWordBack => (CursorMoveKind::WordBack, true),
        EditModeAction::SelectToEnd => (CursorMoveKind::End, true),
        EditModeAction::SelectToHead => (CursorMoveKind::Head, true),
        EditModeAction::MoveCursorForward => (CursorMoveKind::Forward, false),
        EditModeAction::MoveCursorBack => (CursorMoveKind::Back, false),
        EditModeAction::MoveCursorUp => (CursorMoveKind::Up, false),
        EditModeAction::MoveCursorDown => (CursorMoveKind::Down, false),
        EditModeAction::MoveCursorWordForward => (CursorMoveKind::WordForward, false),
        EditModeAction::MoveCursorWordEnd => (CursorMoveKind::WordEnd, false),
        EditModeAction::MoveCursorWordBack => (CursorMoveKind::WordBack, false),
        EditModeAction::MoveCursorParagraphForward => (CursorMoveKind::ParagraphForward, false),
        EditModeAction::MoveCursorParagraphBack => (CursorMoveKind::ParagraphBack, false),
        EditModeAction::MoveCursorEnd => (CursorMoveKind::End, false),
        EditModeAction::MoveCursorHead => (CursorMoveKind::Head, false),
        EditModeAction::MoveCursorTop => (CursorMoveKind::Top, false),
        EditModeAction::MoveCursorBottom => (CursorMoveKind::Bottom, false),
        _ => return false,
    };
    if m.1 {
        select_with_cursor_move(state, m.0);
    } else {
        move_cursor(state, m.0);
    }
    true
}

/// The content an edit leaves: the lines joined by line breaks, trimmed.
pub open spec fn edited_content(t: TextBuffer) -> Seq<char> {
    trimmed(joined_lines(buffer_lines(t)))
}

/// What leaving the editor asks of the dialogue engine, when there is an edited message
/// in a branch: deleting the message when the content is empty, else saving it; or the
/// reason the deletion cannot be asked for.
pub open spec fn exit_request(s: AppState) -> Option<Result<DialogueRequest, Seq<char>>> {
    match (s.edit_textarea, s.focused_message_id, s.current_branch_id) {
        (Some(t), Some(mid), Some(bid)) => if edited_content(t).len() == 0 {
            match delete_outcome(s.dialogue, mid, bid) {
                Ok((i, m)) => Some(
                    Ok(
                        DialogueRequest {
                            command: DialogueCommand::DeleteMessage {
                                message_id: mid,
                                branch_id: bid,
                                message_index: i as usize,
                                deleted_message: m,
                            },
                            followup: Followup::ExitEditDelete {
                                message_id: mid,
                                is_append_mode: append_mode_of(s),
                            },
                        },
                    ),
                ),
                Err(e) => Some(Err("Failed to delete message: "@ + e)),
            }
        } else {
            None
        },
        _ => None,
    }
}

/// Whether `r` asks to save the edited content as the message's new content.
pub open spec fn is_save_request(s: AppState, r: DialogueRequest) -> bool {
    match (s.edit_textarea, s.focused_message_id, s.current_branch_id) {
        (Some(t), Some(mid), Some(_)) => {
            &&& edited_content(t).len() > 0
            &&& r.followup == (Followup::ExitEditUpdate {
                message_id: mid,
                is_append_mode: append_mode_of(s),
            })
            &&& r.command matches DialogueCommand::EditMessage {
            message_id,
            old_content,
            new_content,
        } && message_id == mid && old_content@ == old_content_of(s.dialogue, mid) && new_content@
            == edited_content(t)
        },
        _ => false,
    }
}

/// The state back in normal mode, error and editor gone, asking to focus the last message
/// after appending, else the focused one.
pub open spec fn left_editor(s: AppState, is_append_mode: bool) -> AppState {
    AppState {
        mode: Mode::Normal,
        error_message: None,
        edit_textarea: None,
        pending_scrolling_request: if is_append_mode {
            Some(ScrollingRequest::ScrollToLastMessage)
        } else {
            match s.focused_message_id {
                Some(id) => Some(ScrollingRequest::ScrollToMessage(id)),
                None => None,
            }
        },
        ..s
    }
}

/// Back to normal mode, error and editor gone.
pub fn reset_edit_state(state: &mut AppState)
    ensures
        (AppState {
            mode: Mode::Normal,
            error_message: None,
            edit_textarea: None,
            ..*old(state)
        }) == *final(state),
{
    state.mode = Mode::Normal;
    state.error_message = None;
    state.edit_textarea = None;
}

/// Asks to focus the last message after appending, else the focused message.
pub fn set_scrolling_after_exit(state: &mut AppState, is_append_mode: bool)
    ensures
        (AppState {
            pending_scrolling_request: if is_append_mode {
                Some(ScrollingRequest::ScrollToLastMessage)
            } else {
                match old(state).focused_message_id {
                    Some(id) => Some(ScrollingRequest::ScrollToMessage(id)),
                    None => None,
                }
            },
            ..*old(state)
        }) == *final(state),
{
    state.pending_scrolling_request = if is_append_mode {
        Some(ScrollingRequest::ScrollToLastMessage)
    } else {
        match state.focused_message_id {
            Some(id) => Some(ScrollingRequest::ScrollToMessage(id)),
            None => None,
        }
    };
}

/// What leaving the editor asks for: a deletion, a save, the reason a deletion cannot be
/// asked for, or nothing when there is no edited message in a branch.
fn process_edit_content(state: &AppState, is_append_mode: bool) -> (r: Option<
    Result<DialogueRequest, String>,
>)
    requires
        is_append_mode == append_mode_of(*state),
    ensures
        match exit_request(*state) {
            Some(Ok(req)) => r == Some(Ok::<DialogueRequest, String>(req)),
            Some(Err(e)) => r matches Some(Err(x)) && x@ == e,
            None => match r {
                Some(Ok(req)) => is_save_request(*state, req),
                Some(Err(_)) => false,
                None => !(state.edit_textarea is Some && state.focused_message_id is Some
                    && state.current_branch_id is Some),
            },
        },
{
    let (textarea, message_id, branch_id) = match (
        &state.edit_textarea,
        state.focused_message_id,
        state.current_branch_id,
    ) {
        (Some(t), Some(m), Some(b)) => (t, m, b),
        _ => return None,
    };
    let lines = textarea.lines();
    let joined = join_lines(lines);
    let content = trim_chars(joined.as_slice());
    assert(Seq::new(lines@.len(), |i: int| lines@[i]@) =~= buffer_lines(*textarea));
    if content.len() == 0 {
        Some(delete_empty_message(state, message_id, branch_id, is_append_mode))
    } else {
        Some(
            Ok(
                update_message_content(
                    state,
                    message_id,
                    string_from_chars(content.as_slice()),
                    is_append_mode,
                ),
            ),
        )
    }
}

/// Asks for the emptied message to be deleted, or says why it cannot be.
fn delete_empty_message(state: &AppState, message_id: u128, branch_id: u128, is_append_mode: bool) -> (r:
    Result<DialogueRequest, String>)
    ensures
        match delete_outcome(state.dialogue, message_id, branch_id) {
            Ok((i, m)) => r == Ok::<DialogueRequest, String>(
                DialogueRequest {
                    command: DialogueCommand::DeleteMessage {
                        message_id,
                        branch_id,
                        message_index: i as usize,
                        deleted_message: m,
                    },
                    followup: Followup::ExitEditDelete { message_id, is_append_mode },
                },
            ),
            Err(e) => r matches Err(x) && x@ == "Failed to delete message: "@ + e,
        },
{
    match DialogueService::delete_message(&state.dialogue, message_id, branch_id) {
        Ok(command) => Ok(
            DialogueRequest { command, followup: Followup::ExitEditDelete { message_id, is_append_mode } },
        ),
        Err(e) => {
            let mut message = owned("Failed to delete message: ");
            push_str(&mut message, e.as_str());
            Err(message)
        },
    }
}

/// Asks for the message's content to be replaced by the edited content.
fn update_message_content(state: &AppState, message_id: u128, content: String, is_append_mode: bool) -> (r:
    DialogueRequest)
    ensures
        r.followup == (Followup::ExitEditUpdate { message_id, is_append_mode }),
        r.command matches DialogueCommand::EditMessage { message_id: id, old_content, new_content }
            && id == message_id && old_content@ == old_content_of(state.dialogue, message_id)
            && new_content == content,
{
    let command = DialogueService::edit_message(&state.dialogue, message_id, content);
    DialogueRequest { command, followup: Followup::ExitEditUpdate { message_id, is_append_mode } }
}

/// Leaves the editor: a deletion or save goes to the dialogue engine (the editor is left
/// once it answers); a refused deletion is reported; with nothing to save, back to normal
/// mode at once.
fn exit_to_normal_mode(state: &mut AppState) -> (r: Option<DialogueRequest>)
    ensures
        match exit_request(*old(state)) {
            Some(Ok(req)) => r == Some(req) && *final(state) == *old(state),
            Some(Err(e)) => r is None && with_error(*old(state), *final(state), e),
            None => match r {
                Some(req) => is_save_request(*old(state), req) && *final(state) == *old(state),
                None => *final(state) == left_editor(*old(state), append_mode_of(*old(state))),
            },
        },
{
    let is_append_mode = state.is_append_mode();
    match process_edit_content(state, is_append_mode) {
        Some(Ok(request)) => Some(request),
        Some(Err(e)) => {
            state.error_message = Some(e);
            None
        },
        None => {
            reset_edit_state(state);
            set_scrolling_after_exit(state, is_append_mode);
            None
        },
    }
}

/// Escape: drops an ongoing selection; otherwise leaves the editor.
pub fn handle_exit_current_mode(state: &mut AppState) -> (r: Option<DialogueRequest>)
    ensures
        escape_done(*old(state), *final(state), r),
{
    if remove_active_selection(state) {
        return None;
    }
    exit_to_normal_mode(state)
}

/// Drops an ongoing selection; says whether there was one.
fn remove_active_selection(state: &mut AppState) -> (r: bool)
    ensures
        match old(state).edit_textarea {
            Some(t) => if buffer_selecting(t) {
                r && (AppState { edit_textarea: Some(after_cancel_selection(t)), ..*old(state) })
                    == *final(state) && buffer_lines(after_cancel_selection(t)) == buffer_lines(t)
                    && !buffer_selecting(after_cancel_selection(t))
            } else {
                !r && *final(state) == *old(state)
            },
            None => !r && *final(state) == *old(state),
        },
{
    if let Some(mut textarea) = state.edit_textarea.take() {
        if textarea.is_selecting() {
            textarea.cancel_selection();
            state.edit_textarea = Some(textarea);
            return true;
        }
        state.edit_textarea = Some(textarea);
    }
    false
}

/// Escape from `s` to `f`, asking `r` of the dialogue engine: an ongoing selection is
/// dropped, the text kept and the editor no longer selecting; otherwise the editor is left.
pub open spec fn escape_done(s: AppState, f: AppState, r: Option<DialogueRequest>) -> bool {
    match s.edit_textarea {
        Some(t) => if buffer_selecting(t) {
            &&& r is None
            &&& (AppState { edit_textarea: Some(after_cancel_selection(t)), ..s }) == f
            &&& buffer_lines(after_cancel_selection(t)) == buffer_lines(t)
            &&& !buffer_selecting(after_cancel_selection(t))
        } else {
            exits_editor(s, f, r)
        },
        None => exits_editor(s, f, r),
    }
}

/// How leaving the editor goes from `s` to `f`, asking `r` of the dialogue engine.
pub open spec fn exits_editor(s: AppState, f: AppState, r: Option<DialogueRequest>) -> bool {
    match exit_request(s) {
        Some(Ok(req)) => r == Some(req) && f == s,
        Some(Err(e)) => r is None && with_error(s, f, e),
        None => match r {
            Some(req) => is_save_request(s, req) && f == s,
            None => f == left_editor(s, append_mode_of(s)),
        },
    }
}

/// Sending a message is not there yet: says so.
pub fn handle_submit_message(state: &mut AppState)
    ensures
        with_error(*old(state), *final(state), "Submit message action is not implemented yet"@),
{
    state.error_message = Some(owned("Submit message action is not implemented yet"));
}

/// Moves the cursor one character forward, dropping an ongoing selection.
pub fn handle_move_cursor_forward(state: &mut AppState)
    ensures
        text_op_done(*old(state), *final(state), TextOp::Move(CursorMoveKind::Forward)),
{
    move_cursor(state, CursorMoveKind::Forward);
}

/// Moves the cursor one character back, dropping an ongoing selection.
pub fn handle_move_cursor_back(state: &mut AppState)
    ensures
        text_op_done(*old(state), *final(state), TextOp::Move(CursorMoveKind::Back)),
{
    move_cursor(state, CursorMoveKind::Back);
}

/// Moves the cursor one line up, dropping an ongoing selection.
pub fn handle_move_cursor_up(state: &mut AppState)
    ensures
        text_op_done(*old(state), *final(state), TextOp::Move(CursorMoveKind::Up)),
{
    move_cursor(state, CursorMoveKind::Up);
}

/// Moves the cursor one line down, dropping an ongoing selection.
pub fn handle_move_cursor_down(state: &mut AppState)
    ensures
        text_op_done(*old(state), *final(state), TextOp::Move(CursorMoveKind::Down)),
{
    move_cursor(state, CursorMoveKind::Down);
}

/// Moves the cursor to the next word, dropping an ongoing selection.
pub fn handle_move_cursor_word_forward(state: &mut AppState)
    ensures
        text_op_done(*old(state), *final(state), TextOp::Move(CursorMoveKind::WordForward)),
{
    move_cursor(state, CursorMoveKind::WordForward);
}

/// Moves the cursor to the end of the word, dropping an ongoing selection.
pub fn handle_move_cursor_word_end(state: &mut AppState)
    ensures
        text_op_done(*old(state), *final(state), TextOp::Move(CursorMoveKind::WordEnd)),
{
    move_cursor(state, CursorMoveKind::WordEnd);
}

/// Moves the cursor to the previous word, dropping an ongoing selection.
pub fn handle_move_cursor_word_back(state: &mut AppState)
    ensures
        text_op_done(*old(state), *final(state), TextOp::Move(CursorMoveKind::WordBack)),
{
    move_cursor(state, CursorMoveKind::WordBack);
}

/// Moves the cursor to the end of the line, dropping an ongoing selection.
pub fn handle_move_cursor_end(state: &mut AppState)
    ensures
        text_op_done(*old(state), *final(state), TextOp::Move(CursorMoveKind::End)),
{
    move_cursor(state, CursorMoveKind::End);
}

/// Moves the cursor to the head of the line, dropping an ongoing selection.
pub fn handle_move_cursor_head(state: &mut AppState)
    ensures
        text_op_done(*old(state), *final(state), TextOp::Move(CursorMoveKind::Head)),
{
    move_cursor(state, CursorMoveKind::Head);
}

/// Moves the cursor to the first line, dropping an ongoing selection.
pub fn handle_move_cursor_top(state: &mut AppState)
    ensures
        text_op_done(*old(state), *final(state), TextOp::Move(CursorMoveKind::Top)),
{
    move_cursor(state, CursorMoveKind::Top);
}

/// Moves the cursor to the last line, dropping an ongoing selection.
pub fn handle_move_cursor_bottom(state: &mut AppState)
    ensures
        text_op_done(*old(state), *final(state), TextOp::Move(CursorMoveKind::Bottom)),
{
    move_cursor(state, CursorMoveKind::Bottom);
}

/// Moves the cursor to the next paragraph, dropping an ongoing selection.
pub fn handle_move_cursor_paragraph_forward(state: &mut AppState)
    ensures
        text_op_done(*old(state), *final(state), TextOp::Move(CursorMoveKind::ParagraphForward)),
{
    move_cursor(state, CursorMoveKind::ParagraphForward);
}

/// Moves the cursor to the previous paragraph, dropping an ongoing selection.
pub fn handle_move_cursor_paragraph_back(state: &mut AppState)
    ensures
        text_op_done(*old(state), *final(state), TextOp::Move(CursorMoveKind::ParagraphBack)),
{
    move_cursor(state, CursorMoveKind::ParagraphBack);
}

/// Extends the selection one character forward.
pub fn handle_select_forward(state: &mut AppState)
    ensures
        text_op_done(*old(state), *final(state), TextOp::Select(CursorMoveKind::Forward)),
{
    select_with_cursor_move(state, CursorMoveKind::Forward);
}

/// Extends the selection one character back.
pub fn handle_select_back(state: &mut AppState)
    ensures
        text_op_done(*old(state), *final(state), TextOp::Select(CursorMoveKind::Back)),
{
    select_with_cursor_move(state, CursorMoveKind::Back);
}

/// Extends the selection one line up.
pub fn handle_select_up(state: &mut AppState)
    ensures
        text_op_done(*old(state), *final(state), TextOp::Select(CursorMoveKind::Up)),
{
    select_with_cursor_move(state, CursorMoveKind::Up);
}

/// Extends the selection one line down.
pub fn handle_select_down(state: &mut AppState)
    ensures
        text_op_done(*old(state), *final(state), TextOp::Select(CursorMoveKind::Down)),
{
    select_with_cursor_move(state, CursorMoveKind::Down);
}

/// Extends the selection to the next word.
pub fn handle_select_word_forward(state: &mut AppState)
    ensures
        text_op_done(*old(state), *final(state), TextOp::Select(CursorMoveKind::WordForward)),
{
    select_with_cursor_move(state, CursorMoveKind::WordForward);
}

/// Extends the selection to the previous word.
pub fn handle_select_word_back(state: &mut AppState)
    ensures
        text_op_done(*old(state), *final(state), TextOp::Select(CursorMoveKind::WordBack)),
{
    select_with_cursor_move(state, CursorMoveKind::WordBack);
}

/// Extends the selection to the end of the line.
pub fn handle_select_to_end(state: &mut AppState)
    ensures
        text_op_done(*old(state), *final(state), TextOp::Select(CursorMoveKind::End)),
{
    select_with_cursor_move(state, CursorMoveKind::End);
}

/// Extends the selection to the head of the line.
pub fn handle_select_to_head(state: &mut AppState)
    ensures
        text_op_done(*old(state), *final(state), TextOp::Select(CursorMoveKind::Head)),
{
    select_with_cursor_move(state, CursorMoveKind::Head);
}

/// Names of edit-mode actions in messages, as their `Debug` form writes them.
pub open spec fn unhandled_action_text(action: EditModeAction) -> Seq<char> {
    "Action MoveCursorInViewport not implemented yet"@
}

/// What an edit-mode action leaves: from `s` to `f`, leaving `r` to the world outside.
pub open spec fn edit_action_done(s: AppState, f: AppState, action: EditModeAction, r: Effect) -> bool {
    match action {
        EditModeAction::ExitCurrentMode => match r {
            Effect::Dialogue(req) => escape_done(s, f, Some(req)),
            Effect::Nothing => escape_done(s, f, None),
            _ => false,
        },
        EditModeAction::SubmitMessage => r is Nothing && with_error(
            s,
            f,
            "Submit message action is not implemented yet"@,
        ),
        EditModeAction::Copy | EditModeAction::Cut => {
            let op = if action is Copy {
                ClipboardOperation::Copy
            } else {
                ClipboardOperation::Cut
            };
            &&& text_op_done(s, f, op.text_op())
            &&& match s.edit_textarea {
                Some(t) => match selection_text_of(t) {
                    Some(s) => r matches Effect::Clipboard { operation, text } && operation == op
                        && text@ == s,
                    None => r is Nothing,
                },
                None => r is Nothing,
            }
        },
        EditModeAction::Paste => r is ReadClipboard && f == s,
        EditModeAction::MoveCursorInViewport => r is Nothing && with_error(
            s,
            f,
            unhandled_action_text(action),
        ),
        _ => r is Nothing && match action_text_op(action) {
            Some(op) => text_op_done(s, f, op),
            None => false,
        },
    }
}

/// Carries out an edit-mode action; what is left to the world outside comes back: the
/// dialogue engine's work when leaving the editor, the text for the desktop clipboard
/// after a copy or cut, a read of it for a paste.
pub fn handle_edit_mode_action(state: &mut AppState, action: EditModeAction) -> (r: Effect)
    ensures
        edit_action_done(*old(state), *final(state), action, r),
{
    match action {
        EditModeAction::ExitCurrentMode => match handle_exit_current_mode(state) {
            Some(request) => Effect::Dialogue(request),
            None => Effect::Nothing,
        },
        EditModeAction::SubmitMessage => {
            handle_submit_message(state);
            Effect::Nothing
        },
        EditModeAction::DeleteChar => {
            handle_delete_char(state);
            Effect::Nothing
        },
        EditModeAction::DeleteNextChar => {
            handle_delete_next_char(state);
            Effect::Nothing
        },
        EditModeAction::InsertNewline => {
            handle_insert_newline(state);
            Effect::Nothing
        },
        EditModeAction::DeleteLineByEnd => {
            handle_delete_line_by_end(state);
            Effect::Nothing
        },
        EditModeAction::DeleteLineByHead => {
            handle_delete_line_by_head(state);
            Effect::Nothing
        },
        EditModeAction::DeleteWord => {
            handle_delete_word(state);
            Effect::Nothing
        },
        EditModeAction::DeleteNextWord => {
            handle_delete_next_word(state);
            Effect::Nothing
        },
        EditModeAction::Undo => {
            handle_undo(state);
            Effect::Nothing
        },
        EditModeAction::Redo => {
            handle_redo(state);
            Effect::Nothing
        },
        EditModeAction::SelectAll => {
            handle_select_all(state);
            Effect::Nothing
        },
        EditModeAction::Copy => match handle_copy(state) {
            Some(text) => Effect::Clipboard { operation: ClipboardOperation::Copy, text },
            None => Effect::Nothing,
        },
        EditModeAction::Cut => match handle_cut(state) {
            Some(text) => Effect::Clipboard { operation: ClipboardOperation::Cut, text },
            None => Effect::Nothing,
        },
        EditModeAction::Paste => Effect::ReadClipboard,
        EditModeAction::MoveCursorInViewport => {
            state.error_message = Some(owned("Action MoveCursorInViewport not implemented yet"));
            Effect::Nothing
        },
        _ => {
            move_or_select(state, action);
            Effect::Nothing
        },
    }
}

} // verus!
