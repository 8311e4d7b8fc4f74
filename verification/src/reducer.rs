use vstd::prelude::*;
use crate::actions::{ActionDispatcher, CommonAction, UIAction};
use crate::caches::heights_without_message;
use crate::dialogue::Dialogue;
use crate::dialogue_service::{failure_text, DialogueCommand, DialogueService};
use crate::edit_mode_handler::{edit_action_done, handle_edit_mode_action, left_editor, reset_edit_state, set_scrolling_after_exit, ClipboardOperation};
use crate::mode::Mode;
use crate::normal_mode_handler::{handle_normal_mode_action, normal_action_done, setup_editing_done, setup_editing_for_new_message, with_error};
use crate::scrolling::focus_after_deletion;
use crate::state::{
    cache_context_of, current_messages_of, focused_on, highlight_key_of, message_index_in_view,
    AppState,
};
use crate::text::{owned, push_str};

verus! {

/// What to do once the dialogue engine has answered a request.
#[derive(Clone, Copy, Debug, PartialEq, Eq, Structural)]
pub enum Followup {
    /// The focused message was deleted from the branch; its position before, if known.
    DeleteFocused { message_id: u128, message_index: Option<usize> },
    Fork,
    Hide,
    Show,
    /// An empty user message was appended, to be edited.
    AppendNew,
    /// The edited message was emptied, so deleted, on leaving the editor.
    ExitEditDelete { message_id: u128, is_append_mode: bool },
    /// The edited message was saved on leaving the editor.
    ExitEditUpdate { message_id: u128, is_append_mode: bool },
    Undo,
    Redo,
}

/// Work for the dialogue engine, and what to do with its answer.
#[derive(Debug)]
pub struct DialogueRequest {
    pub command: DialogueCommand,
    pub followup: Followup,
}

/// What an action leaves to the world outside the state.
#[derive(Debug)]
pub enum Effect {
    Nothing,
    /// Hand the request to the dialogue engine, then pass its answer to `complete_request`.
    Dialogue(DialogueRequest),
    /// Put the text on the desktop clipboard; on failure, `report_clipboard_failure`.
    Clipboard { operation: ClipboardOperation, text: String },
    /// Read the desktop clipboard and pass what was read to `handle_paste`.
    ReadClipboard,
}

/// An operation the dialogue engine reports having undone or redone.
#[derive(Clone, Copy, Debug, PartialEq, Eq, Structural)]
pub enum RecordedAction {
    EditMessage { message_id: u128 },
    DeleteMessage { message_id: u128 },
    HideMessage { message_id: u128 },
    ShowMessage { message_id: u128 },
    ToggleMessageRole { message_id: u128 },
    AppendMessage { message_id: u128 },
    OtherBranchAction,
    TreeAction,
    DialogueAction,
}

/// The help system is not there yet: says so.
fn handle_show_help(state: &mut AppState, _mode: Mode)
    ensures
        with_error(*old(state), *final(state), "Help system not implemented yet"@),
{
    state.error_message = Some(owned("Help system not implemented yet"));
}

/// Quitting is the runner's business; help says it is not there yet.
fn handle_common_action(state: &mut AppState, action: CommonAction)
    ensures
        match action {
            CommonAction::Quit => *final(state) == *old(state),
            CommonAction::ShowHelp(_) => with_error(
                *old(state),
                *final(state),
                "Help system not implemented yet"@,
            ),
        },
{
    match action {
        CommonAction::Quit => {},
        CommonAction::ShowHelp(mode) => handle_show_help(state, mode),
    }
}

/// What carrying out `action` does, from `s` to `f`, leaving `r` to the world outside.
pub open spec fn reduced(s: AppState, f: AppState, action: UIAction, r: Effect) -> bool {
    match action {
        UIAction::Common(c) => r is Nothing && match c {
            CommonAction::Quit => f == s,
            CommonAction::ShowHelp(_) => with_error(s, f, "Help system not implemented yet"@),
        },
        UIAction::NormalMode(a) => match r {
            Effect::Dialogue(req) => normal_action_done(s, f, a, Some(req)),
            Effect::Nothing => normal_action_done(s, f, a, None),
            _ => false,
        },
        UIAction::EditMode(a) => edit_action_done(s, f, a, r),
    }
}

/// Carries out an action on the state; what is left to the world outside comes back.
pub fn reduce(state: &mut AppState, action: UIAction) -> (r: Effect)
    ensures
        reduced(*old(state), *final(state), action, r),
{
    match action {
        UIAction::Common(common_action) => {
            handle_common_action(state, common_action);
            Effect::Nothing
        },
        UIAction::NormalMode(normal_action) => match handle_normal_mode_action(state, normal_action) {
            Some(request) => Effect::Dialogue(request),
            None => Effect::Nothing,
        },
        UIAction::EditMode(edit_action) => handle_edit_mode_action(state, edit_action),
    }
}

/// The caches once the message's entries for the shown tree and branch are gone.
pub open spec fn caches_invalidated(s: AppState, f: AppState, id: u128) -> bool {
    &&& match highlight_key_of(s, id) {
        Some(k) => f.highlight_cache@ == s.highlight_cache@.remove(k),
        None => f.highlight_cache@ == s.highlight_cache@,
    }
    &&& match cache_context_of(s) {
        Some((t, b)) => f.height_cache@ == heights_without_message(s.height_cache@, t, b, id),
        None => f.height_cache@ == s.height_cache@,
    }
}

/// Whether `f` is `s` with new caches only.
pub open spec fn same_but_caches(s: AppState, f: AppState) -> bool {
    (AppState { highlight_cache: f.highlight_cache, height_cache: f.height_cache, ..s }) == f
}

/// Forgets the message's highlighted text and heights.
fn invalidate_message_caches(state: &mut AppState, message_id: u128)
    ensures
        caches_invalidated(*old(state), *final(state), message_id),
        same_but_caches(*old(state), *final(state)),
{
    state.invalidate_message_highlight(message_id);
    state.invalidate_message_height(message_id);
}

/// The focus after the message at `index` (a position before the deletion) is gone; kept
/// when the position lies beyond the branch.
pub open spec fn focus_after_removal(s: AppState, index: Option<int>) -> Option<u128> {
    match index {
        Some(i) => if i <= current_messages_of(s).len() {
            focus_after_deletion(current_messages_of(s), i)
        } else {
            s.focused_message_id
        },
        None => s.focused_message_id,
    }
}

/// Moves the focus past a deleted message.
fn refocus_after_removal(state: &mut AppState, index: Option<usize>)
    ensures
        (AppState {
            focused_message_id: focus_after_removal(
                *old(state),
                match index {
                    Some(i) => Some(i as int),
                    None => None,
                },
            ),
            ..*old(state)
        }) == *final(state),
{
    if let Some(i) = index {
        if i <= state.current_messages().len() {
            state.update_focused_message_after_deletion(i);
        }
    }
}

/// The caches to drop after an undone or redone operation: an edited or deleted
/// message's highlighted text and heights, a hidden, shown or re-roled message's
/// highlighted text.
pub open spec fn action_invalidated(s: AppState, f: AppState, action: RecordedAction) -> bool {
    match action {
        RecordedAction::EditMessage { message_id } | RecordedAction::DeleteMessage {
            message_id,
        } => caches_invalidated(s, f, message_id) && same_but_caches(s, f),
        RecordedAction::HideMessage { message_id } | RecordedAction::ShowMessage { message_id }
        | RecordedAction::ToggleMessageRole { message_id } => (match highlight_key_of(
            s,
            message_id,
        ) {
            Some(k) => f.highlight_cache@ == s.highlight_cache@.remove(k),
            None => f.highlight_cache@ == s.highlight_cache@,
        }) && (AppState { highlight_cache: f.highlight_cache, ..s }) == f,
        _ => f == s,
    }
}

/// Drops the caches that an undone or redone operation made stale.
pub fn handle_action_cache_invalidation(state: &mut AppState, action: &RecordedAction)
    ensures
        action_invalidated(*old(state), *final(state), *action),
{
    match action {
        RecordedAction::EditMessage { message_id } | RecordedAction::DeleteMessage {
            message_id,
        } => {
            state.invalidate_message_height(*message_id);
            state.invalidate_message_highlight(*message_id);
        },
        RecordedAction::HideMessage { message_id } | RecordedAction::ShowMessage { message_id }
        | RecordedAction::ToggleMessageRole { message_id } => {
            state.invalidate_message_highlight(*message_id);
        },
        _ => {},
    }
}

/// The focus after an undone or redone operation: the message it touched, except a
/// deletion redone, after which the focus moves past the deleted message.
pub open spec fn focus_after_action(s: AppState, action: RecordedAction, is_undo: bool) -> AppState {
    match action {
        RecordedAction::EditMessage { message_id } => focused_on(s, message_id),
        RecordedAction::DeleteMessage { message_id } => if is_undo {
            focused_on(s, message_id)
        } else {
            match message_index_in_view(s, message_id) {
                Some(i) => AppState {
                    focused_message_id: focus_after_deletion(current_messages_of(s), i),
                    ..s
                },
                None => s,
            }
        },
        RecordedAction::HideMessage { message_id } | RecordedAction::ShowMessage { message_id }
        | RecordedAction::ToggleMessageRole { message_id } | RecordedAction::AppendMessage {
            message_id,
        } => focused_on(s, message_id),
        _ => s,
    }
}

/// Focuses what an undone or redone operation touched.
pub fn update_focus_after_action(state: &mut AppState, action: &RecordedAction, is_undo: bool)
    ensures
        *final(state) == focus_after_action(*old(state), *action, is_undo),
{
    match action {
        RecordedAction::EditMessage { message_id } => state.focus_message(*message_id),
        RecordedAction::DeleteMessage { message_id } => {
            if is_undo {
                state.focus_message(*message_id);
            } else if let Some(index) = state.get_message_index(*message_id) {
                state.update_focused_message_after_deletion(index);
            }
        },
        RecordedAction::HideMessage { message_id } | RecordedAction::ShowMessage { message_id }
        | RecordedAction::ToggleMessageRole { message_id } | RecordedAction::AppendMessage {
            message_id,
        } => state.focus_message(*message_id),
        _ => {},
    }
}

/// Asks the dialogue engine to undo its last operation.
pub fn handle_undo() -> (r: DialogueRequest)
    ensures
        r == (DialogueRequest { command: DialogueCommand::Undo, followup: Followup::Undo }),
{
    DialogueRequest { command: DialogueService::undo(), followup: Followup::Undo }
}

/// Asks the dialogue engine to redo its last undone operation.
pub fn handle_redo() -> (r: DialogueRequest)
    ensures
        r == (DialogueRequest { command: DialogueCommand::Redo, followup: Followup::Redo }),
{
    DialogueRequest { command: DialogueService::redo(), followup: Followup::Redo }
}

/// The state once the dialogue engine has answered: `s` is the state with the dialogue as
/// the engine left it.
pub open spec fn completed(
    s: AppState,
    f: AppState,
    request: DialogueRequest,
    result: Result<Option<RecordedAction>, Seq<char>>,
) -> bool {
    let command = request.command;
    match request.followup {
        Followup::DeleteFocused { message_id, message_index } => match result {
            Err(e) => with_error(s, f, failure_text(command, e)),
            Ok(_) => caches_invalidated(s, f, message_id) && same_but_caches(
                AppState {
                    focused_message_id: focus_after_removal(
                        s,
                        match message_index {
                            Some(i) => Some(i as int),
                            None => None,
                        },
                    ),
                    ..s
                },
                f,
            ),
        },
        Followup::Fork | Followup::Hide | Followup::Show => match result {
            Err(e) => with_error(s, f, failure_text(command, e)),
            Ok(_) => f == s,
        },
        Followup::AppendNew => match result {
            Err(e) => with_error(
                s,
                f,
                "Failed to create new message: "@ + failure_text(command, e),
            ),
            Ok(_) => setup_editing_done(s, f),
        },
        Followup::ExitEditDelete { message_id, is_append_mode } => match result {
            Err(e) => with_error(s, f, "Failed to delete message: "@ + failure_text(command, e)),
            Ok(_) => caches_invalidated(s, f, message_id) && same_but_caches(
                left_editor(
                    AppState {
                        focused_message_id: focus_after_removal(
                            s,
                            message_index_in_view(s, message_id),
                        ),
                        ..s
                    },
                    is_append_mode,
                ),
                f,
            ),
        },
        Followup::ExitEditUpdate { message_id, is_append_mode } => match result {
            Err(e) => with_error(s, f, "Failed to save message: "@ + failure_text(command, e)),
            Ok(_) => caches_invalidated(s, f, message_id) && same_but_caches(
                left_editor(s, is_append_mode),
                f,
            ),
        },
        Followup::Undo | Followup::Redo => match result {
            Err(e) => with_error(s, f, failure_text(command, e)),
            Ok(None) => f == s,
            Ok(Some(action)) => exists|m: AppState|
                action_invalidated(s, m, action) && f == focus_after_action(
                    m,
                    action,
                    request.followup is Undo,
                ),
        },
    }
}

/// Takes in the dialogue engine's answer to a request: the dialogue as it now stands, and
/// the outcome (with, for an undo or redo, the operation undone or redone).
pub fn complete_request(
    state: &mut AppState,
    request: DialogueRequest,
    result: Result<Option<RecordedAction>, String>,
    dialogue: Dialogue,
)
    ensures
        completed(
            AppState { dialogue, ..*old(state) },
            *final(state),
            request,
            match result {
                Ok(a) => Ok(a),
                Err(e) => Err(e@),
            },
        ),
{
    state.dialogue = dialogue;
    let DialogueRequest { command, followup } = request;
    match followup {
        Followup::DeleteFocused { message_id, message_index } => match result {
            Err(e) => {
                state.error_message = Some(DialogueService::failure(&command, e.as_str()));
            },
            Ok(_) => {
                refocus_after_removal(state, message_index);
                invalidate_message_caches(state, message_id);
            },
        },
        Followup::Fork | Followup::Hide | Followup::Show => {
            if let Err(e) = result {
                state.error_message = Some(DialogueService::failure(&command, e.as_str()));
            }
        },
        Followup::AppendNew => match result {
            Err(e) => {
                let mut message = owned("Failed to create new message: ");
                push_str(&mut message, DialogueService::failure(&command, e.as_str()).as_str());
                state.error_message = Some(message);
            },
            Ok(_) => setup_editing_for_new_message(state),
        },
        Followup::ExitEditDelete { message_id, is_append_mode } => match result {
            Err(e) => {
                let mut message = owned("Failed to delete message: ");
                push_str(&mut message, DialogueService::failure(&command, e.as_str()).as_str());
                state.error_message = Some(message);
            },
            Ok(_) => {
                let index = state.get_message_index(message_id);
                refocus_after_removal(state, index);
                reset_edit_state(state);
                set_scrolling_after_exit(state, is_append_mode);
                invalidate_message_caches(state, message_id);
            },
        },
        Followup::ExitEditUpdate { message_id, is_append_mode } => match result {
            Err(e) => {
                let mut message = owned("Failed to save message: ");
                push_str(&mut message, DialogueService::failure(&command, e.as_str()).as_str());
                state.error_message = Some(message);
            },
            Ok(_) => {
                reset_edit_state(state);
                set_scrolling_after_exit(state, is_append_mode);
                invalidate_message_caches(state, message_id);
            },
        },
        Followup::Undo | Followup::Redo => match result {
            Err(e) => {
                state.error_message = Some(DialogueService::failure(&command, e.as_str()));
            },
            Ok(None) => {},
            Ok(Some(action)) => {
                handle_action_cache_invalidation(state, &action);
                let is_undo = match followup {
                    Followup::Undo => true,
                    _ => false,
                };
                update_focus_after_action(state, &action, is_undo);
            },
        },
    }
}

impl ActionDispatcher for AppState {
    /// Reduces the action on the state.
    fn dispatch(&mut self, action: UIAction) -> (r: Effect)
        ensures
            reduced(*old(self), *final(self), action, r),
    {
        reduce(self, action)
    }
}

} // verus!
