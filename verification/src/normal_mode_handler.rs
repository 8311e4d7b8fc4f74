use vstd::prelude::*;
use crate::actions::NormalModeAction;
use crate::dialogue::{find_branch_index, find_message_index, index_of_branch, index_of_message, Message, Role};
use crate::dialogue_service::{DialogueCommand, DialogueService};
use crate::editor::{after_insert_str, after_move_cursor, buffer_lines, buffer_selecting, CursorMoveKind, TextBuffer};
use crate::focus_resolver::ScrollingRequest;
use crate::mode::Mode;
use crate::reducer::{DialogueRequest, Followup};
use crate::state::{
    current_branch_of, current_messages_of, current_tree_of, message_index_in_view,
    reset_branch_focus, reset_tree_focus, AppState,
};
use crate::text::{decimal, i64_to_decimal, owned, push_str};

verus! {

/// The state with `msg` as its error message.
pub open spec fn with_error(s: AppState, f: AppState, msg: Seq<char>) -> bool {
    &&& f.error_message matches Some(e) && e@ == msg
    &&& (AppState { error_message: f.error_message, ..s }) == f
}

/// The state asking for `req`, otherwise as `s`.
pub open spec fn with_request(s: AppState, f: AppState, req: ScrollingRequest) -> bool {
    (AppState { pending_scrolling_request: Some(req), ..s }) == f
}

/// The state scrolled one row up, stopping at the lowest offset.
pub open spec fn scrolled_up(s: AppState) -> AppState {
    AppState {
        scroll_offset: if s.scroll_offset == isize::MIN {
            isize::MIN
        } else {
            (s.scroll_offset - 1) as isize
        },
        ..s
    }
}

/// The state scrolled one row down, stopping at the highest offset.
pub open spec fn scrolled_down(s: AppState) -> AppState {
    AppState {
        scroll_offset: if s.scroll_offset == isize::MAX {
            isize::MAX
        } else {
            (s.scroll_offset + 1) as isize
        },
        ..s
    }
}

/// What `handle_scroll_up` leaves: from `s` to `f`.
pub open spec fn scroll_up_done(s: AppState, f: AppState) -> bool {
    f == scrolled_up(s)
}

/// Moves the view one row up, stopping at the lowest offset.
pub fn handle_scroll_up(state: &mut AppState)
    ensures
        scroll_up_done(*old(state), *final(state)),
{
    if state.scroll_offset > isize::MIN {
        state.scroll_offset = state.scroll_offset - 1;
    }
}

/// What `handle_scroll_down` leaves: from `s` to `f`.
pub open spec fn scroll_down_done(s: AppState, f: AppState) -> bool {
    f == scrolled_down(s)
}

/// Moves the view one row down, stopping at the highest offset.
pub fn handle_scroll_down(state: &mut AppState)
    ensures
        scroll_down_done(*old(state), *final(state)),
{
    if state.scroll_offset < isize::MAX {
        state.scroll_offset = state.scroll_offset + 1;
    }
}

/// What `handle_scroll_page_up` leaves: from `s` to `f`.
pub open spec fn scroll_page_up_done(s: AppState, f: AppState) -> bool {
    with_request(s, f, ScrollingRequest::ScrollPageUp)
}

/// Asks for a scroll one page up.
pub fn handle_scroll_page_up(state: &mut AppState)
    ensures
        scroll_page_up_done(*old(state), *final(state)),
{
    state.pending_scrolling_request = Some(ScrollingRequest::ScrollPageUp);
}

/// What `handle_scroll_page_down` leaves: from `s` to `f`.
pub open spec fn scroll_page_down_done(s: AppState, f: AppState) -> bool {
    with_request(s, f, ScrollingRequest::ScrollPageDown)
}

/// Asks for a scroll one page down.
pub fn handle_scroll_page_down(state: &mut AppState)
    ensures
        scroll_page_down_done(*old(state), *final(state)),
{
    state.pending_scrolling_request = Some(ScrollingRequest::ScrollPageDown);
}

/// What `handle_scroll_half_page_up` leaves: from `s` to `f`.
pub open spec fn scroll_half_page_up_done(s: AppState, f: AppState) -> bool {
    with_request(s, f, ScrollingRequest::ScrollHalfPageUp)
}

/// Asks for a scroll half a page up.
pub fn handle_scroll_half_page_up(state: &mut AppState)
    ensures
        scroll_half_page_up_done(*old(state), *final(state)),
{
    state.pending_scrolling_request = Some(ScrollingRequest::ScrollHalfPageUp);
}

/// What `handle_scroll_half_page_down` leaves: from `s` to `f`.
pub open spec fn scroll_half_page_down_done(s: AppState, f: AppState) -> bool {
    with_request(s, f, ScrollingRequest::ScrollHalfPageDown)
}

/// Asks for a scroll half a page down.
pub fn handle_scroll_half_page_down(state: &mut AppState)
    ensures
        scroll_half_page_down_done(*old(state), *final(state)),
{
    state.pending_scrolling_request = Some(ScrollingRequest::ScrollHalfPageDown);
}

/// What `handle_scroll_to_top` leaves: from `s` to `f`.
pub open spec fn scroll_to_top_done(s: AppState, f: AppState) -> bool {
    with_request(s, f, ScrollingRequest::ScrollToTop)
}

/// Asks for the top of the branch.
pub fn handle_scroll_to_top(state: &mut AppState)
    ensures
        scroll_to_top_done(*old(state), *final(state)),
{
    state.pending_scrolling_request = Some(ScrollingRequest::ScrollToTop);
}

/// What `handle_scroll_to_bottom` leaves: from `s` to `f`.
pub open spec fn scroll_to_bottom_done(s: AppState, f: AppState) -> bool {
    with_request(s, f, ScrollingRequest::ScrollToBottom)
}

/// Asks for the bottom of the branch.
pub fn handle_scroll_to_bottom(state: &mut AppState)
    ensures
        scroll_to_bottom_done(*old(state), *final(state)),
{
    state.pending_scrolling_request = Some(ScrollingRequest::ScrollToBottom);
}

/// The message after (`forward`) or before the first message with identifier `id`.
pub open spec fn adjacent_message(msgs: Seq<Message>, id: u128, forward: bool) -> Option<u128> {
    match index_of_message(msgs, id) {
        Some(i) => if forward {
            if i + 1 < msgs.len() {
                Some(msgs[i + 1].id)
            } else {
                None
            }
        } else {
            if i > 0 {
                Some(msgs[i - 1].id)
            } else {
                None
            }
        },
        None => None,
    }
}

/// Asks to focus the message next to `message_id`, when there is one.
fn handle_scroll_to_adjacent_message(state: &mut AppState, message_id: u128, forward: bool)
    ensures
        match adjacent_message(current_messages_of(*old(state)), message_id, forward) {
            Some(id) => with_request(*old(state), *final(state), ScrollingRequest::ScrollToMessage(id)),
            None => *final(state) == *old(state),
        },
{
    let messages = state.current_messages();
    let adjacent = match find_message_index(messages, message_id) {
        Some(current_index) => if forward {
            if current_index < messages.len() - 1 {
                Some(messages[current_index + 1].id)
            } else {
                None
            }
        } else {
            if current_index > 0 {
                Some(messages[current_index - 1].id)
            } else {
                None
            }
        },
        None => None,
    };
    if let Some(id) = adjacent {
        state.pending_scrolling_request = Some(ScrollingRequest::ScrollToMessage(id));
    }
}

/// What `handle_scroll_to_next_message` leaves: from `s` to `f`.
pub open spec fn scroll_to_next_message_done(s: AppState, f: AppState) -> bool {
    match s.focused_message_id {
        Some(fid) => match adjacent_message(current_messages_of(s), fid, true) {
            Some(id) => with_request(s, f, ScrollingRequest::ScrollToMessage(id)),
            None => f == s,
        },
        None => f == s,
    }
}

/// Asks to focus the message after the focused one.
pub fn handle_scroll_to_next_message(state: &mut AppState)
    ensures
        scroll_to_next_message_done(*old(state), *final(state)),
{
    if let Some(message_id) = state.focused_message_id {
        handle_scroll_to_adjacent_message(state, message_id, true);
    }
}

/// What `handle_scroll_to_previous_message` leaves: from `s` to `f`.
pub open spec fn scroll_to_previous_message_done(s: AppState, f: AppState) -> bool {
    match s.focused_message_id {
        Some(fid) => match adjacent_message(current_messages_of(s), fid, false) {
            Some(id) => with_request(s, f, ScrollingRequest::ScrollToMessage(id)),
            None => f == s,
        },
        None => f == s,
    }
}

/// Asks to focus the message before the focused one.
pub fn handle_scroll_to_previous_message(state: &mut AppState)
    ensures
        scroll_to_previous_message_done(*old(state), *final(state)),
{
    if let Some(message_id) = state.focused_message_id {
        handle_scroll_to_adjacent_message(state, message_id, false);
    }
}

/// What `handle_enter_edit_mode` leaves: from `s` to `f`.
pub open spec fn enter_edit_mode_done(s: AppState, f: AppState) -> bool {
    match s.focused_message_id {
        Some(id) => (AppState {
            pending_scrolling_request: Some(ScrollingRequest::ScrollToMessage(id)),
            mode: Mode::Edit,
            ..s
        }) == f,
        None => with_error(s, f, "No message selected for editing"@),
    }
}

/// Switches to edit mode on the focused message, centred first.
pub fn handle_enter_edit_mode(state: &mut AppState)
    ensures
        enter_edit_mode_done(*old(state), *final(state)),
{
    let message_id = match state.focused_message_id {
        Some(id) => id,
        None => {
            state.error_message = Some(owned("No message selected for editing"));
            return ;
        },
    };
    state.pending_scrolling_request = Some(ScrollingRequest::ScrollToMessage(message_id));
    state.mode = Mode::Edit;
}

/// The last message of the branch being shown, when the user wrote it.
pub open spec fn last_user_message(s: AppState) -> Option<Message> {
    match current_branch_of(s) {
        Some(b) => if b.messages@.len() > 0 && b.messages@.last().role == Role::User {
            Some(b.messages@.last())
        } else {
            None
        },
        None => None,
    }
}

/// Whether `t` is the editor of `content` with the cursor at its very end: a fresh editor
/// (one empty line, no selection) given the content, then moved to the last line and to
/// its end.
pub open spec fn editing_at_end(t: TextBuffer, content: Seq<char>) -> bool {
    exists|t0: TextBuffer|
        buffer_lines(t0) == seq![Seq::<char>::empty()] && !buffer_selecting(t0) && t
            == after_move_cursor(
            after_move_cursor(after_insert_str(t0, content), CursorMoveKind::Bottom),
            CursorMoveKind::End,
        )
}

/// The identifier and content of the last message of the branch, when the user wrote it.
fn get_last_user_message(state: &AppState) -> (r: Option<(u128, String)>)
    ensures
        match last_user_message(*state) {
            Some(m) => r matches Some((id, c)) && id == m.id && c@ == m.content@,
            None => r is None,
        },
{
    match state.current_branch() {
        Some(branch) => {
            let n = branch.messages.len();
            if n > 0 && branch.messages[n - 1].role == Role::User {
                Some((branch.messages[n - 1].id, branch.messages[n - 1].content.clone()))
            } else {
                None
            }
        },
        None => None,
    }
}

/// Edits an existing message, cursor at its end.
fn continue_editing_message(state: &mut AppState, message_id: u128, content: String)
    ensures
        final(state).edit_textarea matches Some(t) && editing_at_end(t, content@),
        (AppState {
            focused_message_id: Some(message_id),
            edit_textarea: final(state).edit_textarea,
            mode: Mode::Edit,
            pending_scrolling_request: Some(ScrollingRequest::ScrollToBottom),
            ..*old(state)
        }) == *final(state),
{
    state.focused_message_id = Some(message_id);
    let mut textarea = TextBuffer::new();
    let ghost t0 = textarea;
    textarea.insert_str(content.as_str());
    textarea.move_cursor(CursorMoveKind::Bottom);
    textarea.move_cursor(CursorMoveKind::End);
    assert(editing_at_end(textarea, content@)) by {
        assert(buffer_lines(t0) == seq![Seq::<char>::empty()] && !buffer_selecting(t0));
    }
    state.edit_textarea = Some(textarea);
    state.mode = Mode::Edit;
    state.pending_scrolling_request = Some(ScrollingRequest::ScrollToBottom);
}

/// The state editing the newly appended last message of the branch, in a fresh editor
/// holding one empty line; or the error saying the branch or the message is missing.
pub open spec fn setup_editing_done(s: AppState, f: AppState) -> bool {
    match current_branch_of(s) {
        None => with_error(s, f, "Branch no longer exists after creating message"@),
        Some(b) => if b.messages@.len() == 0 {
            with_error(s, f, "Failed to find the newly created message"@)
        } else {
            &&& f.edit_textarea matches Some(t) && buffer_lines(t) == seq![Seq::<char>::empty()]
                && !buffer_selecting(t)
            &&& (AppState {
                focused_message_id: Some(b.messages@.last().id),
                edit_textarea: f.edit_textarea,
                mode: Mode::Edit,
                pending_scrolling_request: Some(ScrollingRequest::ScrollToBottom),
                ..s
            }) == f
        },
    }
}

/// Edits the newly appended last message, in a fresh editor holding one empty line;
/// reports the branch or the message gone missing.
pub fn setup_editing_for_new_message(state: &mut AppState)
    ensures
        setup_editing_done(*old(state), *final(state)),
{
    let last_id = match state.current_branch() {
        None => {
            state.error_message = Some(owned("Branch no longer exists after creating message"));
            return ;
        },
        Some(branch) => {
            let n = branch.messages.len();
            if n == 0 {
                state.error_message = Some(owned("Failed to find the newly created message"));
                return ;
            }
            branch.messages[n - 1].id
        },
    };
    state.focused_message_id = Some(last_id);
    state.edit_textarea = Some(TextBuffer::with_empty_line());
    state.mode = Mode::Edit;
    state.pending_scrolling_request = Some(ScrollingRequest::ScrollToBottom);
}

/// What `handle_enter_append_mode` leaves: from `s` to `f`, asking `r` of the dialogue engine.
pub open spec fn enter_append_mode_done(s: AppState, f: AppState, r: Option<DialogueRequest>) -> bool {
    match s.current_branch_id {
        None => r is None && with_error(
            s,
            f,
            "No branch selected for appending"@,
        ),
        Some(bid) => match last_user_message(s) {
            Some(m) => r is None && match f.edit_textarea {
                Some(t) => editing_at_end(t, m.content@),
                None => false,
            } && (AppState {
                focused_message_id: Some(m.id),
                edit_textarea: f.edit_textarea,
                mode: Mode::Edit,
                pending_scrolling_request: Some(ScrollingRequest::ScrollToBottom),
                ..s
            }) == f,
            None => {
                &&& f == s
                &&& match r {
                    Some(req) => req.followup == Followup::AppendNew && match req.command {
                        DialogueCommand::AppendMessage { branch_id, message_content } =>
                            branch_id == bid && message_content@ == Seq::<char>::empty(),
                        _ => false,
                    },
                    None => false,
                }
            },
        },
    }
}

/// Edits the last message when the user wrote it; otherwise asks for an empty user
/// message to be appended to the branch (edited once it exists).
pub fn handle_enter_append_mode(state: &mut AppState) -> (r: Option<DialogueRequest>)
    ensures
        enter_append_mode_done(*old(state), *final(state), r),
{
    let branch_id = match state.current_branch_id {
        Some(b) => b,
        None => {
            state.error_message = Some(owned("No branch selected for appending"));
            return None;
        },
    };
    match get_last_user_message(state) {
        Some((message_id, content)) => {
            continue_editing_message(state, message_id, content);
            None
        },
        None => Some(create_new_user_message(branch_id)),
    }
}

/// Asks for an empty user message to be appended to the branch, to be edited once it
/// exists.
fn create_new_user_message(branch_id: u128) -> (r: DialogueRequest)
    ensures
        r.followup == Followup::AppendNew,
        r.command matches DialogueCommand::AppendMessage { branch_id: b, message_content }
            && b == branch_id && message_content@ == Seq::<char>::empty(),
{
    DialogueRequest {
        command: DialogueService::append_message(branch_id, String::new()),
        followup: Followup::AppendNew,
    }
}

/// What `handle_enter_command_palette` leaves: from `s` to `f`.
pub open spec fn enter_command_palette_done(s: AppState, f: AppState) -> bool {
    with_error(s, f, "Command palette not implemented yet"@)
}

/// The command palette is not there yet: says so.
pub fn handle_enter_command_palette(state: &mut AppState)
    ensures
        enter_command_palette_done(*old(state), *final(state)),
{
    state.error_message = Some(owned("Command palette not implemented yet"));
}

/// What `handle_delete_message` leaves: from `s` to `f`, asking `r` of the dialogue engine.
pub open spec fn delete_message_done(s: AppState, f: AppState, r: Option<DialogueRequest>) -> bool {
    match s.focused_message_id {
        None => r is None && with_error(
            s,
            f,
            "No message selected for deletion"@,
        ),
        Some(mid) => match s.current_branch_id {
            None => r is None && f == s,
            Some(bid) => match crate::dialogue_service::delete_outcome(
                s.dialogue,
                mid,
                bid,
            ) {
                Err(e) => r is None && with_error(s, f, e),
                Ok((i, m)) => {
                    &&& f == s
                    &&& match r {
                        Some(req) => req.followup == (Followup::DeleteFocused {
                            message_id: mid,
                            message_index: match message_index_in_view(s, mid) {
                                Some(k) => Some(k as usize),
                                None => None,
                            },
                        }) && match req.command {
                            DialogueCommand::DeleteMessage {
                                message_id,
                                branch_id,
                                message_index,
                                deleted_message,
                            } => message_id == mid && branch_id == bid && message_index == i
                                && deleted_message == m,
                            _ => false,
                        },
                        None => false,
                    }
                },
            },
        },
    }
}

/// Asks for the focused message to be deleted from the branch being shown, noting its
/// position; reports a missing focus, or the branch or message not found.
pub fn handle_delete_message(state: &mut AppState) -> (r: Option<DialogueRequest>)
    ensures
        delete_message_done(*old(state), *final(state), r),
{
    let message_id = match state.focused_message_id {
        Some(id) => id,
        None => {
            state.error_message = Some(owned("No message selected for deletion"));
            return None;
        },
    };
    let branch_id = match state.current_branch_id {
        Some(b) => b,
        None => return None,
    };
    let message_index = state.get_message_index(message_id);
    match DialogueService::delete_message(&state.dialogue, message_id, branch_id) {
        Ok(command) => Some(
            DialogueRequest { command, followup: Followup::DeleteFocused { message_id, message_index } },
        ),
        Err(e) => {
            state.error_message = Some(e);
            None
        },
    }
}

/// The clock's reading in whole seconds since 1970:
/// `SystemTime::now().duration_since(UNIX_EPOCH)`, as `Duration::as_secs` counts it;
/// `None` where the clock reads before 1970 (the `Err` of `duration_since`). Nothing is
/// stated of a reading: it is the clock's.
#[verifier::external_body]
fn seconds_since_epoch() -> Option<u64> {
    std::time::SystemTime::now().duration_since(std::time::UNIX_EPOCH).ok().map(|d| d.as_secs())
}

/// The current Unix time in seconds, when the clock reads 1970 or later and the count fits
/// in an `i64`.
fn unix_timestamp() -> (r: Option<i64>)
    ensures
        r matches Some(t) ==> t >= 0,
{
    match seconds_since_epoch() {
        Some(secs) => if secs <= i64::MAX as u64 {
            Some(secs as i64)
        } else {
            None
        },
        None => None,
    }
}

/// Whether `req` asks for a branch forked from message `mid` of branch `bid` of tree
/// `tid`, named `fork-` and the timestamp `t`.
pub open spec fn is_fork_request(req: DialogueRequest, tid: u128, bid: u128, mid: u128, t: i64) -> bool {
    &&& req.followup == Followup::Fork
    &&& req.command matches DialogueCommand::ForkBranch {
        tree_id,
        branch_id,
        from_message_id,
        new_branch_name,
    } && tree_id == tid && branch_id == bid && from_message_id == mid && new_branch_name@ == "fork-"@
        + decimal(t as int)
}

/// The request for a branch forked from a message, named after the timestamp `t`.
pub fn fork_request(tree_id: u128, branch_id: u128, message_id: u128, t: i64) -> (r: DialogueRequest)
    ensures
        is_fork_request(r, tree_id, branch_id, message_id, t),
{
    let mut new_branch_name = owned("fork-");
    push_str(&mut new_branch_name, i64_to_decimal(t).as_str());
    DialogueRequest {
        command: DialogueService::fork_branch(tree_id, branch_id, message_id, new_branch_name),
        followup: Followup::Fork,
    }
}

/// What `handle_fork_branch` leaves: from `s` to `f`, asking `r` of the dialogue engine.
/// The timestamp is the clock's reading, which is not stated; a clock that cannot be
/// read is reported.
pub open spec fn fork_branch_done(s: AppState, f: AppState, r: Option<DialogueRequest>) -> bool {
    match s.focused_message_id {
        None => r is None && with_error(
            s,
            f,
            "No message selected for forking"@,
        ),
        Some(mid) => match (s.current_tree_id, s.current_branch_id) {
            (Some(tid), Some(bid)) => match r {
                Some(req) => f == s && exists|t: i64| t >= 0 && is_fork_request(req, tid, bid, mid, t),
                None => with_error(s, f, "Failed to read the system clock for the branch name"@),
            },
            _ => r is None && f == s,
        },
    }
}

/// Asks for a new branch forked at the focused message, named after the current time;
/// reports a missing focus, or a clock that cannot be read.
pub fn handle_fork_branch(state: &mut AppState) -> (r: Option<DialogueRequest>)
    ensures
        fork_branch_done(*old(state), *final(state), r),
{
    let message_id = match state.focused_message_id {
        Some(id) => id,
        None => {
            state.error_message = Some(owned("No message selected for forking"));
            return None;
        },
    };
    match (state.current_tree_id, state.current_branch_id) {
        (Some(tree_id), Some(branch_id)) => match unix_timestamp() {
            Some(t) => Some(fork_request(tree_id, branch_id, message_id, t)),
            None => {
                state.error_message = Some(owned("Failed to read the system clock for the branch name"));
                None
            },
        },
        _ => None,
    }
}

/// What `handle_hide_message` leaves: from `s` to `f`, asking `r` of the dialogue engine.
pub open spec fn hide_message_done(s: AppState, f: AppState, r: Option<DialogueRequest>) -> bool {
    match s.focused_message_id {
        None => r is None && with_error(
            s,
            f,
            "No message selected for hiding"@,
        ),
        Some(mid) => f == s && r == Some(
            DialogueRequest {
                command: DialogueCommand::HideMessage { message_id: mid },
                followup: Followup::Hide,
            },
        ),
    }
}

/// Asks for the focused message to be hidden.
pub fn handle_hide_message(state: &mut AppState) -> (r: Option<DialogueRequest>)
    ensures
        hide_message_done(*old(state), *final(state), r),
{
    let message_id = match state.focused_message_id {
        Some(id) => id,
        None => {
            state.error_message = Some(owned("No message selected for hiding"));
            return None;
        },
    };
    Some(DialogueRequest { command: DialogueService::hide_message(message_id), followup: Followup::Hide })
}

/// What `handle_show_message` leaves: from `s` to `f`, asking `r` of the dialogue engine.
pub open spec fn show_message_done(s: AppState, f: AppState, r: Option<DialogueRequest>) -> bool {
    match s.focused_message_id {
        None => r is None && with_error(
            s,
            f,
            "No message selected for showing"@,
        ),
        Some(mid) => f == s && r == Some(
            DialogueRequest {
                command: DialogueCommand::ShowMessage { message_id: mid },
                followup: Followup::Show,
            },
        ),
    }
}

/// Asks for the focused message to be shown again.
pub fn handle_show_message(state: &mut AppState) -> (r: Option<DialogueRequest>)
    ensures
        show_message_done(*old(state), *final(state), r),
{
    let message_id = match state.focused_message_id {
        Some(id) => id,
        None => {
            state.error_message = Some(owned("No message selected for showing"));
            return None;
        },
    };
    Some(DialogueRequest { command: DialogueService::show_message(message_id), followup: Followup::Show })
}

/// Position after `i` in a cycle of `len`.
pub open spec fn next_index(i: int, len: int) -> int {
    (i + 1) % len
}

/// Position before `i` in a cycle of `len`.
pub open spec fn prev_index(i: int, len: int) -> int {
    if i == 0 {
        len - 1
    } else {
        i - 1
    }
}

/// The branch of the current tree next to (`forward`) or before the current one, going
/// round; none without a current tree, or a current branch in it.
pub open spec fn branch_step(s: AppState, forward: bool) -> Option<u128> {
    match (current_tree_of(s), s.current_branch_id) {
        (Some(t), Some(bid)) => match index_of_branch(t.branches@, bid) {
            Some(i) => Some(
                t.branches@[if forward {
                    next_index(i, t.branches@.len() as int)
                } else {
                    prev_index(i, t.branches@.len() as int)
                }].id,
            ),
            None => None,
        },
        _ => None,
    }
}

/// Position of the focused message in the branch being shown; zero when none.
pub open spec fn focused_index(s: AppState) -> int {
    match s.focused_message_id {
        Some(id) => match message_index_in_view(s, id) {
            Some(i) => i,
            None => 0,
        },
        None => 0,
    }
}

/// The state once the branch `nb` is shown, focused on its first message, and asked to
/// focus the message at the position focused before (or the last one).
pub open spec fn switched_branch(s: AppState, nb: u128) -> AppState {
    AppState {
        pending_scrolling_request: Some(
            ScrollingRequest::ScrollToMessageWithSameIndexOrLast {
                previous_index: focused_index(s) as usize,
            },
        ),
        ..reset_branch_focus(AppState { current_branch_id: Some(nb), ..s })
    }
}

/// Shows the next (`forward`) or previous branch of the tree, going round.
fn switch_branch(state: &mut AppState, forward: bool)
    ensures
        match branch_step(*old(state), forward) {
            Some(nb) => *final(state) == switched_branch(*old(state), nb),
            None => *final(state) == *old(state),
        },
{
    let next = match (state.current_tree(), state.current_branch_id) {
        (Some(tree), Some(current_branch_id)) => {
            let branches = tree.branches.as_slice();
            match find_branch_index(branches, current_branch_id) {
                Some(current_index) => {
                    let n = branches.len();
                    let target = if forward {
                        (current_index + 1) % n
                    } else if current_index == 0 {
                        n - 1
                    } else {
                        current_index - 1
                    };
                    Some(branches[target].id)
                },
                None => None,
            }
        },
        _ => None,
    };
    if let Some(next_branch_id) = next {
        let current_focused_index = match state.focused_message_id {
            Some(id) => match state.get_message_index(id) {
                Some(i) => i,
                None => 0,
            },
            None => 0,
        };
        state.current_branch_id = Some(next_branch_id);
        state.reset_focus_for_new_branch();
        state.pending_scrolling_request = Some(
            ScrollingRequest::ScrollToMessageWithSameIndexOrLast {
                previous_index: current_focused_index,
            },
        );
    }
}

/// What `handle_next_branch` leaves: from `s` to `f`.
pub open spec fn next_branch_done(s: AppState, f: AppState) -> bool {
    match branch_step(s, true) {
        Some(nb) => f == switched_branch(s, nb),
        None => f == s,
    }
}

/// Shows the next branch of the tree, going round to the first.
pub fn handle_next_branch(state: &mut AppState)
    ensures
        next_branch_done(*old(state), *final(state)),
{
    switch_branch(state, true);
}

/// What `handle_prev_branch` leaves: from `s` to `f`.
pub open spec fn prev_branch_done(s: AppState, f: AppState) -> bool {
    match branch_step(s, false) {
        Some(nb) => f == switched_branch(s, nb),
        None => f == s,
    }
}

/// Shows the previous branch of the tree, going round to the last.
pub fn handle_prev_branch(state: &mut AppState)
    ensures
        prev_branch_done(*old(state), *final(state)),
{
    switch_branch(state, false);
}

/// The tree next to (`forward`) or before the current one, going round; none without a
/// current tree identifier found among the trees.
pub open spec fn tree_step(s: AppState, forward: bool) -> Option<u128> {
    match s.current_tree_id {
        Some(tid) => match crate::dialogue::index_of_tree(s.dialogue.trees@, tid) {
            Some(i) => Some(
                s.dialogue.trees@[if forward {
                    next_index(i, s.dialogue.trees@.len() as int)
                } else {
                    prev_index(i, s.dialogue.trees@.len() as int)
                }].id,
            ),
            None => None,
        },
        None => None,
    }
}

/// The state once the tree `nt` is shown at its first branch and asked to focus its
/// last message.
pub open spec fn switched_tree(s: AppState, nt: u128) -> AppState {
    AppState {
        pending_scrolling_request: Some(ScrollingRequest::ScrollToLastMessage),
        ..reset_tree_focus(AppState { current_tree_id: Some(nt), ..s })
    }
}

/// Shows the next (`forward`) or previous tree, going round.
fn switch_tree(state: &mut AppState, forward: bool)
    ensures
        match tree_step(*old(state), forward) {
            Some(nt) => *final(state) == switched_tree(*old(state), nt),
            None => *final(state) == *old(state),
        },
{
    let next = match state.current_tree_id {
        Some(current_tree_id) => {
            let trees = state.dialogue.trees.as_slice();
            match crate::dialogue::find_tree_index(trees, current_tree_id) {
                Some(current_index) => {
                    let n = trees.len();
                    let target = if forward {
                        (current_index + 1) % n
                    } else if current_index == 0 {
                        n - 1
                    } else {
                        current_index - 1
                    };
                    Some(trees[target].id)
                },
                None => None,
            }
        },
        None => None,
    };
    if let Some(next_tree_id) = next {
        state.current_tree_id = Some(next_tree_id);
        state.reset_focus_for_new_tree();
        state.pending_scrolling_request = Some(ScrollingRequest::ScrollToLastMessage);
    }
}

/// What `handle_next_tree` leaves: from `s` to `f`.
pub open spec fn next_tree_done(s: AppState, f: AppState) -> bool {
    match tree_step(s, true) {
        Some(nt) => f == switched_tree(s, nt),
        None => f == s,
    }
}

/// Shows the next tree, going round to the first.
pub fn handle_next_tree(state: &mut AppState)
    ensures
        next_tree_done(*old(state), *final(state)),
{
    switch_tree(state, true);
}

/// What `handle_prev_tree` leaves: from `s` to `f`.
pub open spec fn prev_tree_done(s: AppState, f: AppState) -> bool {
    match tree_step(s, false) {
        Some(nt) => f == switched_tree(s, nt),
        None => f == s,
    }
}

/// Shows the previous tree, going round to the last.
pub fn handle_prev_tree(state: &mut AppState)
    ensures
        prev_tree_done(*old(state), *final(state)),
{
    switch_tree(state, false);
}

/// What a normal-mode action leaves: from `s` to `f`, asking `r` of the dialogue engine.
pub open spec fn normal_action_done(
    s: AppState,
    f: AppState,
    action: NormalModeAction,
    r: Option<DialogueRequest>,
) -> bool {
    match action {
        NormalModeAction::ScrollUp => r is None && scroll_up_done(s, f),
        NormalModeAction::ScrollDown => r is None && scroll_down_done(s, f),
        NormalModeAction::ScrollPageUp => r is None && scroll_page_up_done(s, f),
        NormalModeAction::ScrollPageDown => r is None && scroll_page_down_done(s, f),
        NormalModeAction::ScrollHalfPageUp => r is None && scroll_half_page_up_done(s, f),
        NormalModeAction::ScrollHalfPageDown => r is None && scroll_half_page_down_done(s, f),
        NormalModeAction::ScrollToTop => r is None && scroll_to_top_done(s, f),
        NormalModeAction::ScrollToBottom => r is None && scroll_to_bottom_done(s, f),
        NormalModeAction::ScrollToNextMessage => r is None && scroll_to_next_message_done(s, f),
        NormalModeAction::ScrollToPreviousMessage => r is None && scroll_to_previous_message_done(s, f),
        NormalModeAction::EnterEditMode => r is None && enter_edit_mode_done(s, f),
        NormalModeAction::EnterAppendMode => enter_append_mode_done(s, f, r),
        NormalModeAction::EnterCommandPalette => r is None && enter_command_palette_done(s, f),
        NormalModeAction::DeleteMessage => delete_message_done(s, f, r),
        NormalModeAction::ForkBranch => fork_branch_done(s, f, r),
        NormalModeAction::HideMessage => hide_message_done(s, f, r),
        NormalModeAction::ShowMessage => show_message_done(s, f, r),
        NormalModeAction::NextBranch => r is None && next_branch_done(s, f),
        NormalModeAction::PrevBranch => r is None && prev_branch_done(s, f),
        NormalModeAction::NextTree => r is None && next_tree_done(s, f),
        NormalModeAction::PrevTree => r is None && prev_tree_done(s, f),
    }
}

/// Carries out a normal-mode action; what the dialogue engine must do comes back.
pub fn handle_normal_mode_action(state: &mut AppState, action: NormalModeAction) -> (r: Option<
    DialogueRequest,
>)
    ensures
        normal_action_done(*old(state), *final(state), action, r),
{
    match action {
        NormalModeAction::ScrollUp => {
            handle_scroll_up(state);
            None
        },
        NormalModeAction::ScrollDown => {
            handle_scroll_down(state);
            None
        },
        NormalModeAction::ScrollHalfPageUp => {
            handle_scroll_half_page_up(state);
            None
        },
        NormalModeAction::ScrollHalfPageDown => {
            handle_scroll_half_page_down(state);
            None
        },
        NormalModeAction::ScrollPageUp => {
            handle_scroll_page_up(state);
            None
        },
        NormalModeAction::ScrollPageDown => {
            handle_scroll_page_down(state);
            None
        },
        NormalModeAction::ScrollToTop => {
            handle_scroll_to_top(state);
            None
        },
        NormalModeAction::ScrollToBottom => {
            handle_scroll_to_bottom(state);
            None
        },
        NormalModeAction::ScrollToNextMessage => {
            handle_scroll_to_next_message(state);
            None
        },
        NormalModeAction::ScrollToPreviousMessage => {
            handle_scroll_to_previous_message(state);
            None
        },
        NormalModeAction::EnterEditMode => {
            handle_enter_edit_mode(state);
            None
        },
        NormalModeAction::EnterAppendMode => handle_enter_append_mode(state),
        NormalModeAction::EnterCommandPalette => {
            handle_enter_command_palette(state);
            None
        },
        NormalModeAction::DeleteMessage => handle_delete_message(state),
        NormalModeAction::ForkBranch => handle_fork_branch(state),
        NormalModeAction::HideMessage => handle_hide_message(state),
        NormalModeAction::ShowMessage => handle_show_message(state),
        NormalModeAction::NextBranch => {
            handle_next_branch(state);
            None
        },
        NormalModeAction::PrevBranch => {
            handle_prev_branch(state);
            None
        },
        NormalModeAction::NextTree => {
            handle_next_tree(state);
            None
        },
        NormalModeAction::PrevTree => {
            handle_prev_tree(state);
            None
        },
    }
}

} // verus!
