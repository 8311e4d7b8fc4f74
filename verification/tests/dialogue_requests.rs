use frond_tui::actions::{NormalModeAction, UIAction};
use frond_tui::dialogue::{Branch, Dialogue, Message, Role, Tree};
use frond_tui::dialogue_service::{DialogueCommand, DialogueService};
use frond_tui::focus_resolver::ScrollingRequest;
use frond_tui::mode::Mode;
use frond_tui::normal_mode_handler::{
    handle_delete_message, handle_enter_append_mode, handle_fork_branch, handle_hide_message,
    handle_next_tree, handle_show_message,
};
use frond_tui::reducer::{complete_request, handle_redo, handle_undo, reduce, Effect, Followup, RecordedAction};
use frond_tui::state::AppState;

fn copy_dialogue(d: &Dialogue) -> Dialogue {
    Dialogue {
        name: d.name.clone(),
        trees: d
            .trees
            .iter()
            .map(|t| Tree {
                id: t.id,
                name: t.name.clone(),
                branches: t
                    .branches
                    .iter()
                    .map(|b| Branch { id: b.id, name: b.name.clone(), messages: b.messages.clone() })
                    .collect(),
            })
            .collect(),
    }
}

fn without_message(d: &Dialogue, id: u128) -> Dialogue {
    let mut r = copy_dialogue(d);
    for t in r.trees.iter_mut() {
        for b in t.branches.iter_mut() {
            b.messages.retain(|m| m.id != id);
        }
    }
    r
}

fn ids(state: &AppState) -> Vec<u128> {
    state.current_messages().iter().map(|m| m.id).collect()
}

#[test]
fn delete_without_focus_is_reported() {
    let mut state = AppState::default();
    let r = handle_delete_message(&mut state);
    assert!(r.is_none());
    assert_eq!(state.error_message.as_deref(), Some("No message selected for deletion"));
}

#[test]
fn delete_asks_for_the_focused_message() {
    let mut state = AppState::default();
    let ids = ids(&state);
    state.focused_message_id = Some(ids[2]);
    let branch = state.current_branch_id.unwrap();
    let req = handle_delete_message(&mut state).expect("a request");
    match &req.command {
        DialogueCommand::DeleteMessage { message_id, branch_id, message_index, deleted_message } => {
            assert_eq!(*message_id, ids[2]);
            assert_eq!(*branch_id, branch);
            assert_eq!(*message_index, 2);
            assert_eq!(deleted_message.id, ids[2]);
            assert_eq!(deleted_message.role, Role::Assistant);
        }
        other => panic!("unexpected command {:?}", other),
    }
    assert_eq!(req.followup, Followup::DeleteFocused { message_id: ids[2], message_index: Some(2) });
    assert!(state.error_message.is_none());
}

#[test]
fn deleted_message_moves_focus_to_the_next() {
    let mut state = AppState::default();
    let ids = ids(&state);
    state.focused_message_id = Some(ids[2]);
    let req = handle_delete_message(&mut state).unwrap();
    let after = without_message(&state.dialogue, ids[2]);
    state.cache_height(ids[2], 80, 9);
    complete_request(&mut state, req, Ok(None), after);
    assert_eq!(state.current_messages().len(), 6);
    assert_eq!(state.focused_message_id, Some(ids[3]));
    assert_eq!(state.get_cached_height(ids[2], 80), None);
}

#[test]
fn deleting_the_last_message_focuses_the_one_before() {
    let mut state = AppState::default();
    let ids = ids(&state);
    state.focused_message_id = Some(ids[6]);
    let req = handle_delete_message(&mut state).unwrap();
    let after = without_message(&state.dialogue, ids[6]);
    complete_request(&mut state, req, Ok(None), after);
    assert_eq!(state.focused_message_id, Some(ids[5]));
}

#[test]
fn failed_delete_is_reported() {
    let mut state = AppState::default();
    let ids = ids(&state);
    state.focused_message_id = Some(ids[1]);
    let req = handle_delete_message(&mut state).unwrap();
    let same = copy_dialogue(&state.dialogue);
    complete_request(&mut state, req, Err("boom".to_string()), same);
    assert_eq!(state.error_message.as_deref(), Some("Failed to delete message: boom"));
    assert_eq!(state.focused_message_id, Some(ids[1]));
}

#[test]
fn delete_of_unknown_branch_names_it() {
    let state = AppState::default();
    let r = DialogueService::delete_message(&state.dialogue, 7, 0);
    assert_eq!(r.unwrap_err(), "Branch with id 00000000-0000-0000-0000-000000000000 not found");
}

#[test]
fn delete_of_unknown_message_names_it() {
    let state = AppState::default();
    let branch = state.current_branch_id.unwrap();
    let r = DialogueService::delete_message(&state.dialogue, 0xabc, branch);
    assert_eq!(r.unwrap_err(), "Message with id 00000000-0000-0000-0000-000000000abc not found in branch");
}

#[test]
fn fork_is_named_after_the_time() {
    let mut state = AppState::default();
    let ids = ids(&state);
    state.focused_message_id = Some(ids[3]);
    let tree = state.current_tree_id.unwrap();
    let branch = state.current_branch_id.unwrap();
    let req = handle_fork_branch(&mut state).unwrap();
    assert_eq!(req.followup, Followup::Fork);
    match req.command {
        DialogueCommand::ForkBranch { tree_id, branch_id, from_message_id, new_branch_name } => {
            assert_eq!(tree_id, tree);
            assert_eq!(branch_id, branch);
            assert_eq!(from_message_id, ids[3]);
            assert!(new_branch_name.starts_with("fork-"));
            let digits = &new_branch_name["fork-".len()..];
            assert!(!digits.is_empty());
            assert!(digits.chars().all(|c| c.is_ascii_digit()));
        }
        other => panic!("unexpected command {:?}", other),
    }
}

#[test]
fn fork_without_focus_is_reported() {
    let mut state = AppState::default();
    assert!(handle_fork_branch(&mut state).is_none());
    assert_eq!(state.error_message.as_deref(), Some("No message selected for forking"));
}

#[test]
fn hide_and_show_ask_for_the_focused_message() {
    let mut state = AppState::default();
    let ids = ids(&state);
    assert!(handle_hide_message(&mut state).is_none());
    assert_eq!(state.error_message.as_deref(), Some("No message selected for hiding"));
    state.error_message = None;
    assert!(handle_show_message(&mut state).is_none());
    assert_eq!(state.error_message.as_deref(), Some("No message selected for showing"));
    state.error_message = None;
    state.focused_message_id = Some(ids[0]);
    let hide = handle_hide_message(&mut state).unwrap();
    assert!(matches!(hide.command, DialogueCommand::HideMessage { message_id } if message_id == ids[0]));
    assert_eq!(hide.followup, Followup::Hide);
    let show = handle_show_message(&mut state).unwrap();
    assert!(matches!(show.command, DialogueCommand::ShowMessage { message_id } if message_id == ids[0]));
    assert_eq!(show.followup, Followup::Show);
}

#[test]
fn failed_hide_is_reported() {
    let mut state = AppState::default();
    let ids = ids(&state);
    state.focused_message_id = Some(ids[0]);
    let hide = handle_hide_message(&mut state).unwrap();
    let same = copy_dialogue(&state.dialogue);
    complete_request(&mut state, hide, Err("locked".to_string()), same);
    assert_eq!(state.error_message.as_deref(), Some("Failed to hide message: locked"));
}

#[test]
fn append_after_assistant_asks_for_a_new_message() {
    let mut state = AppState::default();
    let branch = state.current_branch_id.unwrap();
    let req = handle_enter_append_mode(&mut state).unwrap();
    assert_eq!(req.followup, Followup::AppendNew);
    match &req.command {
        DialogueCommand::AppendMessage { branch_id, message_content } => {
            assert_eq!(*branch_id, branch);
            assert_eq!(message_content, "");
        }
        other => panic!("unexpected command {:?}", other),
    }
    assert_eq!(state.mode, Mode::Normal);
}

#[test]
fn appended_message_is_edited_once_it_exists() {
    let mut state = AppState::default();
    let req = handle_enter_append_mode(&mut state).unwrap();
    let mut after = copy_dialogue(&state.dialogue);
    after.trees[0].branches[0].messages.push(Message { id: 4242, content: String::new(), role: Role::User });
    complete_request(&mut state, req, Ok(None), after);
    assert_eq!(state.mode, Mode::Edit);
    assert_eq!(state.focused_message_id, Some(4242));
    assert_eq!(state.pending_scrolling_request, Some(ScrollingRequest::ScrollToBottom));
    let editor = state.edit_textarea.as_ref().expect("an editor");
    assert_eq!(editor.inner.lines(), [String::new()]);
}

#[test]
fn append_after_user_message_continues_it() {
    let mut state = AppState::default();
    handle_next_tree(&mut state);
    state.dialogue.trees[1].branches[0].messages.pop();
    let last = state.current_messages().last().unwrap().id;
    let content = state.current_messages().last().unwrap().content.clone();
    let r = handle_enter_append_mode(&mut state);
    assert!(r.is_none());
    assert_eq!(state.mode, Mode::Edit);
    assert_eq!(state.focused_message_id, Some(last));
    let editor = state.edit_textarea.as_ref().unwrap();
    assert_eq!(editor.inner.lines().join("\n"), content);
    let (row, col) = editor.inner.cursor();
    assert_eq!(row, editor.inner.lines().len() - 1);
    assert_eq!(col, editor.inner.lines()[row].chars().count());
}


#[test]
fn failed_append_is_reported() {
    let mut state = AppState::default();
    let req = handle_enter_append_mode(&mut state).unwrap();
    let same = copy_dialogue(&state.dialogue);
    complete_request(&mut state, req, Err("full".to_string()), same);
    assert_eq!(
        state.error_message.as_deref(),
        Some("Failed to create new message: Failed to append message: full")
    );
    assert_eq!(state.mode, Mode::Normal);
}

#[test]
fn undo_and_redo_ask_the_engine() {
    assert!(matches!(handle_undo().command, DialogueCommand::Undo));
    assert_eq!(handle_undo().followup, Followup::Undo);
    assert!(matches!(handle_redo().command, DialogueCommand::Redo));
    assert_eq!(handle_redo().followup, Followup::Redo);
}

#[test]
fn undone_deletion_invalidates_caches() {
    let mut state = AppState::default();
    let ids = ids(&state);
    state.cache_height(ids[1], 40, 5);
    state.cache_height(ids[2], 40, 6);
    let same = copy_dialogue(&state.dialogue);
    complete_request(
        &mut state,
        handle_undo(),
        Ok(Some(RecordedAction::DeleteMessage { message_id: ids[1] })),
        same,
    );
    assert_eq!(state.get_cached_height(ids[1], 40), None);
    assert_eq!(state.get_cached_height(ids[2], 40), Some(6));
}

#[test]
fn failed_undo_is_reported() {
    let mut state = AppState::default();
    let same = copy_dialogue(&state.dialogue);
    complete_request(&mut state, handle_undo(), Err("nothing to undo".to_string()), same);
    assert_eq!(state.error_message.as_deref(), Some("Failed to undo: nothing to undo"));
}

#[test]
fn reduce_hands_deletion_to_the_engine() {
    let mut state = AppState::default();
    let ids = ids(&state);
    state.focused_message_id = Some(ids[4]);
    let effect = reduce(&mut state, UIAction::NormalMode(NormalModeAction::DeleteMessage));
    match effect {
        Effect::Dialogue(req) => {
            assert!(matches!(req.command, DialogueCommand::DeleteMessage { message_index: 4, .. }));
        }
        other => panic!("unexpected effect {:?}", other),
    }
}

#[test]
fn failure_texts_name_the_operation() {
    assert_eq!(DialogueService::failure(&DialogueCommand::Redo, "x"), "Failed to redo: x");
    let edit = DialogueService::edit_message(&AppState::default().dialogue, 1, "new".to_string());
    assert_eq!(DialogueService::failure(&edit, "y"), "Failed to edit message: y");
    let fork = DialogueService::fork_branch(1, 2, 3, "f".to_string());
    assert_eq!(DialogueService::failure(&fork, "z"), "Failed to fork branch: z");
}

#[test]
fn edit_command_keeps_the_old_content() {
    let state = AppState::default();
    let first = &state.current_messages()[0];
    let cmd = DialogueService::edit_message(&state.dialogue, first.id, "changed".to_string());
    match cmd {
        DialogueCommand::EditMessage { message_id, old_content, new_content } => {
            assert_eq!(message_id, first.id);
            assert_eq!(old_content, "Hello! How can I help you today?");
            assert_eq!(new_content, "changed");
        }
        other => panic!("unexpected command {:?}", other),
    }
}

#[test]
fn identifiers_are_written_as_uuid_writes_them() {
    let state = AppState::default();
    for id in [0x0123_4567_89ab_cdef_fedc_ba98_7654_3210u128, u128::MAX, 1] {
        let e = DialogueService::delete_message(&state.dialogue, 7, id).unwrap_err();
        assert_eq!(e, format!("Branch with id {} not found", uuid::Uuid::from_u128(id)));
    }
}

#[test]
fn fork_request_is_named_after_the_timestamp() {
    let req = frond_tui::normal_mode_handler::fork_request(1, 2, 3, 1700000000);
    assert_eq!(req.followup, Followup::Fork);
    match req.command {
        DialogueCommand::ForkBranch { tree_id, branch_id, from_message_id, new_branch_name } => {
            assert_eq!((tree_id, branch_id, from_message_id), (1, 2, 3));
            assert_eq!(new_branch_name, "fork-1700000000");
        }
        other => panic!("unexpected command {:?}", other),
    }
}
