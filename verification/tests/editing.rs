use frond_tui::actions::{EditModeAction, UIAction};
use frond_tui::dialogue_service::DialogueCommand;
use frond_tui::edit_mode_handler::{
    handle_copy, handle_cut, handle_delete_char, handle_edit_mode_action, handle_edit_mode_raw_input,
    handle_exit_current_mode, handle_insert_newline, handle_move_cursor_end, handle_move_cursor_head,
    handle_paste, handle_select_all, handle_select_back, handle_submit_message, handle_undo,
    report_clipboard_failure, ClipboardOperation,
};
use frond_tui::editor::TextBuffer;
use frond_tui::focus_resolver::ScrollingRequest;
use frond_tui::keys::{KeyChord, KeyCode, KeyModifiers};
use frond_tui::mode::Mode;
use frond_tui::reducer::{complete_request, reduce, Effect, Followup};
use frond_tui::state::AppState;
use tui_textarea::TextArea;
use frond_tui::edit_view::initialize_from_message;
use frond_tui::edit_view::calculate_display_height;
use frond_tui::edit_view::{get_edit_context, ContextError};
use frond_tui::dialogue::Role;
use frond_tui::edit_view::{append_mode_areas, layout_history_excluding_message};
use frond_tui::layout::Rect;
use frond_tui::edit_view::fitted_display_height;

fn editing(lines: &[&str]) -> AppState {
    let mut state = AppState::default();
    let id = state.current_messages()[1].id;
    state.focused_message_id = Some(id);
    state.pending_scrolling_request = None;
    state.mode = Mode::Edit;
    let inner = TextArea::new(lines.iter().map(|l| l.to_string()).collect());
    state.edit_textarea = Some(TextBuffer { inner });
    state
}

fn lines(state: &AppState) -> Vec<String> {
    state.edit_textarea.as_ref().unwrap().inner.lines().to_vec()
}

#[test]
fn typed_keys_go_into_the_editor() {
    let mut state = editing(&[""]);
    handle_edit_mode_raw_input(&mut state, KeyChord::char('h'));
    handle_edit_mode_raw_input(&mut state, KeyChord::char('i'));
    assert_eq!(lines(&state), vec!["hi".to_string()]);
    handle_insert_newline(&mut state);
    handle_edit_mode_raw_input(&mut state, KeyChord::char('!'));
    assert_eq!(lines(&state), vec!["hi".to_string(), "!".to_string()]);
    handle_delete_char(&mut state);
    assert_eq!(lines(&state), vec!["hi".to_string(), String::new()]);
}

#[test]
fn raw_input_without_editor_changes_nothing() {
    let mut state = AppState::default();
    handle_edit_mode_raw_input(&mut state, KeyChord::char('x'));
    assert!(state.edit_textarea.is_none());
    assert!(state.error_message.is_none());
}

#[test]
fn operations_without_editor_are_reported() {
    let mut state = AppState::default();
    handle_insert_newline(&mut state);
    assert_eq!(state.error_message.as_deref(), Some("No textarea available"));
}

#[test]
fn undo_takes_back_typing() {
    let mut state = editing(&[""]);
    handle_edit_mode_raw_input(&mut state, KeyChord::char('a'));
    handle_undo(&mut state);
    assert_eq!(lines(&state), vec![String::new()]);
}

#[test]
fn select_all_then_copy_gives_the_whole_text() {
    let mut state = editing(&["first line", "second"]);
    handle_select_all(&mut state);
    let copied = handle_copy(&mut state);
    assert_eq!(copied.as_deref(), Some("first line\nsecond"));
    assert_eq!(lines(&state), vec!["first line".to_string(), "second".to_string()]);
}

#[test]
fn copy_without_selection_gives_nothing() {
    let mut state = editing(&["text"]);
    assert_eq!(handle_copy(&mut state), None);
}

#[test]
fn cut_removes_the_selection() {
    let mut state = editing(&["hello world"]);
    handle_move_cursor_end(&mut state);
    for _ in 0..5 {
        handle_select_back(&mut state);
    }
    let cut = handle_cut(&mut state);
    assert_eq!(cut.as_deref(), Some("world"));
    assert_eq!(lines(&state), vec!["hello ".to_string()]);
}

#[test]
fn reduce_copy_hands_text_to_the_clipboard() {
    let mut state = editing(&["abc"]);
    handle_select_all(&mut state);
    let effect = reduce(&mut state, UIAction::EditMode(EditModeAction::Copy));
    match effect {
        Effect::Clipboard { operation, text } => {
            assert_eq!(operation, ClipboardOperation::Copy);
            assert_eq!(text, "abc");
        }
        other => panic!("unexpected effect {:?}", other),
    }
}

#[test]
fn reduce_paste_reads_the_clipboard() {
    let mut state = editing(&[""]);
    let effect = handle_edit_mode_action(&mut state, EditModeAction::Paste);
    assert!(matches!(effect, Effect::ReadClipboard));
}

#[test]
fn pasted_desktop_text_is_inserted() {
    let mut state = editing(&[""]);
    handle_paste(&mut state, Some("pasted\ntext".to_string()));
    assert_eq!(lines(&state), vec!["pasted".to_string(), "text".to_string()]);
}

#[test]
fn unreadable_clipboard_pastes_the_yank_buffer() {
    let mut state = editing(&["word"]);
    handle_select_all(&mut state);
    handle_cut(&mut state);
    assert_eq!(lines(&state), vec![String::new()]);
    handle_paste(&mut state, None);
    assert_eq!(lines(&state), vec!["word".to_string()]);
}

#[test]
fn clipboard_failure_is_reported() {
    let mut state = editing(&[""]);
    report_clipboard_failure(&mut state, ClipboardOperation::Cut, "no display");
    assert_eq!(state.error_message.as_deref(), Some("Failed to cut to clipboard: no display"));
}

#[test]
fn escape_first_drops_the_selection() {
    let mut state = editing(&["abc"]);
    handle_select_all(&mut state);
    let r = handle_exit_current_mode(&mut state);
    assert!(r.is_none());
    assert_eq!(state.mode, Mode::Edit);
    assert!(!state.edit_textarea.as_ref().unwrap().inner.is_selecting());
}

#[test]
fn leaving_with_text_saves_it_trimmed() {
    let mut state = editing(&["  new text", "more  "]);
    let id = state.focused_message_id.unwrap();
    let req = handle_exit_current_mode(&mut state).expect("a save");
    match &req.command {
        DialogueCommand::EditMessage { message_id, old_content, new_content } => {
            assert_eq!(*message_id, id);
            assert!(old_content.starts_with("I need help understanding Rust's ownership system."));
            assert_eq!(new_content, "new text\nmore");
        }
        other => panic!("unexpected command {:?}", other),
    }
    assert_eq!(req.followup, Followup::ExitEditUpdate { message_id: id, is_append_mode: false });
    assert_eq!(state.mode, Mode::Edit);
}

#[test]
fn saved_edit_returns_to_normal_mode() {
    let mut state = editing(&["changed"]);
    let id = state.focused_message_id.unwrap();
    state.cache_height(id, 50, 7);
    let req = handle_exit_current_mode(&mut state).unwrap();
    let d = std::mem::replace(&mut state.dialogue, frond_tui::test_data::create_test_dialogue());
    complete_request(&mut state, req, Ok(None), d);
    assert_eq!(state.mode, Mode::Normal);
    assert!(state.edit_textarea.is_none());
    assert_eq!(state.pending_scrolling_request, Some(ScrollingRequest::ScrollToMessage(id)));
    assert_eq!(state.get_cached_height(id, 50), None);
}

#[test]
fn leaving_empty_asks_to_delete_the_message() {
    let mut state = editing(&["   ", ""]);
    let id = state.focused_message_id.unwrap();
    let req = handle_exit_current_mode(&mut state).expect("a deletion");
    assert!(matches!(req.command, DialogueCommand::DeleteMessage { message_id, message_index: 1, .. } if message_id == id));
    assert_eq!(req.followup, Followup::ExitEditDelete { message_id: id, is_append_mode: false });
}

#[test]
fn failed_save_is_reported() {
    let mut state = editing(&["x"]);
    let req = handle_exit_current_mode(&mut state).unwrap();
    let d = std::mem::replace(&mut state.dialogue, frond_tui::test_data::create_test_dialogue());
    complete_request(&mut state, req, Err("disk".to_string()), d);
    assert_eq!(
        state.error_message.as_deref(),
        Some("Failed to save message: Failed to edit message: disk")
    );
    assert_eq!(state.mode, Mode::Edit);
}

#[test]
fn submit_is_not_there_yet() {
    let mut state = editing(&[""]);
    handle_submit_message(&mut state);
    assert_eq!(state.error_message.as_deref(), Some("Submit message action is not implemented yet"));
}

#[test]
fn move_in_viewport_is_not_there_yet() {
    let mut state = editing(&[""]);
    let effect = handle_edit_mode_action(&mut state, EditModeAction::MoveCursorInViewport);
    assert!(matches!(effect, Effect::Nothing));
    assert_eq!(state.error_message.as_deref(), Some("Action MoveCursorInViewport not implemented yet"));
}

#[test]
fn cursor_moves_to_head_and_end() {
    let mut state = editing(&["abcdef"]);
    handle_move_cursor_end(&mut state);
    assert_eq!(state.edit_textarea.as_ref().unwrap().inner.cursor(), (0, 6));
    handle_move_cursor_head(&mut state);
    assert_eq!(state.edit_textarea.as_ref().unwrap().inner.cursor(), (0, 0));
}

#[test]
fn ctrl_keys_are_typed_as_chords() {
    let mut state = editing(&["ab"]);
    handle_move_cursor_end(&mut state);
    let backspace = KeyChord::new(KeyCode::Backspace, KeyModifiers::none());
    handle_edit_mode_raw_input(&mut state, backspace);
    assert_eq!(lines(&state), vec!["a".to_string()]);
}

#[test]
fn editor_is_loaded_wrapped_with_the_cursor_at_the_start() {
    let mut state = AppState::default();
    let message = state.current_messages()[1].clone();
    state.focused_message_id = Some(message.id);
    state.mode = Mode::Edit;
    initialize_from_message(&mut state, 40);
    let expected: Vec<String> = message
        .content
        .lines()
        .flat_map(|l| {
            if l.is_empty() {
                vec![String::new()]
            } else {
                textwrap::wrap(l, 36).into_iter().map(|p| p.to_string()).collect()
            }
        })
        .collect();
    assert!(expected.len() > 1);
    assert_eq!(lines(&state), expected);
    assert_eq!(state.edit_textarea.as_ref().unwrap().inner.cursor(), (0, 0));
}

#[test]
fn loading_without_focus_is_reported() {
    let mut state = AppState::default();
    initialize_from_message(&mut state, 40);
    assert!(state.edit_textarea.is_none());
    assert_eq!(state.error_message.as_deref(), Some("No message selected for editing"));
}

#[test]
fn editor_height_counts_wrapped_rows_and_borders() {
    let buffer = TextBuffer { inner: TextArea::new(vec!["abcdefgh".to_string(), String::new()]) };
    assert_eq!(calculate_display_height(&buffer, 6), 5);
    assert_eq!(calculate_display_height(&buffer, 4), 4);
}

#[test]
fn edit_context_tells_append_mode() {
    let mut state = editing(&["x"]);
    let id = state.focused_message_id.unwrap();
    let context = get_edit_context(&state, id).unwrap();
    assert!(!context.is_append_mode);
    assert_eq!(context.message_role, Role::User);
    assert_eq!(get_edit_context(&state, 777), Err(ContextError::MessageNotFound));
    state.current_branch_id = None;
    assert_eq!(get_edit_context(&state, id), Err(ContextError::NoBranch));
}

#[test]
fn append_areas_follow_the_wrapped_lines() {
    let lines = vec!["a".repeat(25), String::new()];
    let areas = append_mode_areas(Rect { x: 0, y: 0, width: 22, height: 10 }, &lines);
    assert_eq!(areas.history, Rect { x: 0, y: 0, width: 22, height: 5 });
    assert_eq!(areas.textarea, Rect { x: 0, y: 5, width: 22, height: 5 });
    assert_eq!(areas.textarea_growth, 2);
    let tall = append_mode_areas(Rect { x: 0, y: 0, width: 22, height: 3 }, &lines);
    assert_eq!(tall.history.height, 0);
    assert_eq!(tall.textarea, Rect { x: 0, y: 0, width: 22, height: 3 });
}

#[test]
fn history_leaves_out_the_edited_message() {
    let state = AppState::default();
    let first = state.current_messages()[0].id;
    let area = Rect { x: 0, y: 2, width: 60, height: 15 };
    let history = layout_history_excluding_message(&state, area, first);
    assert_eq!(history.messages.len(), 6);
    assert!(history.messages.iter().all(|m| m.id != first));
    assert!(!history.placements.is_empty());
    let last = history.placements.last().unwrap();
    assert_eq!(last.message_index, 5);
    assert_eq!(last.area.y + last.area.height, area.y + area.height);
    for p in &history.placements {
        assert!(p.area.y >= area.y && p.area.y + p.area.height <= area.y + area.height);
    }
}

#[test]
fn editor_height_is_refused_without_width_to_wrap() {
    let buffer = TextBuffer { inner: TextArea::new(vec!["abcdefgh".to_string(), String::new()]) };
    assert_eq!(fitted_display_height(&buffer, 6), Some(5));
    assert_eq!(fitted_display_height(&buffer, 2), None);
    let empty = TextBuffer { inner: TextArea::new(vec![String::new()]) };
    assert_eq!(fitted_display_height(&empty, 2), Some(2));
}

#[test]
fn escape_with_selection_keeps_the_text() {
    let mut state = editing(&["one", "two"]);
    handle_select_all(&mut state);
    assert!(handle_exit_current_mode(&mut state).is_none());
    assert_eq!(lines(&state), vec!["one".to_string(), "two".to_string()]);
    assert!(!state.edit_textarea.as_ref().unwrap().inner.is_selecting());
    assert_eq!(state.mode, Mode::Edit);
}

