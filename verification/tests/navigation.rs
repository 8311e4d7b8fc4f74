use frond_tui::actions::{CommonAction, NormalModeAction, UIAction};
use frond_tui::focus_resolver::ScrollingRequest;
use frond_tui::mode::Mode;
use frond_tui::normal_mode_handler::{
    handle_enter_command_palette, handle_enter_edit_mode, handle_next_branch, handle_next_tree,
    handle_prev_branch, handle_prev_tree, handle_scroll_down, handle_scroll_to_bottom,
    handle_scroll_to_next_message, handle_scroll_to_previous_message, handle_scroll_to_top,
    handle_scroll_up,
};
use frond_tui::reducer::{reduce, Effect};
use frond_tui::state::AppState;
use frond_tui::normal_view::resolve_pending_focus_request_handler;
use frond_tui::layout::Rect;
use frond_tui::message_renderer::render_messages;
use frond_tui::normal_view::{scroll_state_allowed_check, update_focus_and_scroll_state};

fn branch_name(state: &AppState) -> String {
    state.current_branch().map(|b| b.name.clone()).unwrap_or_default()
}

fn tree_name(state: &AppState) -> String {
    state.current_tree().map(|t| t.name.clone()).unwrap_or_default()
}

#[test]
fn default_state_shows_first_branch_of_first_tree() {
    let state = AppState::default();
    assert_eq!(state.mode, Mode::Normal);
    assert_eq!(tree_name(&state), "Rust Ownership Discussion");
    assert_eq!(branch_name(&state), "main");
    assert_eq!(state.current_messages().len(), 7);
    assert_eq!(state.focused_message_id, None);
    assert_eq!(state.scroll_offset, 0);
    assert_eq!(state.pending_scrolling_request, Some(ScrollingRequest::ScrollToLastMessage));
    assert!(state.error_message.is_none());
    assert!(state.edit_textarea.is_none());
    assert_eq!(state.dialogue.name, "Programming Help Sessions");
    assert_eq!(state.dialogue.trees.len(), 2);
}

#[test]
fn next_branch_goes_round_the_tree() {
    let mut state = AppState::default();
    handle_next_branch(&mut state);
    assert_eq!(branch_name(&state), "lifetimes-focus");
    let first = state.current_messages()[0].id;
    assert_eq!(state.focused_message_id, Some(first));
    assert_eq!(
        state.pending_scrolling_request,
        Some(ScrollingRequest::ScrollToMessageWithSameIndexOrLast { previous_index: 0 })
    );
    handle_next_branch(&mut state);
    assert_eq!(branch_name(&state), "async-ownership");
    handle_next_branch(&mut state);
    assert_eq!(branch_name(&state), "main");
}

#[test]
fn prev_branch_from_first_goes_to_last() {
    let mut state = AppState::default();
    handle_prev_branch(&mut state);
    assert_eq!(branch_name(&state), "async-ownership");
}

#[test]
fn next_then_prev_branch_comes_back() {
    let mut state = AppState::default();
    let start = state.current_branch_id;
    handle_next_branch(&mut state);
    assert_ne!(state.current_branch_id, start);
    handle_prev_branch(&mut state);
    assert_eq!(state.current_branch_id, start);
}

#[test]
fn next_branch_keeps_focused_position_request() {
    let mut state = AppState::default();
    let third = state.current_messages()[2].id;
    state.focused_message_id = Some(third);
    handle_next_branch(&mut state);
    assert_eq!(
        state.pending_scrolling_request,
        Some(ScrollingRequest::ScrollToMessageWithSameIndexOrLast { previous_index: 2 })
    );
    assert_eq!(state.scroll_offset, 0);
}

#[test]
fn next_tree_shows_its_first_branch() {
    let mut state = AppState::default();
    handle_next_tree(&mut state);
    assert_eq!(tree_name(&state), "Error Handling");
    assert_eq!(branch_name(&state), "main");
    assert_eq!(state.current_messages().len(), 4);
    let first = state.current_messages()[0].id;
    assert_eq!(state.focused_message_id, Some(first));
    handle_next_tree(&mut state);
    assert_eq!(tree_name(&state), "Rust Ownership Discussion");
}

#[test]
fn prev_tree_goes_round() {
    let mut state = AppState::default();
    handle_prev_tree(&mut state);
    assert_eq!(tree_name(&state), "Error Handling");
    handle_prev_tree(&mut state);
    assert_eq!(tree_name(&state), "Rust Ownership Discussion");
}

#[test]
fn next_then_prev_tree_comes_back() {
    let mut state = AppState::default();
    let start = state.current_tree_id;
    handle_next_tree(&mut state);
    handle_prev_tree(&mut state);
    assert_eq!(state.current_tree_id, start);
}

#[test]
fn scroll_up_and_down_move_one_row() {
    let mut state = AppState::default();
    state.scroll_offset = 5;
    handle_scroll_up(&mut state);
    assert_eq!(state.scroll_offset, 4);
    handle_scroll_down(&mut state);
    handle_scroll_down(&mut state);
    assert_eq!(state.scroll_offset, 6);
}

#[test]
fn scroll_up_then_down_is_unchanged() {
    let mut state = AppState::default();
    state.scroll_offset = -3;
    handle_scroll_up(&mut state);
    handle_scroll_down(&mut state);
    assert_eq!(state.scroll_offset, -3);
}

#[test]
fn scroll_stops_at_the_extremes() {
    let mut state = AppState::default();
    state.scroll_offset = isize::MIN;
    handle_scroll_up(&mut state);
    assert_eq!(state.scroll_offset, isize::MIN);
    state.scroll_offset = isize::MAX;
    handle_scroll_down(&mut state);
    assert_eq!(state.scroll_offset, isize::MAX);
}

#[test]
fn scroll_to_top_and_bottom_ask_for_them() {
    let mut state = AppState::default();
    handle_scroll_to_top(&mut state);
    assert_eq!(state.pending_scrolling_request, Some(ScrollingRequest::ScrollToTop));
    handle_scroll_to_bottom(&mut state);
    assert_eq!(state.pending_scrolling_request, Some(ScrollingRequest::ScrollToBottom));
}

#[test]
fn next_and_previous_message_ask_for_neighbours() {
    let mut state = AppState::default();
    state.pending_scrolling_request = None;
    let ids: Vec<u128> = state.current_messages().iter().map(|m| m.id).collect();
    state.focused_message_id = Some(ids[3]);
    handle_scroll_to_next_message(&mut state);
    assert_eq!(state.pending_scrolling_request, Some(ScrollingRequest::ScrollToMessage(ids[4])));
    handle_scroll_to_previous_message(&mut state);
    assert_eq!(state.pending_scrolling_request, Some(ScrollingRequest::ScrollToMessage(ids[2])));
}

#[test]
fn no_message_after_the_last_or_before_the_first() {
    let mut state = AppState::default();
    state.pending_scrolling_request = None;
    let ids: Vec<u128> = state.current_messages().iter().map(|m| m.id).collect();
    state.focused_message_id = Some(ids[6]);
    handle_scroll_to_next_message(&mut state);
    assert_eq!(state.pending_scrolling_request, None);
    state.focused_message_id = Some(ids[0]);
    handle_scroll_to_previous_message(&mut state);
    assert_eq!(state.pending_scrolling_request, None);
}

#[test]
fn enter_edit_mode_needs_a_focused_message() {
    let mut state = AppState::default();
    handle_enter_edit_mode(&mut state);
    assert_eq!(state.mode, Mode::Normal);
    assert_eq!(state.error_message.as_deref(), Some("No message selected for editing"));
}

#[test]
fn enter_edit_mode_centres_the_focused_message() {
    let mut state = AppState::default();
    let id = state.current_messages()[1].id;
    state.focused_message_id = Some(id);
    handle_enter_edit_mode(&mut state);
    assert_eq!(state.mode, Mode::Edit);
    assert_eq!(state.pending_scrolling_request, Some(ScrollingRequest::ScrollToMessage(id)));
    assert!(state.error_message.is_none());
}

#[test]
fn command_palette_is_not_there_yet() {
    let mut state = AppState::default();
    handle_enter_command_palette(&mut state);
    assert_eq!(state.error_message.as_deref(), Some("Command palette not implemented yet"));
}

#[test]
fn show_help_reports_missing_help() {
    let mut state = AppState::default();
    let effect = reduce(&mut state, UIAction::Common(CommonAction::ShowHelp(Mode::Normal)));
    assert!(matches!(effect, Effect::Nothing));
    assert_eq!(state.error_message.as_deref(), Some("Help system not implemented yet"));
}

#[test]
fn quit_leaves_the_state_alone() {
    let mut state = AppState::default();
    let effect = reduce(&mut state, UIAction::Common(CommonAction::Quit));
    assert!(matches!(effect, Effect::Nothing));
    assert!(state.error_message.is_none());
    assert_eq!(state.mode, Mode::Normal);
}

#[test]
fn reduce_dispatches_normal_mode_actions() {
    let mut state = AppState::default();
    let effect = reduce(&mut state, UIAction::NormalMode(NormalModeAction::NextTree));
    assert!(matches!(effect, Effect::Nothing));
    assert_eq!(tree_name(&state), "Error Handling");
}

#[test]
fn prev_then_next_tree_comes_back() {
    let mut state = AppState::default();
    let start = state.current_tree_id;
    handle_prev_tree(&mut state);
    assert_ne!(state.current_tree_id, start);
    handle_next_tree(&mut state);
    assert_eq!(state.current_tree_id, start);
}

#[test]
fn focusing_a_message_shows_its_branch() {
    let mut state = AppState::default();
    let target = state.dialogue.trees[1].branches[0].messages[2].id;
    state.focus_message(target);
    assert_eq!(tree_name(&state), "Error Handling");
    assert!(state.current_messages().iter().any(|m| m.id == target));
    assert_eq!(state.pending_scrolling_request, Some(ScrollingRequest::ScrollToMessage(target)));
}

#[test]
fn focusing_an_unknown_message_only_asks_for_it() {
    let mut state = AppState::default();
    let branch = state.current_branch_id;
    state.focus_message(12345);
    assert_eq!(state.current_branch_id, branch);
    assert_eq!(state.pending_scrolling_request, Some(ScrollingRequest::ScrollToMessage(12345)));
}

#[test]
fn pending_request_focuses_the_last_message() {
    let mut state = AppState::default();
    let last = state.current_messages().last().unwrap().id;
    resolve_pending_focus_request_handler(&mut state, 20, 76);
    assert_eq!(state.pending_scrolling_request, None);
    assert_eq!(state.focused_message_id, Some(last));
}

#[test]
fn visible_messages_lie_inside_the_content_area() {
    let mut state = AppState::default();
    resolve_pending_focus_request_handler(&mut state, 20, 76);
    let area = Rect { x: 0, y: 3, width: 76, height: 20 };
    let slots = render_messages(&state, area);
    assert!(!slots.is_empty());
    assert!(slots.iter().any(|s| s.message_index == 6));
    for s in &slots {
        assert!(s.area.y >= area.y);
        assert!(s.area.y + s.area.height <= area.y + area.height);
        assert!(s.area.height > 0);
    }
}

#[test]
fn caches_are_filled_for_the_branch() {
    let mut state = AppState::default();
    state.populate_caches_for_current_branch(60);
    let ids: Vec<u128> = state.current_messages().iter().map(|m| m.id).collect();
    for id in ids {
        assert!(state.has_cached_highlight(id));
        assert!(state.get_cached_height(id, 60).unwrap() >= 2);
    }
}

#[test]
fn scroll_is_clamped_and_focus_follows_the_centre() {
    let mut state = AppState::default();
    state.scroll_offset = -1000;
    assert!(scroll_state_allowed_check(&state, 20, 76));
    update_focus_and_scroll_state(&mut state, 20, 76);
    assert_eq!(state.scroll_offset, -17);
    assert_eq!(state.focused_message_id, Some(state.current_messages()[0].id));
}

#[test]
fn no_rows_are_measured_at_width_zero() {
    let mut state = AppState::default();
    state.populate_caches_for_current_branch(0);
    let ids: Vec<u128> = state.current_messages().iter().map(|m| m.id).collect();
    for id in ids {
        assert_eq!(state.get_cached_height(id, 0), Some(0));
    }
}
