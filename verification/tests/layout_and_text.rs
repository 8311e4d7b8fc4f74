use frond_tui::dialogue::{Message, Role};
use frond_tui::edit_view::{
    calculate_append_layout, calculate_line_display_height, calculate_wrap_width,
    get_content_area_for_scrollbar, wrap_content,
};
use frond_tui::heights::{
    calculate_content_width, calculate_message_display_height, calculate_total_content_height,
    calculate_wrapped_line_count,
};
use frond_tui::layout::{calculate_content_area, Rect};
use frond_tui::message_renderer::{message_title, uses_highlight_color};
use frond_tui::mode::Mode;
use frond_tui::normal_view::{
    calculate_initial_y_offset, calculate_message_scroll_offset, is_below_viewport,
};
use frond_tui::screen::{
    calculate_dash_count, error_popup_area, fitted_error_popup_area, measure_popup,
    pad_content_vertically, AppLayout,
};
use frond_tui::scrolling::{
    calculate_min_scroll, calculate_scroll_range, calculate_scrollbar_position, clamp_scroll_offset,
    update_focused_message_after_deletion,
};
use frond_tui::selection::{build_selected_text, normalize_selection_range};
use frond_tui::shared::wrap_text;
use frond_tui::text::{i64_to_decimal, trim_chars};
use frond_tui::focus_resolver::{resolve_pending_focus_request, ScrollingRequest};
use frond_tui::scrolling::{calculate_center_line, calculate_message_y_position, find_message_at_center_line};
use frond_tui::screen::fitted_measure_popup;

fn message(id: u128, content: &str) -> Message {
    Message { id, content: content.to_string(), role: Role::User }
}

fn rect(x: u16, y: u16, width: u16, height: u16) -> Rect {
    Rect { x, y, width, height }
}

#[test]
fn content_width_keeps_four_columns() {
    assert_eq!(calculate_content_width(80), 76);
    assert_eq!(calculate_content_width(3), 1);
    assert_eq!(calculate_content_width(4), 1);
}

#[test]
fn wrapped_line_count_counts_rows_of_each_line() {
    assert_eq!(calculate_wrapped_line_count("hello\nworld", 3), 4);
    assert_eq!(calculate_wrapped_line_count("a\n\nb", 5), 3);
    assert_eq!(calculate_wrapped_line_count("", 10), 1);
    assert_eq!(calculate_wrapped_line_count("abcdef", 3), 2);
}

#[test]
fn message_height_adds_the_borders() {
    assert_eq!(calculate_message_display_height(&message(1, "hello"), 10), 3);
    assert_eq!(calculate_message_display_height(&message(1, "hello world"), 10), 4);
    let msgs = vec![message(1, "hello"), message(2, "hello world")];
    assert_eq!(calculate_total_content_height(&msgs, 10), 7);
}

#[test]
fn scroll_offset_is_clamped_to_the_content() {
    assert_eq!(calculate_min_scroll(10), -7);
    assert_eq!(clamp_scroll_offset(-100, 10, 50), -7);
    assert_eq!(clamp_scroll_offset(100, 10, 50), 47);
    assert_eq!(clamp_scroll_offset(5, 10, 50), 5);
}

#[test]
fn scroll_range_and_thumb_position() {
    assert_eq!(calculate_scroll_range(10, 50), 54);
    assert_eq!(calculate_scroll_range(10, 0), 4);
    assert_eq!(calculate_scrollbar_position(0, -7, 54), 7);
    assert_eq!(calculate_scrollbar_position(100, -7, 54), 54);
    assert_eq!(calculate_scrollbar_position(-10, -7, 54), 0);
}

#[test]
fn focus_after_deletion_prefers_the_next_message() {
    let msgs = vec![message(1, "a"), message(2, "b"), message(3, "c")];
    assert_eq!(update_focused_message_after_deletion(&msgs, 1), Some(2));
    assert_eq!(update_focused_message_after_deletion(&msgs, 3), Some(3));
    assert_eq!(update_focused_message_after_deletion(&[], 0), None);
}

#[test]
fn popup_fits_the_widest_line() {
    assert_eq!(measure_popup("abc\nde", 60, 4, 2), (11, 6));
    assert_eq!(measure_popup("abc\nde", 5, 4, 2), (5, 6));
    assert_eq!(measure_popup("", 60, 4, 2), (8, 5));
}

#[test]
fn popup_is_centred() {
    let area = rect(0, 0, 80, 24);
    assert_eq!(error_popup_area(area, "abc"), rect(34, 9, 11, 5));
    assert_eq!(fitted_error_popup_area(area, "abc"), Some(rect(34, 9, 11, 5)));
    let narrow = rect(2, 1, 20, 10);
    assert_eq!(fitted_error_popup_area(narrow, "a rather long error text here"), Some(rect(2, 3, 20, 5)));
}

#[test]
fn popup_too_far_out_is_refused() {
    assert_eq!(fitted_error_popup_area(rect(u16::MAX, 0, 10, 10), "x"), None);
}

#[test]
fn content_is_padded_above_and_below() {
    assert_eq!(pad_content_vertically("x", 3), "\nx\n\n");
    assert_eq!(pad_content_vertically("x", 0), "x");
}

#[test]
fn dashes_fill_the_rest_of_the_line() {
    assert_eq!(calculate_dash_count(5, 7, 30), 16);
    assert_eq!(calculate_dash_count(20, 20, 30), 0);
}

#[test]
fn screen_rows_follow_the_mode() {
    let area = rect(0, 0, 80, 24);
    assert_eq!(
        AppLayout::new(area, Mode::Normal),
        AppLayout::Normal {
            breadcrumb: rect(1, 1, 78, 2),
            content: rect(1, 3, 78, 18),
            status: rect(1, 21, 78, 2),
        }
    );
    assert_eq!(
        AppLayout::new(area, Mode::Edit),
        AppLayout::Normal {
            breadcrumb: rect(1, 1, 78, 3),
            content: rect(1, 4, 78, 17),
            status: rect(1, 21, 78, 2),
        }
    );
}

#[test]
fn content_area_keeps_a_column_for_the_scrollbar() {
    assert_eq!(calculate_content_area(rect(1, 2, 30, 10)), rect(1, 2, 29, 10));
    assert_eq!(calculate_content_area(rect(1, 2, 0, 10)), rect(1, 2, 0, 10));
    assert_eq!(get_content_area_for_scrollbar(rect(0, 0, 5, 5)), rect(0, 0, 4, 5));
}

#[test]
fn text_wraps_at_spaces() {
    assert_eq!(wrap_text("hello world foo", 7), vec!["hello", "world", "foo"]);
    assert_eq!(wrap_text("abcdefghij", 4), vec!["abcd", "efgh", "ij"]);
}

#[test]
fn selection_reads_the_same_in_either_direction() {
    let lines = vec!["abc".to_string(), "defg".to_string(), "hi".to_string()];
    let forward = build_selected_text(&lines, ((0, 1), (2, 1)));
    let backward = build_selected_text(&lines, ((2, 1), (0, 1)));
    assert_eq!(forward, "bc\ndefg\nh");
    assert_eq!(backward, forward);
    assert_eq!(build_selected_text(&["hello".to_string()], ((0, 1), (0, 4))), "ell");
    assert_eq!(normalize_selection_range(((3, 0), (1, 5))), ((1, 5), (3, 0)));
}

#[test]
fn editor_wraps_at_four_columns_less() {
    assert_eq!(calculate_wrap_width(80), 76);
    assert_eq!(calculate_wrap_width(3), 0);
    assert_eq!(calculate_line_display_height("abcdefgh", 3), 3);
    assert_eq!(calculate_line_display_height("", 3), 1);
    assert_eq!(wrap_content("one two three", 7), vec!["one two", "three"]);
    assert_eq!(wrap_content("a\n\nb", 10), vec!["a", "", "b"]);
}

#[test]
fn append_layout_puts_the_editor_at_the_bottom() {
    let layout = calculate_append_layout(rect(0, 0, 80, 20), 5);
    assert_eq!(layout.history, rect(0, 0, 80, 15));
    assert_eq!(layout.textarea, rect(0, 15, 80, 5));
    let full = calculate_append_layout(rect(0, 0, 80, 20), 30);
    assert_eq!(full.history, rect(0, 0, 80, 0));
    assert_eq!(full.textarea, rect(0, 0, 80, 20));
}

#[test]
fn message_rows_relative_to_the_viewport() {
    let area = rect(0, 2, 40, 8);
    assert_eq!(calculate_initial_y_offset(area, 5), -3);
    assert!(is_below_viewport(10, area));
    assert!(!is_below_viewport(9, area));
    assert_eq!(calculate_message_scroll_offset(-3, area), 5);
    assert_eq!(calculate_message_scroll_offset(4, area), 0);
}

#[test]
fn message_boxes_are_titled_by_role() {
    assert_eq!(message_title(Role::User), " User ");
    assert_eq!(message_title(Role::Assistant), " Assistant ");
    assert!(uses_highlight_color(Role::Assistant));
    assert!(!uses_highlight_color(Role::User));
}

#[test]
fn numbers_and_trimming() {
    assert_eq!(i64_to_decimal(0), "0");
    assert_eq!(i64_to_decimal(1700000000), "1700000000");
    assert_eq!(i64_to_decimal(-42), "-42");
    let chars: Vec<char> = "  a b \n".chars().collect();
    assert_eq!(trim_chars(&chars).into_iter().collect::<String>(), "a b");
}

fn three_messages() -> Vec<Message> {
    vec![message(1, "hello"), message(2, "hello world"), message(3, "a")]
}

#[test]
fn requests_resolve_to_focus_and_offset() {
    let msgs = three_messages();
    assert_eq!(resolve_pending_focus_request(ScrollingRequest::ScrollToMessage(2), &msgs, 0, 10, 10), Some((2, 0)));
    assert_eq!(resolve_pending_focus_request(ScrollingRequest::ScrollToLastMessage, &msgs, 0, 10, 10), Some((3, 3)));
    assert_eq!(resolve_pending_focus_request(ScrollingRequest::ScrollToTop, &msgs, 0, 10, 10), Some((1, -4)));
    assert_eq!(resolve_pending_focus_request(ScrollingRequest::ScrollPageDown, &msgs, 0, 10, 10), Some((3, 7)));
    assert_eq!(resolve_pending_focus_request(ScrollingRequest::ScrollToMessage(99), &msgs, 0, 10, 10), None);
    assert_eq!(
        resolve_pending_focus_request(
            ScrollingRequest::ScrollToMessageWithSameIndexOrLast { previous_index: 5 },
            &msgs,
            0,
            10,
            10
        ),
        Some((3, 3))
    );
}

#[test]
fn positions_and_centre_of_messages() {
    let msgs = three_messages();
    assert_eq!(calculate_message_y_position(&msgs, 3, 10), Some(7));
    assert_eq!(calculate_message_y_position(&msgs, 9, 10), None);
    assert_eq!(calculate_center_line(3, 10), 8);
    assert_eq!(find_message_at_center_line(&msgs, 8, 10), Some(3));
    assert_eq!(find_message_at_center_line(&msgs, 4, 10), Some(2));
    assert_eq!(find_message_at_center_line(&msgs, 0, 10), Some(1));
}

#[test]
fn popup_measure_refuses_what_overflows() {
    assert_eq!(fitted_measure_popup("abc\nde", 60, 4, 2), Some((11, 6)));
    assert_eq!(fitted_measure_popup("abc", 60, u16::MAX, 2), None);
    assert_eq!(fitted_measure_popup("abc", 60, 4, u16::MAX), None);
}

