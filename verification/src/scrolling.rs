use vstd::prelude::*;
use crate::dialogue::{find_message_index, is_first_index, Message};
use crate::heights::{
    calculate_message_display_height, height_budget, lemma_budget_prefix,
    lemma_message_height_bound, lemma_stacked_height_bound, lemma_stacked_take_next,
    message_height, messages_fit, stacked_height, total_content_height,
};
use crate::text::byte_len;

verus! {

/// `v / 2` with the rounding of Rust's integer division (towards zero).
pub open spec fn half(v: int) -> int {
    if v >= 0 {
        v / 2
    } else {
        -((-v) / 2)
    }
}

/// The line at the vertical centre of the viewport.
pub open spec fn center_line(scroll_offset: int, viewport_height: int) -> int {
    scroll_offset + half(viewport_height)
}

/// The first message whose bottom lies below `line` (counting from the top of the
/// content), or the last message when none does.
pub open spec fn message_at_line(msgs: Seq<Message>, line: int, w: u16) -> Option<u128>
    decreases msgs.len(),
{
    if msgs.len() == 0 {
        None
    } else if message_height(msgs[0], w) > line || msgs.len() == 1 {
        Some(msgs[0].id)
    } else {
        message_at_line(msgs.drop_first(), line - message_height(msgs[0], w), w)
    }
}

/// The message under the centre of the viewport.
pub open spec fn focus_from_scroll(
    msgs: Seq<Message>,
    scroll_offset: int,
    viewport_height: int,
    w: u16,
) -> Option<u128> {
    if msgs.len() == 0 {
        None
    } else {
        message_at_line(msgs, center_line(scroll_offset, viewport_height), w)
    }
}

proof fn lemma_message_at_line_step(msgs: Seq<Message>, i: int, line: int, w: u16)
    requires
        0 <= i < msgs.len() - 1,
        message_height(msgs[i], w) <= line,
    ensures
        message_at_line(msgs.skip(i), line, w) == message_at_line(
            msgs.skip(i + 1),
            line - message_height(msgs[i], w),
            w,
        ),
{
    assert(msgs.skip(i).drop_first() =~= msgs.skip(i + 1));
    assert(msgs.skip(i)[0] == msgs[i]);
}

/// The message under the centre of the viewport, found by walking down the messages.
pub fn update_focused_message_from_scroll(
    messages: &[Message],
    scroll_offset: isize,
    viewport_height: isize,
    viewport_width: u16,
) -> (r: Option<u128>)
    requires
        messages_fit(messages@),
        isize::MIN <= center_line(scroll_offset as int, viewport_height as int) <= isize::MAX,
    ensures
        r == focus_from_scroll(messages@, scroll_offset as int, viewport_height as int, viewport_width),
{
    if messages.len() == 0 {
        return None;
    }
    let center = calculate_center_line(scroll_offset, viewport_height);
    find_message_at_center_line(messages, center, viewport_width)
}

/// The line at the vertical centre of the viewport.
pub fn calculate_center_line(scroll_offset: isize, viewport_height: isize) -> (r: isize)
    requires
        isize::MIN <= center_line(scroll_offset as int, viewport_height as int) <= isize::MAX,
    ensures
        r == center_line(scroll_offset as int, viewport_height as int),
{
    scroll_offset + viewport_height / 2
}

/// The first message whose bottom lies below `center_line`, or the last one.
pub fn find_message_at_center_line(messages: &[Message], center_line: isize, viewport_width: u16) -> (r:
    Option<u128>)
    requires
        messages_fit(messages@),
    ensures
        r == message_at_line(messages@, center_line as int, viewport_width),
{
    if messages.len() == 0 {
        return None;
    }
    if center_line < 0 {
        proof {
            assert(message_height(messages@[0], viewport_width) > center_line);
        }
        return Some(messages[0].id);
    }
    let center_line_usize = center_line as usize;
    let mut current_line: usize = 0;
    let mut i: usize = 0;
    assert(messages@.skip(0) =~= messages@);
    while i < messages.len()
        invariant
            0 < messages@.len(),
            i <= messages@.len(),
            messages_fit(messages@),
            current_line == stacked_height(messages@.take(i as int), viewport_width),
            current_line <= center_line_usize,
            center_line_usize == center_line,
            i < messages@.len() ==> message_at_line(messages@, center_line as int, viewport_width)
                == message_at_line(
                messages@.skip(i as int),
                center_line - current_line,
                viewport_width,
            ),
            i == messages@.len() ==> message_at_line(messages@, center_line as int, viewport_width)
                == Some(messages@.last().id),
        decreases messages.len() - i,
    {
        proof {
            lemma_budget_prefix(messages@, i as int);
            lemma_stacked_height_bound(messages@.take(i as int), viewport_width);
            lemma_message_height_bound(messages@[i as int], viewport_width);
            lemma_stacked_take_next(messages@, i as int, viewport_width);
            assert(messages@.skip(i as int)[0] == messages@[i as int]);
        }
        let message_height = calculate_message_display_height(&messages[i], viewport_width);
        if current_line + message_height > center_line_usize {
            return Some(messages[i].id);
        }
        proof {
            if i + 1 < messages@.len() {
                lemma_message_at_line_step(messages@, i as int, center_line - current_line, viewport_width);
            } else {
                assert(messages@.skip(i as int).len() == 1);
            }
        }
        current_line = current_line + message_height;
        i = i + 1;
    }
    Some(messages[messages.len() - 1].id)
}

/// The identifier to focus after the message at `deleted_index` was removed: the one
/// now at that index, else the one before it.
pub open spec fn focus_after_deletion(msgs: Seq<Message>, deleted_index: int) -> Option<u128> {
    if msgs.len() == 0 {
        None
    } else if deleted_index < msgs.len() {
        Some(msgs[deleted_index].id)
    } else if deleted_index > 0 {
        Some(msgs[deleted_index - 1].id)
    } else {
        None
    }
}

/// The message to focus once the message at `deleted_index` is gone.
pub fn update_focused_message_after_deletion(messages: &[Message], deleted_index: usize) -> (r:
    Option<u128>)
    requires
        deleted_index <= messages@.len(),
    ensures
        r == focus_after_deletion(messages@, deleted_index as int),
{
    if messages.len() == 0 {
        return None;
    }
    if deleted_index < messages.len() {
        Some(messages[deleted_index].id)
    } else if deleted_index > 0 {
        Some(messages[deleted_index - 1].id)
    } else {
        None
    }
}

/// Identifier of the first message, if any.
pub fn get_first_message_id(messages: &[Message]) -> (r: Option<u128>)
    ensures
        r == (if messages@.len() == 0 {
            None::<u128>
        } else {
            Some(messages@[0].id)
        }),
{
    if messages.len() == 0 {
        None
    } else {
        Some(messages[0].id)
    }
}

/// The scroll offset that puts the centre of the first message with identifier `id`
/// at the centre of the viewport.
pub open spec fn scroll_to_focus(msgs: Seq<Message>, id: u128, viewport_height: int, w: u16) -> Option<
    int,
> {
    if exists|i: int| is_first_index(msgs, id, i) {
        let i = choose|i: int| is_first_index(msgs, id, i);
        Some(
            stacked_height(msgs.take(i), w) + (message_height(msgs[i], w) as int) / 2 - half(
                viewport_height,
            ),
        )
    } else {
        None
    }
}

/// Whether the scroll offset that centres `id` fits in an `isize`.
pub open spec fn scroll_to_focus_fits(msgs: Seq<Message>, id: u128, viewport_height: int, w: u16) -> bool {
    match scroll_to_focus(msgs, id, viewport_height, w) {
        Some(v) => isize::MIN <= v <= isize::MAX,
        None => true,
    }
}

proof fn lemma_first_index_unique(msgs: Seq<Message>, id: u128, i: int, j: int)
    requires
        is_first_index(msgs, id, i),
        is_first_index(msgs, id, j),
    ensures
        i == j,
{
}

/// Top of the first message with identifier `id`, counted in rows from the top of the content.
pub fn calculate_message_y_position(messages: &[Message], target_message_id: u128, viewport_width: u16) -> (r:
    Option<usize>)
    requires
        messages_fit(messages@),
    ensures
        match r {
            Some(y) => exists|i: int|
                is_first_index(messages@, target_message_id, i) && y == stacked_height(
                    messages@.take(i),
                    viewport_width,
                ),
            None => forall|j: int|
                0 <= j < messages@.len() ==> messages@[j].id != target_message_id,
        },
{
    let mut y_position: usize = 0;
    let mut i: usize = 0;
    while i < messages.len()
        invariant
            i <= messages@.len(),
            messages_fit(messages@),
            y_position == stacked_height(messages@.take(i as int), viewport_width),
            forall|j: int| 0 <= j < i ==> messages@[j].id != target_message_id,
        decreases messages.len() - i,
    {
        if messages[i].id == target_message_id {
            proof {
                assert(is_first_index(messages@, target_message_id, i as int));
            }
            return Some(y_position);
        }
        proof {
            lemma_budget_prefix(messages@, i as int);
            lemma_stacked_height_bound(messages@.take(i as int), viewport_width);
            lemma_message_height_bound(messages@[i as int], viewport_width);
            lemma_stacked_take_next(messages@, i as int, viewport_width);
        }
        y_position = y_position + calculate_message_display_height(&messages[i], viewport_width);
        i = i + 1;
    }
    None
}

/// Height of the first message with identifier `id`.
pub fn find_message_height(messages: &[Message], target_message_id: u128, viewport_width: u16) -> (r:
    Option<usize>)
    requires
        messages_fit(messages@),
    ensures
        match r {
            Some(h) => exists|i: int|
                is_first_index(messages@, target_message_id, i) && h == message_height(
                    messages@[i],
                    viewport_width,
                ),
            None => forall|j: int|
                0 <= j < messages@.len() ==> messages@[j].id != target_message_id,
        },
{
    match find_message_index(messages, target_message_id) {
        Some(i) => {
            proof {
                lemma_budget_prefix(messages@, i as int);
                lemma_message_height_bound(messages@[i as int], viewport_width);
            }
            Some(calculate_message_display_height(&messages[i], viewport_width))
        },
        None => None,
    }
}

/// The scroll offset that centres the first message with identifier `message_id`.
pub fn calculate_scroll_to_focus_message(
    messages: &[Message],
    message_id: u128,
    viewport_height: isize,
    viewport_width: u16,
) -> (r: Option<isize>)
    requires
        messages_fit(messages@),
        scroll_to_focus_fits(messages@, message_id, viewport_height as int, viewport_width),
    ensures
        match r {
            Some(v) => scroll_to_focus(messages@, message_id, viewport_height as int, viewport_width)
                == Some(v as int),
            None => scroll_to_focus(messages@, message_id, viewport_height as int, viewport_width)
                is None,
        },
{
    let y = calculate_message_y_position(messages, message_id, viewport_width);
    let message_y_position = match y {
        Some(y) => y,
        None => {
            return None;
        },
    };
    let h = find_message_height(messages, message_id, viewport_width);
    let message_height = match h {
        Some(h) => h,
        None => {
            return None;
        },
    };
    proof {
        let i = choose|i: int| is_first_index(messages@, message_id, i);
        let iy = choose|k: int|
            is_first_index(messages@, message_id, k) && message_y_position == stacked_height(
                messages@.take(k),
                viewport_width,
            );
        let ih = choose|k: int|
            is_first_index(messages@, message_id, k) && message_height == crate::heights::message_height(
                messages@[k],
                viewport_width,
            );
        lemma_first_index_unique(messages@, message_id, i, iy);
        lemma_first_index_unique(messages@, message_id, i, ih);
        lemma_budget_prefix(messages@, i);
        lemma_stacked_height_bound(messages@.take(i), viewport_width);
        lemma_message_height_bound(messages@[i], viewport_width);
    }
    let message_center = message_y_position as isize + (message_height as isize / 2);
    let viewport_center = viewport_height / 2;
    Some(message_center - viewport_center)
}

/// Lowest scroll offset: the first message may sit up to `viewport_height - 3` rows below the top.
pub open spec fn min_scroll(viewport_height: int) -> int {
    -(viewport_height - 3)
}

/// Highest scroll offset: three rows of content stay visible.
pub open spec fn max_scroll(total_content_height: int) -> int {
    total_content_height - 3
}

/// The scroll offset brought into `[min_scroll, max_scroll]`.
pub open spec fn clamped_scroll(scroll_offset: int, viewport_height: int, total: int) -> int {
    if scroll_offset < min_scroll(viewport_height) {
        min_scroll(viewport_height)
    } else if scroll_offset > max_scroll(total) {
        max_scroll(total)
    } else {
        scroll_offset
    }
}

/// Whether the bounds of the scroll range are ordered (`Ord::clamp` panics otherwise)
/// and fit in an `isize`.
pub open spec fn scroll_bounds_ok(viewport_height: int, total: int) -> bool {
    &&& 0 <= viewport_height <= isize::MAX
    &&& 0 <= total <= isize::MAX
    &&& min_scroll(viewport_height) <= max_scroll(total)
}

/// Lowest scroll offset for a viewport of `viewport_height` rows.
pub fn calculate_min_scroll(viewport_height: usize) -> (r: isize)
    requires
        viewport_height <= isize::MAX,
    ensures
        r == min_scroll(viewport_height as int),
{
    -(viewport_height as isize - 3)
}

/// Keeps the scroll offset within the range where some content stays visible.
pub fn clamp_scroll_offset(scroll_offset: isize, viewport_height: usize, total_content_height: usize) -> (r:
    isize)
    requires
        scroll_bounds_ok(viewport_height as int, total_content_height as int),
    ensures
        r == clamped_scroll(scroll_offset as int, viewport_height as int, total_content_height as int),
{
    let min_scroll = calculate_min_scroll(viewport_height);
    let max_scroll = total_content_height as isize - 3;
    if scroll_offset < min_scroll {
        min_scroll
    } else if scroll_offset > max_scroll {
        max_scroll
    } else {
        scroll_offset
    }
}

/// Length of the range the scroll offset moves in.
pub open spec fn scroll_range(viewport_height: int, total: int) -> int {
    let r = max_scroll(total) - min_scroll(viewport_height);
    if r < 0 {
        0
    } else {
        r
    }
}

/// Length of the range the scroll offset moves in.
pub fn calculate_scroll_range(viewport_height: usize, total_content_height: usize) -> (r: usize)
    requires
        viewport_height + total_content_height <= isize::MAX,
    ensures
        r == scroll_range(viewport_height as int, total_content_height as int),
{
    let min_scroll = calculate_min_scroll(viewport_height);
    let max_scroll = total_content_height as isize - 3;
    let scroll_range = max_scroll - min_scroll;
    if scroll_range < 0 {
        0
    } else {
        scroll_range as usize
    }
}

/// Position of the scrollbar thumb: distance from the lowest offset, within the range.
pub open spec fn scrollbar_position(scroll_offset: int, min_scroll: int, range: int) -> int {
    let p = if scroll_offset - min_scroll < 0 {
        0
    } else {
        scroll_offset - min_scroll
    };
    if p < range {
        p
    } else {
        range
    }
}

/// Position of the scrollbar thumb.
pub fn calculate_scrollbar_position(scroll_offset: isize, min_scroll: isize, scroll_range: usize) -> (r:
    usize)
    requires
        isize::MIN <= scroll_offset - min_scroll <= isize::MAX,
    ensures
        r == scrollbar_position(scroll_offset as int, min_scroll as int, scroll_range as int),
{
    let d = scroll_offset - min_scroll;
    let position: usize = if d < 0 {
        0
    } else {
        d as usize
    };
    if position < scroll_range {
        position
    } else {
        scroll_range
    }
}

/// What the scrollbar widget shows: content length, viewport length and thumb position.
#[derive(Clone, Copy, Debug, PartialEq, Eq, Default)]
pub struct ScrollbarModel {
    pub content_length: usize,
    pub viewport_content_length: usize,
    pub position: usize,
}

/// The scrollbar for the given scroll offset, viewport and content height.
pub fn update_scrollbar_state(
    scrollbar_state: ScrollbarModel,
    scroll_offset: isize,
    viewport_height: usize,
    total_content_height: usize,
) -> (r: ScrollbarModel)
    requires
        viewport_height + total_content_height <= isize::MAX,
        isize::MIN <= scroll_offset - min_scroll(viewport_height as int) <= isize::MAX,
    ensures
        r.content_length == (if scroll_range(viewport_height as int, total_content_height as int)
            < 1 {
            1
        } else {
            scroll_range(viewport_height as int, total_content_height as int)
        }),
        r.viewport_content_length == viewport_height,
        r.position == scrollbar_position(
            scroll_offset as int,
            min_scroll(viewport_height as int),
            scroll_range(viewport_height as int, total_content_height as int),
        ),
{
    let scroll_range = calculate_scroll_range(viewport_height, total_content_height);
    let min_scroll = calculate_min_scroll(viewport_height);
    let scrollbar_position = calculate_scrollbar_position(scroll_offset, min_scroll, scroll_range);
    let content_length = if scroll_range < 1 {
        1
    } else {
        scroll_range
    };
    ScrollbarModel {
        content_length,
        viewport_content_length: viewport_height,
        position: scrollbar_position,
        ..scrollbar_state
    }
}

} // verus!
