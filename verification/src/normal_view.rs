use vstd::prelude::*;
use crate::dialogue::Message;
use crate::focus_resolver::{
    exact_f32_limit, half_page, is_scroll_by, request_delta, resolve_allowed, resolve_pending_focus_request,
    resolve_request, ScrollingRequest,
};
use crate::heights::{
    calculate_message_display_height, calculate_total_content_height, height_budget,
    lemma_budget_prefix, lemma_message_height_bound, message_height, messages_fit,
    total_content_height,
};
use crate::layout::Rect;
use crate::scrolling::{
    clamp_scroll_offset, clamped_scroll, focus_from_scroll, min_scroll, scroll_bounds_ok,
    scroll_range, scrollbar_position, update_focused_message_from_scroll, update_scrollbar_state,
    ScrollbarModel,
};
use crate::state::{current_messages_of, height_key_of, AppState};
use crate::text::{byte_len, char_len_utf8, chars_of};

verus! {

/// Bytes of a text, computed wide enough never to overflow.
fn text_byte_len(s: &str) -> (r: u128)
    ensures
        r == byte_len(s@),
        r <= 4 * (usize::MAX as int),
{
    let chars = chars_of(s);
    let mut total: u128 = 0;
    let mut i: usize = 0;
    while i < chars.len()
        invariant
            i <= chars@.len(),
            chars@ == s@,
            total == byte_len(chars@.take(i as int)),
            total <= 4 * i,
        decreases chars.len() - i,
    {
        assert(chars@.take(i as int + 1).drop_last() =~= chars@.take(i as int));
        total = total + char_len_utf8(chars[i]) as u128;
        i = i + 1;
    }
    assert(chars@.take(i as int) =~= chars@);
    assert(chars@.len() <= usize::MAX);
    total
}

/// Whether the messages' heights, however wrapped, fit in an `isize`.
pub fn messages_fit_check(messages: &[Message]) -> (r: bool)
    ensures
        r == messages_fit(messages@),
{
    let mut budget: u128 = 0;
    let mut i: usize = 0;
    while i < messages.len()
        invariant
            i <= messages@.len(),
            budget == height_budget(messages@.take(i as int)),
            budget <= isize::MAX,
        decreases messages.len() - i,
    {
        assert(messages@.take(i as int + 1).drop_last() =~= messages@.take(i as int));
        let b = text_byte_len(messages[i].content.as_str());
        if b + 3 > (isize::MAX as u128) - budget {
            proof {
                lemma_budget_prefix(messages@, i as int + 1);
            }
            return false;
        }
        budget = budget + b + 3;
        i = i + 1;
    }
    assert(messages@.take(i as int) =~= messages@);
    true
}

/// Whether resolving the request on these messages neither overflows nor panics.
pub fn resolve_allowed_check(
    request: ScrollingRequest,
    messages: &[Message],
    current_scroll_offset: isize,
    viewport_height: usize,
    viewport_width: u16,
) -> (r: bool)
    ensures
        r == resolve_allowed(
            request,
            messages@,
            current_scroll_offset as int,
            viewport_height as int,
            viewport_width,
        ),
{
    if !messages_fit_check(messages) || viewport_height > isize::MAX as usize {
        return false;
    }
    let half = match request {
        ScrollingRequest::ScrollHalfPageUp | ScrollingRequest::ScrollHalfPageDown => true,
        _ => false,
    };
    if half && viewport_height > 0x100_0000 {
        return false;
    }
    let delta: i128 = match request {
        ScrollingRequest::ScrollPageUp => 0 - viewport_height as i128,
        ScrollingRequest::ScrollPageDown => viewport_height as i128,
        ScrollingRequest::ScrollHalfPageUp => 0 - (viewport_height as i128 + 1) / 2,
        ScrollingRequest::ScrollHalfPageDown => (viewport_height as i128 + 1) / 2,
        _ => return true,
    };
    let moved = current_scroll_offset as i128 + delta;
    if moved < isize::MIN as i128 || moved > isize::MAX as i128 {
        return false;
    }
    let total = calculate_total_content_height(messages, viewport_width);
    viewport_height as u128 + total as u128 <= isize::MAX as u128 && -(viewport_height as i128 - 3)
        <= total as i128 - 3
}

/// Rows a message takes: as measured and cached for the shown branch at this width, or
/// else as estimated from its text.
pub open spec fn height_with_cache(s: AppState, m: Message, w: u16) -> int {
    match height_key_of(s, m.id, w) {
        Some(k) => if s.height_cache@.contains_key(k) {
            s.height_cache@[k] as int
        } else {
            message_height(m, w) as int
        },
        None => message_height(m, w) as int,
    }
}

/// Rows the messages take one after the other, cached heights first.
pub open spec fn cached_stack(s: AppState, msgs: Seq<Message>, w: u16) -> int
    decreases msgs.len(),
{
    if msgs.len() == 0 {
        0
    } else {
        cached_stack(s, msgs.drop_last(), w) + height_with_cache(s, msgs.last(), w)
    }
}

/// Total rows of the messages, cached heights first, at least one.
pub open spec fn cached_total(s: AppState, msgs: Seq<Message>, w: u16) -> int {
    let t = cached_stack(s, msgs, w);
    if t < 1 {
        1
    } else {
        t
    }
}

proof fn lemma_cached_stack_nonneg(s: AppState, msgs: Seq<Message>, w: u16)
    ensures
        cached_stack(s, msgs, w) >= 0,
    decreases msgs.len(),
{
    if msgs.len() > 0 {
        lemma_cached_stack_nonneg(s, msgs.drop_last(), w);
    }
}

proof fn lemma_cached_stack_prefix(s: AppState, msgs: Seq<Message>, i: int, w: u16)
    requires
        0 <= i <= msgs.len(),
    ensures
        cached_stack(s, msgs.take(i), w) <= cached_stack(s, msgs, w),
    decreases msgs.len() - i,
{
    if i < msgs.len() {
        lemma_cached_stack_prefix(s, msgs, i + 1, w);
        assert(msgs.take(i + 1).drop_last() =~= msgs.take(i));
    } else {
        assert(msgs.take(i) =~= msgs);
    }
}

/// Rows a message takes, the cached measure first.
pub fn calculate_message_display_height_with_cache(
    message: &Message,
    viewport_width: u16,
    app_state: &AppState,
) -> (r: usize)
    requires
        byte_len(message.content@) + 3 <= usize::MAX,
    ensures
        r == height_with_cache(*app_state, *message, viewport_width),
{
    match app_state.get_cached_height(message.id, viewport_width) {
        Some(h) => h,
        None => calculate_message_display_height(message, viewport_width),
    }
}

/// Total rows of the messages, cached heights first, at least one.
pub fn calculate_total_content_height_with_cache(
    messages: &[Message],
    viewport_width: u16,
    app_state: &AppState,
) -> (r: usize)
    requires
        messages_fit(messages@),
        cached_stack(*app_state, messages@, viewport_width) <= usize::MAX,
    ensures
        r == cached_total(*app_state, messages@, viewport_width),
{
    let mut total: usize = 0;
    let mut i: usize = 0;
    while i < messages.len()
        invariant
            i <= messages@.len(),
            messages_fit(messages@),
            cached_stack(*app_state, messages@, viewport_width) <= usize::MAX,
            total == cached_stack(*app_state, messages@.take(i as int), viewport_width),
        decreases messages.len() - i,
    {
        proof {
            lemma_budget_prefix(messages@, i as int);
            assert(messages@.take(i as int + 1).drop_last() =~= messages@.take(i as int));
            lemma_cached_stack_prefix(*app_state, messages@, i as int + 1, viewport_width);
            lemma_cached_stack_nonneg(*app_state, messages@.take(i as int), viewport_width);
        }
        let h = calculate_message_display_height_with_cache(&messages[i], viewport_width, app_state);
        total = total + h;
        i = i + 1;
    }
    assert(messages@.take(i as int) =~= messages@);
    if total < 1 {
        1
    } else {
        total
    }
}

/// Total rows of the messages, cached heights first, when they fit in an `isize`.
fn cached_total_checked(messages: &[Message], viewport_width: u16, app_state: &AppState) -> (r:
    Option<usize>)
    requires
        messages_fit(messages@),
    ensures
        match r {
            Some(t) => t == cached_total(*app_state, messages@, viewport_width) && cached_stack(
                *app_state,
                messages@,
                viewport_width,
            ) <= isize::MAX,
            None => cached_stack(*app_state, messages@, viewport_width) > isize::MAX,
        },
{
    let mut total: u128 = 0;
    let mut i: usize = 0;
    while i < messages.len()
        invariant
            i <= messages@.len(),
            messages_fit(messages@),
            total == cached_stack(*app_state, messages@.take(i as int), viewport_width),
            total <= isize::MAX,
        decreases messages.len() - i,
    {
        proof {
            lemma_budget_prefix(messages@, i as int);
            assert(messages@.take(i as int + 1).drop_last() =~= messages@.take(i as int));
        }
        let h = calculate_message_display_height_with_cache(&messages[i], viewport_width, app_state);
        total = total + h as u128;
        if total > isize::MAX as u128 {
            proof {
                lemma_cached_stack_prefix(*app_state, messages@, i as int + 1, viewport_width);
            }
            return None;
        }
        i = i + 1;
    }
    assert(messages@.take(i as int) =~= messages@);
    calculate_total_content_height_with_cache(messages, viewport_width, app_state);
    Some(if total < 1 {
        1
    } else {
        total as usize
    })
}

/// The conditions under which bringing the scroll back in range and refocusing neither
/// overflows nor panics: the messages fit, and so do the viewport and the content
/// together, with ordered clamp bounds.
pub open spec fn scroll_state_allowed(s: AppState, vh: int, w: u16) -> bool {
    let t = cached_total(s, current_messages_of(s), w);
    &&& messages_fit(current_messages_of(s))
    &&& cached_stack(s, current_messages_of(s), w) <= isize::MAX
    &&& vh + t <= isize::MAX
    &&& scroll_bounds_ok(vh, t)
}

/// Whether bringing the scroll back in range and refocusing neither overflows nor panics.
pub fn scroll_state_allowed_check(app_state: &AppState, viewport_height: usize, viewport_width: u16) -> (r:
    bool)
    ensures
        r == scroll_state_allowed(*app_state, viewport_height as int, viewport_width),
{
    let messages = app_state.current_messages();
    if !messages_fit_check(messages) {
        return false;
    }
    match cached_total_checked(messages, viewport_width, app_state) {
        None => false,
        Some(t) => viewport_height as u128 + t as u128 <= isize::MAX as u128 && -(
        viewport_height as i128 - 3) <= t as i128 - 3,
    }
}

/// Brings the scroll offset back into range, focuses the message at the centre of the
/// viewport and sets the scrollbar for it.
pub fn update_focus_and_scroll_state(app_state: &mut AppState, viewport_height: usize, viewport_width: u16)
    requires
        scroll_state_allowed(*old(app_state), viewport_height as int, viewport_width),
    ensures
        ({
            let s = *old(app_state);
            let msgs = current_messages_of(s);
            let t = cached_total(s, msgs, viewport_width);
            let so = clamped_scroll(s.scroll_offset as int, viewport_height as int, t);
            let range = scroll_range(viewport_height as int, t);
            &&& final(app_state).scroll_offset == so
            &&& final(app_state).focused_message_id == focus_from_scroll(
                msgs,
                so,
                viewport_height as int,
                viewport_width,
            )
            &&& final(app_state).scrollbar_state == (ScrollbarModel {
                content_length: (if range < 1 {
                    1
                } else {
                    range
                }) as usize,
                viewport_content_length: viewport_height,
                position: scrollbar_position(so, min_scroll(viewport_height as int), range) as usize,
            })
            &&& (AppState {
                scroll_offset: final(app_state).scroll_offset,
                focused_message_id: final(app_state).focused_message_id,
                scrollbar_state: final(app_state).scrollbar_state,
                ..s
            }) == *final(app_state)
        }),
{
    let ghost s = *app_state;
    let messages = app_state.current_messages();
    let total = calculate_total_content_height_with_cache(messages, viewport_width, app_state);
    let clamped = clamp_scroll_offset(app_state.scroll_offset, viewport_height, total);
    let focused = update_focused_message_from_scroll(
        messages,
        clamped,
        viewport_height as isize,
        viewport_width,
    );
    app_state.scroll_offset = clamped;
    app_state.focused_message_id = focused;
    app_state.scrollbar_state = update_scrollbar_state(
        app_state.scrollbar_state,
        app_state.scroll_offset,
        viewport_height,
        total,
    );
}

/// Takes the pending scrolling request, if any, and applies what it resolves to: the
/// message to focus and the scroll offset centring it.
pub fn resolve_pending_focus_request_handler(
    app_state: &mut AppState,
    viewport_height: usize,
    viewport_width: u16,
)
    requires
        match old(app_state).pending_scrolling_request {
            Some(req) => resolve_allowed(
                req,
                current_messages_of(*old(app_state)),
                old(app_state).scroll_offset as int,
                viewport_height as int,
                viewport_width,
            ),
            None => true,
        },
    ensures
        match old(app_state).pending_scrolling_request {
            Some(req) => match resolve_request(
                req,
                current_messages_of(*old(app_state)),
                old(app_state).scroll_offset as int,
                viewport_height as int,
                viewport_width,
            ) {
                Some((id, so)) => (AppState {
                    pending_scrolling_request: None,
                    focused_message_id: Some(id),
                    scroll_offset: so as isize,
                    ..*old(app_state)
                }) == *final(app_state),
                None => (AppState { pending_scrolling_request: None, ..*old(app_state) })
                    == *final(app_state),
            },
            None => *final(app_state) == *old(app_state),
        },
{
    if let Some(request) = app_state.pending_scrolling_request.take() {
        let messages = app_state.current_messages();
        let focus_result = resolve_pending_focus_request(
            request,
            messages,
            app_state.scroll_offset,
            viewport_height,
            viewport_width,
        );
        if let Some((message_id, scroll_offset)) = focus_result {
            app_state.focused_message_id = Some(message_id);
            app_state.scroll_offset = scroll_offset;
        }
    }
}

/// The row the first message starts at: the content's top, moved up by the scroll.
pub fn calculate_initial_y_offset(content_area: Rect, scroll_offset: isize) -> (r: isize)
    requires
        isize::MIN <= content_area.y - scroll_offset <= isize::MAX,
    ensures
        r == content_area.y - scroll_offset,
{
    content_area.y as isize - scroll_offset
}

/// Whether a box of `height` rows starting at row `y_offset` shows in the content area.
pub open spec fn overlaps_area(y_offset: int, height: int, content_area: Rect) -> bool {
    y_offset + height > content_area.y && y_offset < content_area.y + content_area.height
}

/// Whether a message starting at row `y_offset` shows in the content area.
pub fn should_render_message(y_offset: isize, content_area: Rect, message: &Message, viewport_width: u16) -> (r:
    bool)
    requires
        byte_len(message.content@) + 3 <= isize::MAX,
        isize::MIN <= y_offset + byte_len(message.content@) + 3 <= isize::MAX,
    ensures
        r == overlaps_area(y_offset as int, message_height(*message, viewport_width) as int, content_area),
{
    proof {
        lemma_message_height_bound(*message, viewport_width);
    }
    let message_height = calculate_message_height_for_rendering(message, viewport_width) as isize;
    let message_bottom = y_offset + message_height;
    let viewport_bottom = (content_area.y as usize + content_area.height as usize) as isize;
    message_bottom > content_area.y as isize && y_offset < viewport_bottom
}

/// The part of the content area a box of `height` rows starting at `y_offset` covers,
/// its rows clipped to the area (and taken as `u16`).
pub open spec fn visible_area(content_area: Rect, y_offset: int, height: int) -> Rect {
    let bottom = y_offset + height;
    let area_bottom = content_area.y + content_area.height;
    let start = (if y_offset > content_area.y {
        y_offset
    } else {
        content_area.y as int
    }) as u16;
    let end = (if bottom < area_bottom {
        bottom
    } else {
        area_bottom
    }) as u16;
    Rect {
        x: content_area.x,
        y: start,
        width: content_area.width,
        height: if end > start {
            (end - start) as u16
        } else {
            0
        },
    }
}

/// The part of the content area a message starting at `y_offset` covers.
pub fn calculate_visible_message_area(
    content_area: Rect,
    y_offset: isize,
    message: &Message,
    viewport_width: u16,
) -> (r: Rect)
    requires
        byte_len(message.content@) + 3 <= isize::MAX,
        isize::MIN <= y_offset + byte_len(message.content@) + 3 <= isize::MAX,
    ensures
        r == visible_area(content_area, y_offset as int, message_height(*message, viewport_width) as int),
{
    proof {
        lemma_message_height_bound(*message, viewport_width);
    }
    let message_height = calculate_message_display_height(message, viewport_width) as isize;
    area_for_height(content_area, y_offset, message_height)
}

/// The part of the content area a box of `height` rows starting at `y_offset` covers.
fn area_for_height(content_area: Rect, y_offset: isize, height: isize) -> (r: Rect)
    requires
        isize::MIN <= y_offset + height <= isize::MAX,
    ensures
        r == visible_area(content_area, y_offset as int, height as int),
{
    let message_bottom = y_offset + height;
    let viewport_bottom = (content_area.y as usize + content_area.height as usize) as isize;
    let visible_start = (if y_offset > content_area.y as isize {
        y_offset
    } else {
        content_area.y as isize
    }) as u16;
    let visible_end = (if message_bottom < viewport_bottom {
        message_bottom
    } else {
        viewport_bottom
    }) as u16;
    let visible_height = if visible_end > visible_start {
        visible_end - visible_start
    } else {
        0
    };
    Rect { x: content_area.x, y: visible_start, width: content_area.width, height: visible_height }
}

/// Whether row `y_offset` lies at or below the bottom of the content area.
pub fn is_below_viewport(y_offset: isize, content_area: Rect) -> (r: bool)
    ensures
        r == (y_offset >= content_area.y + content_area.height),
{
    let viewport_bottom = (content_area.y as usize + content_area.height as usize) as isize;
    y_offset >= viewport_bottom
}

/// Rows a message takes when rendered.
pub fn calculate_message_height_for_rendering(message: &Message, viewport_width: u16) -> (r: usize)
    requires
        byte_len(message.content@) + 3 <= usize::MAX,
    ensures
        r == message_height(*message, viewport_width),
{
    calculate_message_display_height(message, viewport_width)
}

/// Rows the messages before the first message with identifier `target` take (all of them
/// when none has it).
pub open spec fn heights_before(msgs: Seq<Message>, target: u128, w: u16) -> int
    decreases msgs.len(),
{
    if msgs.len() == 0 || msgs[0].id == target {
        0
    } else {
        message_height(msgs[0], w) + heights_before(msgs.drop_first(), target, w)
    }
}

proof fn lemma_heights_before_step(msgs: Seq<Message>, i: int, target: u128, w: u16)
    requires
        0 <= i < msgs.len(),
        msgs[i].id != target,
    ensures
        heights_before(msgs.skip(i), target, w) == message_height(msgs[i], w) + heights_before(
            msgs.skip(i + 1),
            target,
            w,
        ),
{
    assert(msgs.skip(i).drop_first() =~= msgs.skip(i + 1));
}

proof fn lemma_heights_before_bound(msgs: Seq<Message>, target: u128, w: u16)
    ensures
        0 <= heights_before(msgs, target, w) <= height_budget(msgs),
    decreases msgs.len(),
{
    if msgs.len() > 0 && msgs[0].id != target {
        lemma_heights_before_bound(msgs.drop_first(), target, w);
        lemma_message_height_bound(msgs[0], w);
        lemma_budget_split(msgs);
    }
}

/// The budget of a list is the first message's share plus the budget of the rest.
pub proof fn lemma_budget_split(msgs: Seq<Message>)
    requires
        msgs.len() > 0,
    ensures
        height_budget(msgs) == byte_len(msgs[0].content@) + 3 + height_budget(msgs.drop_first()),
    decreases msgs.len(),
{
    if msgs.len() > 1 {
        lemma_budget_split(msgs.drop_last());
        assert(msgs.drop_last().drop_first() =~= msgs.drop_first().drop_last());
        assert(msgs.drop_last()[0] == msgs[0]);
        assert(msgs.drop_first().last() == msgs.last());
    } else {
        assert(msgs.drop_first() =~= Seq::<Message>::empty());
        assert(msgs.drop_last() =~= Seq::<Message>::empty());
        assert(msgs.last() == msgs[0]);
    }
}

/// Rows the messages before the target take.
pub fn calculate_message_heights_before(messages: &[Message], target_message_id: u128, viewport_width: u16) -> (r:
    isize)
    requires
        messages_fit(messages@),
    ensures
        r == heights_before(messages@, target_message_id, viewport_width),
{
    let mut total_height: isize = 0;
    let mut i: usize = 0;
    proof {
        assert(messages@.skip(0) =~= messages@);
        lemma_heights_before_bound(messages@, target_message_id, viewport_width);
    }
    while i < messages.len()
        invariant
            i <= messages@.len(),
            messages_fit(messages@),
            0 <= total_height,
            total_height + heights_before(messages@.skip(i as int), target_message_id, viewport_width)
                == heights_before(messages@, target_message_id, viewport_width),
            heights_before(messages@, target_message_id, viewport_width) <= isize::MAX,
        decreases messages.len() - i,
    {
        if messages[i].id == target_message_id {
            return total_height;
        }
        proof {
            lemma_heights_before_step(messages@, i as int, target_message_id, viewport_width);
            lemma_heights_before_bound(messages@.skip(i as int + 1), target_message_id, viewport_width);
            lemma_budget_prefix(messages@, i as int);
        }
        let h = calculate_message_height_for_rendering(&messages[i], viewport_width);
        total_height = total_height + h as isize;
        i = i + 1;
    }
    total_height
}

/// Rows of a message scrolled off above the content area.
pub fn calculate_message_scroll_offset(y_offset: isize, content_area: Rect) -> (r: u16)
    requires
        y_offset < content_area.y ==> content_area.y - y_offset <= isize::MAX,
    ensures
        r == if y_offset < content_area.y {
            (content_area.y - y_offset) as u16
        } else {
            0
        },
{
    if y_offset < content_area.y as isize {
        (content_area.y as isize - y_offset) as u16
    } else {
        0
    }
}

} // verus!
