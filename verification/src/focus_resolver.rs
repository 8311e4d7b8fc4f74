use vstd::prelude::*;
use crate::dialogue::{is_first_index, Message};
use crate::heights::{
    calculate_total_content_height, height_budget, lemma_budget_prefix,
    lemma_message_height_bound, lemma_stacked_height_bound, message_height, messages_fit,
    stacked_height, total_content_height,
};
use crate::scrolling::{
    calculate_scroll_to_focus_message, clamp_scroll_offset, clamped_scroll, focus_from_scroll,
    half, max_scroll, min_scroll, scroll_bounds_ok, scroll_to_focus, scroll_to_focus_fits,
    update_focused_message_from_scroll,
};

verus! {

/// A scroll or focus move asked for by a handler, resolved when the viewport size is known.
#[derive(Clone, Copy, Debug, PartialEq, Eq, Structural)]
pub enum ScrollingRequest {
    ScrollToMessage(u128),
    ScrollToLastMessage,
    ScrollToMessageWithSameIndexOrLast { previous_index: usize },
    ScrollToTop,
    ScrollToBottom,
    ScrollPageUp,
    ScrollPageDown,
    ScrollHalfPageUp,
    ScrollHalfPageDown,
}

/// Half a viewport, rounded up: the step of a half-page scroll.
pub open spec fn half_page(viewport_height: int) -> int {
    (viewport_height + 1) / 2
}

/// Largest viewport height for which a half page is computed exactly in `f32`.
pub open spec fn exact_f32_limit() -> int {
    0x100_0000
}

/// Focus on a given message, centring it.
pub open spec fn focus_specific(msgs: Seq<Message>, id: u128, vh: int, w: u16) -> Option<(u128, int)> {
    match scroll_to_focus(msgs, id, vh, w) {
        Some(so) => Some((id, so)),
        None => None,
    }
}

/// Focus on the last message.
pub open spec fn focus_last(msgs: Seq<Message>, vh: int, w: u16) -> Option<(u128, int)> {
    if msgs.len() == 0 {
        None
    } else {
        focus_specific(msgs, msgs.last().id, vh, w)
    }
}

/// Scroll by `delta` rows, clamped, and focus on the message at the new centre.
pub open spec fn focus_scroll_by(msgs: Seq<Message>, cur: int, delta: int, vh: int, w: u16) -> Option<
    (u128, int),
> {
    let new_offset = clamped_scroll(cur + delta, vh, total_content_height(msgs, w) as int);
    match focus_from_scroll(msgs, new_offset, vh, w) {
        Some(id) => Some((id, new_offset)),
        None => None,
    }
}

/// The rows a scrolling request moves by, for the requests that scroll.
pub open spec fn request_delta(req: ScrollingRequest, vh: int) -> int {
    match req {
        ScrollingRequest::ScrollPageUp => -vh,
        ScrollingRequest::ScrollPageDown => vh,
        ScrollingRequest::ScrollHalfPageUp => -half_page(vh),
        ScrollingRequest::ScrollHalfPageDown => half_page(vh),
        _ => 0,
    }
}

/// Whether the request scrolls by a number of rows (as opposed to focusing a message).
pub open spec fn is_scroll_by(req: ScrollingRequest) -> bool {
    req is ScrollPageUp || req is ScrollPageDown || req is ScrollHalfPageUp || req is ScrollHalfPageDown
}

/// The message to focus and the new scroll offset a request leads to.
pub open spec fn resolve_request(
    req: ScrollingRequest,
    msgs: Seq<Message>,
    cur: int,
    vh: int,
    w: u16,
) -> Option<(u128, int)> {
    match req {
        ScrollingRequest::ScrollToMessage(id) => focus_specific(msgs, id, vh, w),
        ScrollingRequest::ScrollToLastMessage => focus_last(msgs, vh, w),
        ScrollingRequest::ScrollToMessageWithSameIndexOrLast { previous_index } => {
            let last = if msgs.len() == 0 {
                0
            } else {
                msgs.len() - 1
            };
            let t = if previous_index < last {
                previous_index as int
            } else {
                last as int
            };
            if t < msgs.len() {
                focus_specific(msgs, msgs[t].id, vh, w)
            } else {
                None
            }
        },
        ScrollingRequest::ScrollToTop => {
            if msgs.len() == 0 {
                None
            } else {
                Some(
                    (
                        msgs[0].id,
                        match scroll_to_focus(msgs, msgs[0].id, vh, w) {
                            Some(v) => v,
                            None => 0,
                        },
                    ),
                )
            }
        },
        ScrollingRequest::ScrollToBottom => focus_last(msgs, vh, w),
        _ => focus_scroll_by(msgs, cur, request_delta(req, vh), vh, w),
    }
}

/// The conditions under which resolving a request neither overflows nor panics: the
/// messages' heights fit in an `isize`, so does the viewport height, a half page is exact
/// in `f32`, and a scrolling move stays in range with ordered clamp bounds.
pub open spec fn resolve_allowed(
    req: ScrollingRequest,
    msgs: Seq<Message>,
    cur: int,
    vh: int,
    w: u16,
) -> bool {
    &&& messages_fit(msgs)
    &&& 0 <= vh <= isize::MAX
    &&& (req is ScrollHalfPageUp || req is ScrollHalfPageDown) ==> vh <= exact_f32_limit()
    &&& is_scroll_by(req) ==> {
        &&& isize::MIN <= cur + request_delta(req, vh) <= isize::MAX
        &&& vh + total_content_height(msgs, w) <= isize::MAX
        &&& scroll_bounds_ok(vh, total_content_height(msgs, w) as int)
    }
}

/// A centring offset always fits in an `isize` for a non-negative viewport height.
pub proof fn lemma_scroll_to_focus_fits(msgs: Seq<Message>, id: u128, vh: int, w: u16)
    requires
        messages_fit(msgs),
        0 <= vh <= isize::MAX,
    ensures
        scroll_to_focus_fits(msgs, id, vh, w),
{
    if exists|i: int| is_first_index(msgs, id, i) {
        let i = choose|i: int| is_first_index(msgs, id, i);
        lemma_budget_prefix(msgs, i);
        lemma_stacked_height_bound(msgs.take(i), w);
        lemma_message_height_bound(msgs[i], w);
    }
}

fn resolve_focus_specific_message(
    messages: &[Message],
    message_id: u128,
    viewport_height: usize,
    viewport_width: u16,
) -> (r: Option<(u128, isize)>)
    requires
        messages_fit(messages@),
        viewport_height <= isize::MAX,
    ensures
        match r {
            Some((id, so)) => focus_specific(messages@, message_id, viewport_height as int, viewport_width)
                == Some((id, so as int)),
            None => focus_specific(messages@, message_id, viewport_height as int, viewport_width)
                is None,
        },
{
    proof {
        lemma_scroll_to_focus_fits(messages@, message_id, viewport_height as int, viewport_width);
    }
    match calculate_scroll_to_focus_message(
        messages,
        message_id,
        viewport_height as isize,
        viewport_width,
    ) {
        Some(scroll_offset) => Some((message_id, scroll_offset)),
        None => None,
    }
}

fn resolve_focus_last_message(messages: &[Message], viewport_height: usize, viewport_width: u16) -> (r:
    Option<(u128, isize)>)
    requires
        messages_fit(messages@),
        viewport_height <= isize::MAX,
    ensures
        match r {
            Some((id, so)) => focus_last(messages@, viewport_height as int, viewport_width) == Some(
                (id, so as int),
            ),
            None => focus_last(messages@, viewport_height as int, viewport_width) is None,
        },
{
    if messages.len() > 0 {
        let last_id = messages[messages.len() - 1].id;
        resolve_focus_specific_message(messages, last_id, viewport_height, viewport_width)
    } else {
        None
    }
}

fn resolve_focus_scroll_by(
    messages: &[Message],
    current_scroll_offset: isize,
    delta: isize,
    viewport_height: usize,
    viewport_width: u16,
) -> (r: Option<(u128, isize)>)
    requires
        messages_fit(messages@),
        isize::MIN <= current_scroll_offset + delta <= isize::MAX,
        viewport_height + total_content_height(messages@, viewport_width) <= isize::MAX,
        scroll_bounds_ok(
            viewport_height as int,
            total_content_height(messages@, viewport_width) as int,
        ),
    ensures
        match r {
            Some((id, so)) => focus_scroll_by(
                messages@,
                current_scroll_offset as int,
                delta as int,
                viewport_height as int,
                viewport_width,
            ) == Some((id, so as int)),
            None => focus_scroll_by(
                messages@,
                current_scroll_offset as int,
                delta as int,
                viewport_height as int,
                viewport_width,
            ) is None,
        },
{
    let total_content_height = calculate_total_content_height(messages, viewport_width);
    let new_scroll_offset = clamp_scroll_offset(
        current_scroll_offset + delta,
        viewport_height,
        total_content_height,
    );
    let focused_message_id = update_focused_message_from_scroll(
        messages,
        new_scroll_offset,
        viewport_height as isize,
        viewport_width,
    );
    match focused_message_id {
        Some(id) => Some((id, new_scroll_offset)),
        None => None,
    }
}

/// Whether a computed focus agrees with the resolution of a request.
pub open spec fn agrees(r: Option<(u128, isize)>, spec: Option<(u128, int)>) -> bool {
    match r {
        Some((id, so)) => spec == Some((id, so as int)),
        None => spec is None,
    }
}

/// Focus on the message at the position focused before, or the last one when the branch
/// is shorter.
fn resolve_focus_same_index_or_last(
    messages: &[Message],
    previous_index: usize,
    viewport_height: usize,
    viewport_width: u16,
) -> (r: Option<(u128, isize)>)
    requires
        messages_fit(messages@),
        viewport_height <= isize::MAX,
    ensures
        agrees(
            r,
            resolve_request(
                ScrollingRequest::ScrollToMessageWithSameIndexOrLast { previous_index },
                messages@,
                0,
                viewport_height as int,
                viewport_width,
            ),
        ),
{
    let last = messages.len().saturating_sub(1);
    let target_index = if previous_index < last {
        previous_index
    } else {
        last
    };
    if target_index < messages.len() {
        let id = messages[target_index].id;
        resolve_focus_specific_message(messages, id, viewport_height, viewport_width)
    } else {
        None
    }
}

/// Focus on the first message, centred.
fn resolve_focus_top(messages: &[Message], viewport_height: usize, viewport_width: u16) -> (r: Option<
    (u128, isize),
>)
    requires
        messages_fit(messages@),
        viewport_height <= isize::MAX,
    ensures
        agrees(
            r,
            resolve_request(ScrollingRequest::ScrollToTop, messages@, 0, viewport_height as int, viewport_width),
        ),
{
    if messages.len() > 0 {
        let id = messages[0].id;
        proof {
            lemma_scroll_to_focus_fits(messages@, id, viewport_height as int, viewport_width);
        }
        let scroll_offset = match calculate_scroll_to_focus_message(
            messages,
            id,
            viewport_height as isize,
            viewport_width,
        ) {
            Some(v) => v,
            None => 0,
        };
        Some((id, scroll_offset))
    } else {
        None
    }
}

/// Focus on the last message, centred.
fn resolve_focus_bottom(messages: &[Message], viewport_height: usize, viewport_width: u16) -> (r: Option<
    (u128, isize),
>)
    requires
        messages_fit(messages@),
        viewport_height <= isize::MAX,
    ensures
        agrees(
            r,
            resolve_request(ScrollingRequest::ScrollToBottom, messages@, 0, viewport_height as int, viewport_width),
        ),
{
    resolve_focus_last_message(messages, viewport_height, viewport_width)
}

/// Resolves a pending scrolling request into the message to focus and the new scroll offset.
pub fn resolve_pending_focus_request(
    request: ScrollingRequest,
    messages: &[Message],
    current_scroll_offset: isize,
    viewport_height: usize,
    viewport_width: u16,
) -> (r: Option<(u128, isize)>)
    requires
        resolve_allowed(
            request,
            messages@,
            current_scroll_offset as int,
            viewport_height as int,
            viewport_width,
        ),
    ensures
        match r {
            Some((id, so)) => resolve_request(
                request,
                messages@,
                current_scroll_offset as int,
                viewport_height as int,
                viewport_width,
            ) == Some((id, so as int)),
            None => resolve_request(
                request,
                messages@,
                current_scroll_offset as int,
                viewport_height as int,
                viewport_width,
            ) is None,
        },
{
    match request {
        ScrollingRequest::ScrollToMessage(message_id) => resolve_focus_specific_message(
            messages,
            message_id,
            viewport_height,
            viewport_width,
        ),
        ScrollingRequest::ScrollToLastMessage => {
            resolve_focus_last_message(messages, viewport_height, viewport_width)
        },
        ScrollingRequest::ScrollToMessageWithSameIndexOrLast { previous_index } => {
            resolve_focus_same_index_or_last(messages, previous_index, viewport_height, viewport_width)
        },
        ScrollingRequest::ScrollToTop => resolve_focus_top(messages, viewport_height, viewport_width),
        ScrollingRequest::ScrollToBottom => resolve_focus_bottom(messages, viewport_height, viewport_width),
        ScrollingRequest::ScrollPageUp => resolve_focus_scroll_by(
            messages,
            current_scroll_offset,
            -(viewport_height as isize),
            viewport_height,
            viewport_width,
        ),
        ScrollingRequest::ScrollPageDown => resolve_focus_scroll_by(
            messages,
            current_scroll_offset,
            viewport_height as isize,
            viewport_height,
            viewport_width,
        ),
        ScrollingRequest::ScrollHalfPageUp => resolve_focus_scroll_by(
            messages,
            current_scroll_offset,
            -(((viewport_height + 1) / 2) as isize),
            viewport_height,
            viewport_width,
        ),
        ScrollingRequest::ScrollHalfPageDown => resolve_focus_scroll_by(
            messages,
            current_scroll_offset,
            ((viewport_height + 1) / 2) as isize,
            viewport_height,
            viewport_width,
        ),
    }
}

} // verus!
