use vstd::prelude::*;
use crate::dialogue::{Message, Role};
use crate::text::{owned, push_str};
use crate::heights::{lemma_budget_prefix, messages_fit};
use crate::layout::Rect;
use crate::normal_view::{
    cached_stack, calculate_message_display_height_with_cache, height_with_cache, overlaps_area,
    visible_area,
};
use crate::state::{current_messages_of, AppState};

verus! {

/// The messages of the branch being shown, copied for drawing.
pub fn collect_message_data(app_state: &AppState) -> (r: Vec<Message>)
    ensures
        r@ == current_messages_of(*app_state),
{
    let messages = app_state.current_messages();
    let mut data: Vec<Message> = Vec::new();
    let mut i: usize = 0;
    while i < messages.len()
        invariant
            i <= messages@.len(),
            data@ == messages@.take(i as int),
        decreases messages.len() - i,
    {
        data.push(messages[i].clone());
        assert(data@ =~= messages@.take(i as int + 1));
        i = i + 1;
    }
    assert(messages@.take(i as int) =~= messages@);
    data
}

/// Rows a message takes, the measure cached at the content width first.
pub fn get_message_height(app_state: &AppState, message: &Message, content_width: u16) -> (r: isize)
    requires
        crate::text::byte_len(message.content@) + 3 <= usize::MAX,
        height_with_cache(*app_state, *message, content_width) <= isize::MAX,
    ensures
        r == height_with_cache(*app_state, *message, content_width),
{
    calculate_message_display_height_with_cache(message, content_width, app_state) as isize
}

/// Whether a message starting at row `y_offset` shows in the content area, its cached
/// height first.
pub fn should_render_message(
    app_state: &AppState,
    message: &Message,
    y_offset: isize,
    content_area: Rect,
    content_width: u16,
) -> (r: bool)
    requires
        crate::text::byte_len(message.content@) + 3 <= usize::MAX,
        height_with_cache(*app_state, *message, content_width) <= isize::MAX,
        y_offset + height_with_cache(*app_state, *message, content_width) <= isize::MAX,
    ensures
        r == overlaps_area(
            y_offset as int,
            height_with_cache(*app_state, *message, content_width),
            content_area,
        ),
{
    let message_height = get_message_height(app_state, message, content_width);
    let message_bottom = y_offset + message_height;
    let viewport_bottom = (content_area.y as usize + content_area.height as usize) as isize;
    message_bottom > content_area.y as isize && y_offset < viewport_bottom
}

/// The part of the content area a message starting at `y_offset` covers, its cached
/// height first.
pub fn calculate_message_area(
    app_state: &AppState,
    message: &Message,
    content_area: Rect,
    y_offset: isize,
) -> (r: Rect)
    requires
        crate::text::byte_len(message.content@) + 3 <= usize::MAX,
        height_with_cache(*app_state, *message, content_area.width) <= isize::MAX,
        y_offset + height_with_cache(*app_state, *message, content_area.width) <= isize::MAX,
    ensures
        r == visible_area(
            content_area,
            y_offset as int,
            height_with_cache(*app_state, *message, content_area.width),
        ),
{
    let message_height = get_message_height(app_state, message, content_area.width);
    let message_bottom = y_offset + message_height;
    let viewport_bottom = (content_area.y as usize + content_area.height as usize) as isize;
    let visible_start = (if y_offset > content_area.y as isize {
        y_offset
    } else {
        content_area.y as isize
    }) as u16;
    let visible_end = (if message_bottom < viewport_bottom {
        message_bottom
    } else {
        viewport_bottom
    }) as u16;
    let visible_height = if visible_end > visible_start {
        visible_end - visible_start
    } else {
        0
    };
    Rect { x: content_area.x, y: visible_start, width: content_area.width, height: visible_height }
}

/// A message to draw: its position in the branch, the row it starts at and the part of
/// the content area it covers.
#[derive(Clone, Copy, Debug, PartialEq, Eq)]
pub struct MessageSlot {
    pub message_index: usize,
    pub y_offset: isize,
    pub area: Rect,
}

/// The messages from `i` on to draw, the `i`-th starting at row `y`: each one that shows
/// and covers some rows, until one ends at or below the bottom of the area.
pub open spec fn slots_from(s: AppState, msgs: Seq<Message>, i: int, y: int, area: Rect) -> Seq<
    MessageSlot,
>
    decreases msgs.len() - i,
{
    if i < 0 || i >= msgs.len() {
        Seq::empty()
    } else {
        let h = height_with_cache(s, msgs[i], area.width);
        let a = visible_area(area, y, h);
        let here = if overlaps_area(y, h, area) && a.height > 0 {
            seq![MessageSlot { message_index: i as usize, y_offset: y as isize, area: a }]
        } else {
            Seq::empty()
        };
        if y + h >= area.y + area.height {
            here
        } else {
            here + slots_from(s, msgs, i + 1, y + h, area)
        }
    }
}

proof fn lemma_cached_stack_take(s: AppState, msgs: Seq<Message>, i: int, w: u16)
    requires
        0 <= i < msgs.len(),
    ensures
        cached_stack(s, msgs.take(i + 1), w) == cached_stack(s, msgs.take(i), w) + height_with_cache(
            s,
            msgs[i],
            w,
        ),
{
    assert(msgs.take(i + 1).drop_last() =~= msgs.take(i));
}

proof fn lemma_cached_stack_mono(s: AppState, msgs: Seq<Message>, i: int, w: u16)
    requires
        0 <= i <= msgs.len(),
    ensures
        cached_stack(s, msgs.take(i), w) <= cached_stack(s, msgs, w),
        0 <= cached_stack(s, msgs.take(i), w),
    decreases msgs.len() - i,
{
    if i < msgs.len() {
        lemma_cached_stack_mono(s, msgs, i + 1, w);
        lemma_cached_stack_take(s, msgs, i, w);
    } else {
        assert(msgs.take(i) =~= msgs);
    }
    lemma_nonneg(s, msgs.take(i), w);
}

proof fn lemma_nonneg(s: AppState, msgs: Seq<Message>, w: u16)
    ensures
        0 <= cached_stack(s, msgs, w),
    decreases msgs.len(),
{
    if msgs.len() > 0 {
        lemma_nonneg(s, msgs.drop_last(), w);
    }
}

/// The messages of the branch to draw in the content area, the view scrolled by the
/// state's offset, cached heights first.
pub fn render_messages(app_state: &AppState, content_area: Rect) -> (r: Vec<MessageSlot>)
    requires
        messages_fit(current_messages_of(*app_state)),
        isize::MIN <= content_area.y - app_state.scroll_offset,
        content_area.y - app_state.scroll_offset + cached_stack(
            *app_state,
            current_messages_of(*app_state),
            content_area.width,
        ) <= isize::MAX,
        cached_stack(*app_state, current_messages_of(*app_state), content_area.width) <= isize::MAX,
    ensures
        r@ == slots_from(
            *app_state,
            current_messages_of(*app_state),
            0,
            content_area.y - app_state.scroll_offset,
            content_area,
        ),
{
    let messages = app_state.current_messages();
    let ghost msgs = messages@;
    let ghost y0 = content_area.y - app_state.scroll_offset;
    proof {
        lemma_nonneg(*app_state, msgs, content_area.width);
        assert(msgs.take(0) =~= Seq::<Message>::empty());
    }
    let mut y_offset: isize = content_area.y as isize - app_state.scroll_offset;
    let mut out: Vec<MessageSlot> = Vec::new();
    let mut i: usize = 0;
    while i < messages.len()
        invariant
            i <= msgs.len(),
            msgs == messages@,
            msgs == current_messages_of(*app_state),
            messages_fit(msgs),
            y_offset == y0 + cached_stack(*app_state, msgs.take(i as int), content_area.width),
            y0 + cached_stack(*app_state, msgs, content_area.width) <= isize::MAX,
            cached_stack(*app_state, msgs, content_area.width) <= isize::MAX,
            isize::MIN <= y0,
            y0 == content_area.y - app_state.scroll_offset,
            out@ + slots_from(*app_state, msgs, i as int, y_offset as int, content_area) == slots_from(
                *app_state,
                msgs,
                0,
                y0,
                content_area,
            ),
        decreases msgs.len() - i,
    {
        proof {
            lemma_budget_prefix(msgs, i as int);
            lemma_cached_stack_take(*app_state, msgs, i as int, content_area.width);
            lemma_cached_stack_mono(*app_state, msgs, i as int + 1, content_area.width);
            lemma_cached_stack_mono(*app_state, msgs, i as int, content_area.width);
        }
        let message = &messages[i];
        let height = get_message_height(app_state, message, content_area.width);
        let ghost rest = slots_from(*app_state, msgs, i as int + 1, y_offset + height, content_area);
        let ghost cur = slots_from(*app_state, msgs, i as int, y_offset as int, content_area);
        let ghost before = out@;
        if should_render_message(app_state, message, y_offset, content_area, content_area.width) {
            let area = calculate_message_area(app_state, message, content_area, y_offset);
            if area.height > 0 {
                out.push(MessageSlot { message_index: i, y_offset, area });
            }
        }
        let bottom = (content_area.y as usize + content_area.height as usize) as isize;
        if y_offset + height >= bottom {
            proof {
                if out@.len() > before.len() {
                    assert(cur =~= seq![out@.last()]);
                    assert(out@ =~= before + cur);
                } else {
                    assert(cur =~= Seq::<MessageSlot>::empty());
                    assert(out@ =~= before + cur);
                }
            }
            return out;
        }
        proof {
            if out@.len() > before.len() {
                assert(before + (seq![out@.last()] + rest) =~= out@ + rest);
            } else {
                assert(before + (Seq::<MessageSlot>::empty() + rest) =~= out@ + rest);
            }
        }
        y_offset = y_offset + height;
        i = i + 1;
    }
    assert(out@ + Seq::<MessageSlot>::empty() =~= out@);
    out
}

/// Who wrote a message, as its box's title names them.
pub open spec fn role_name(role: Role) -> Seq<char> {
    match role {
        Role::Assistant => "Assistant"@,
        Role::User => "User"@,
    }
}

/// The title of a message's box: who wrote it, a space on either side.
pub fn message_title(role: Role) -> (r: String)
    ensures
        r@ == " "@ + role_name(role) + " "@,
{
    let mut s = owned(" ");
    match role {
        Role::Assistant => push_str(&mut s, "Assistant"),
        Role::User => push_str(&mut s, "User"),
    }
    push_str(&mut s, " ");
    s
}

/// Whether a message's box takes the theme's highlight colour: the assistant's do, the
/// user's keep the terminal's default.
pub fn uses_highlight_color(role: Role) -> (r: bool)
    ensures
        r == (role == Role::Assistant),
{
    match role {
        Role::Assistant => true,
        Role::User => false,
    }
}

} // verus!
