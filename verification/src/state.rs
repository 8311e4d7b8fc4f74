use vstd::prelude::*;
use ratatui::text::Text;
use crate::caches::{heights_without_message, of_message, HeightCache, HeightKey, HighlightCache, HighlightKey};
use crate::config::{is_default_settings, Config};
use crate::dialogue::{
    branch_by_id, index_of_message, is_first_branch_pos, is_first_tree, message_branch_pos,
    tree_by_id, Branch, Dialogue, Message, Role, Tree,
};
use crate::editor::TextBuffer;
use crate::focus_resolver::ScrollingRequest;
use crate::heights::messages_fit;
use crate::test_data::{create_test_dialogue, dialogue_outline, sample_outline, tree_outline,
    branch_outline};
use crate::highlighting::{bordered_line_count, clone_text, highlight_markdown, raw_text};
use crate::mode::Mode;
use crate::scrolling::{
    center_line, focus_after_deletion, focus_from_scroll, get_first_message_id,
    update_focused_message_after_deletion, update_focused_message_from_scroll, ScrollbarModel,
};

verus! {

/// Token usage of the model.
#[derive(Debug)]
pub struct ModelInfo {
    pub tokens_used: u32,
    pub tokens_available: u32,
}

impl Default for ModelInfo {
    fn default() -> (r: ModelInfo)
        ensures
            r.tokens_used == 0,
            r.tokens_available == 0,
    {
        ModelInfo { tokens_used: 0, tokens_available: 0 }
    }
}

/// Everything the interface knows: the dialogue, where the user is in it, how it is
/// scrolled, the text being edited and the caches of rendered messages.
pub struct AppState {
    pub dialogue: Dialogue,
    pub mode: Mode,
    pub config: Config,
    pub model_info: ModelInfo,
    pub current_tree_id: Option<u128>,
    pub current_branch_id: Option<u128>,
    pub focused_message_id: Option<u128>,
    pub scroll_offset: isize,
    pub scrollbar_state: ScrollbarModel,
    pub pending_scrolling_request: Option<ScrollingRequest>,
    pub error_message: Option<String>,
    pub edit_textarea: Option<TextBuffer>,
    pub highlight_cache: HighlightCache,
    pub height_cache: HeightCache,
}

/// The tree being shown: the first tree with the current tree identifier.
pub open spec fn current_tree_of(s: AppState) -> Option<Tree> {
    match s.current_tree_id {
        Some(t) => tree_by_id(s.dialogue.trees@, t),
        None => None,
    }
}

/// The branch being shown: the first branch, in any tree, with the current branch
/// identifier.
pub open spec fn current_branch_of(s: AppState) -> Option<Branch> {
    match s.current_branch_id {
        Some(b) => branch_by_id(s.dialogue.trees@, b),
        None => None,
    }
}

/// The messages of the branch being shown; none without one.
pub open spec fn current_messages_of(s: AppState) -> Seq<Message> {
    match current_branch_of(s) {
        Some(b) => b.messages@,
        None => Seq::empty(),
    }
}

/// Position of a message in the branch being shown.
pub open spec fn message_index_in_view(s: AppState, id: u128) -> Option<int> {
    match current_branch_of(s) {
        Some(b) => index_of_message(b.messages@, id),
        None => None,
    }
}

/// Tree and branch that the caches are keyed by, when both are set.
pub open spec fn cache_context_of(s: AppState) -> Option<(u128, u128)> {
    match (s.current_tree_id, s.current_branch_id) {
        (Some(t), Some(b)) => Some((t, b)),
        _ => None,
    }
}

/// The highlight key of a message in the cache context.
pub open spec fn highlight_key_of(s: AppState, message_id: u128) -> Option<HighlightKey> {
    match cache_context_of(s) {
        Some((t, b)) => Some(HighlightKey { tree_id: t, branch_id: b, message_id }),
        None => None,
    }
}

/// The height key of a message at a width in the cache context.
pub open spec fn height_key_of(s: AppState, message_id: u128, w: u16) -> Option<HeightKey> {
    match cache_context_of(s) {
        Some((t, b)) => Some(HeightKey { tree_id: t, branch_id: b, message_id, viewport_width: w }),
        None => None,
    }
}

/// The height cached for a message at a width in the cache context.
pub open spec fn cached_height_of(s: AppState, message_id: u128, w: u16) -> Option<usize> {
    match height_key_of(s, message_id, w) {
        Some(k) => if s.height_cache@.contains_key(k) {
            Some(s.height_cache@[k])
        } else {
            None
        },
        None => None,
    }
}

/// The highlighted text cached for a message in the cache context.
pub open spec fn cached_highlight_of(s: AppState, message_id: u128) -> Option<Text<'static>> {
    match highlight_key_of(s, message_id) {
        Some(k) => if s.highlight_cache@.contains_key(k) {
            Some(s.highlight_cache@[k])
        } else {
            None
        },
        None => None,
    }
}

/// Whether the focused message is the last one of the branch and written by the user:
/// editing it continues the conversation.
pub open spec fn append_mode_of(s: AppState) -> bool {
    match (s.focused_message_id, current_branch_of(s)) {
        (Some(f), Some(b)) => index_of_message(b.messages@, f) is Some && b.messages@.len() > 0
            && b.messages@.last().id == f && b.messages@[index_of_message(
            b.messages@,
            f,
        ).unwrap()].role == Role::User,
        _ => false,
    }
}

/// The state showing the first branch that holds the message (unchanged when none does)
/// and asking for the message to be focused.
pub open spec fn focused_on(s: AppState, message_id: u128) -> AppState {
    let shown = match message_branch_pos(s.dialogue.trees@, message_id) {
        Some((t, b)) => AppState {
            current_tree_id: Some(s.dialogue.trees@[t].id),
            current_branch_id: Some(s.dialogue.trees@[t].branches@[b].id),
            ..s
        },
        None => s,
    };
    AppState {
        pending_scrolling_request: Some(ScrollingRequest::ScrollToMessage(message_id)),
        ..shown
    }
}

/// The scrollbar before anything is measured.
pub open spec fn empty_scrollbar() -> ScrollbarModel {
    ScrollbarModel { content_length: 0, viewport_content_length: 0, position: 0 }
}

/// The state once a newly shown branch is focused on its first message and scrolled to
/// the top; unchanged without a branch.
pub open spec fn reset_branch_focus(s: AppState) -> AppState {
    match current_branch_of(s) {
        Some(b) => AppState {
            focused_message_id: if b.messages@.len() == 0 {
                None
            } else {
                Some(b.messages@[0].id)
            },
            scroll_offset: 0,
            scrollbar_state: empty_scrollbar(),
            ..s
        },
        None => s,
    }
}

/// The state once a newly shown tree shows its first branch, focused on its first
/// message; unchanged without a tree or without branches.
pub open spec fn reset_tree_focus(s: AppState) -> AppState {
    match current_tree_of(s) {
        Some(t) => if t.branches@.len() > 0 {
            reset_branch_focus(AppState { current_branch_id: Some(t.branches@[0].id), ..s })
        } else {
            s
        },
        None => s,
    }
}

/// What a measured message height is at a width: none at width zero, else at least its
/// two border rows.
pub open spec fn measured_height_ok(h: usize, w: u16) -> bool {
    if w == 0 {
        h == 0
    } else {
        h >= 2
    }
}

impl AppState {
    /// The tree being shown.
    pub fn current_tree(&self) -> (r: Option<&Tree>)
        ensures
            match r {
                Some(t) => current_tree_of(*self) == Some(*t),
                None => current_tree_of(*self) is None,
            },
    {
        match self.current_tree_id {
            Some(tree_id) => self.dialogue.get_tree_by_id(tree_id),
            None => None,
        }
    }

    /// The branch being shown.
    pub fn current_branch(&self) -> (r: Option<&Branch>)
        ensures
            match r {
                Some(b) => current_branch_of(*self) == Some(*b),
                None => current_branch_of(*self) is None,
            },
    {
        match self.current_branch_id {
            Some(branch_id) => self.dialogue.get_branch_by_id(branch_id),
            None => None,
        }
    }

    /// The messages of the branch being shown; none without one.
    pub fn current_messages(&self) -> (r: &[Message])
        ensures
            r@ == current_messages_of(*self),
    {
        match self.current_branch() {
            Some(b) => b.messages.as_slice(),
            None => &[],
        }
    }

    /// Shows the first branch holding the message and asks for the message to be focused.
    pub fn focus_message(&mut self, message_id: u128)
        ensures
            *final(self) == focused_on(*old(self), message_id),
    {
        match self.dialogue.locate_message(message_id) {
            Some((t, b)) => {
                let tree_id = self.dialogue.trees[t].id;
                let branch_id = self.dialogue.trees[t].branches[b].id;
                self.current_tree_id = Some(tree_id);
                self.current_branch_id = Some(branch_id);
            },
            None => {},
        }
        self.pending_scrolling_request = Some(ScrollingRequest::ScrollToMessage(message_id));
    }

    /// Focuses the message under the centre of the viewport.
    pub fn update_focused_message_from_scroll(&mut self, viewport_height: isize, viewport_width: u16)
        requires
            messages_fit(current_messages_of(*old(self))),
            isize::MIN <= center_line(old(self).scroll_offset as int, viewport_height as int)
                <= isize::MAX,
        ensures
            final(self).focused_message_id == focus_from_scroll(
                current_messages_of(*old(self)),
                old(self).scroll_offset as int,
                viewport_height as int,
                viewport_width,
            ),
            (AppState { focused_message_id: final(self).focused_message_id, ..*old(self) })
                == *final(self),
    {
        let focused = update_focused_message_from_scroll(
            self.current_messages(),
            self.scroll_offset,
            viewport_height,
            viewport_width,
        );
        self.focused_message_id = focused;
    }

    /// Position of a message in the branch being shown.
    pub fn get_message_index(&self, message_id: u128) -> (r: Option<usize>)
        ensures
            match r {
                Some(i) => message_index_in_view(*self, message_id) == Some(i as int),
                None => message_index_in_view(*self, message_id) is None,
            },
    {
        match self.current_branch() {
            Some(b) => b.get_message_index_by_id(message_id),
            None => None,
        }
    }

    /// Whether the message is followed by others in the branch being shown.
    pub fn has_messages_after(&self, message_id: u128) -> (r: bool)
        ensures
            r == match current_branch_of(*self) {
                Some(b) => match index_of_message(b.messages@, message_id) {
                    Some(i) => i < b.messages@.len() - 1,
                    None => false,
                },
                None => false,
            },
    {
        if let Some(branch) = self.current_branch() {
            if let Some(index) = branch.get_message_index_by_id(message_id) {
                return index < branch.messages.len() - 1;
            }
        }
        false
    }

    /// Focuses the message that takes the place of the one deleted at `deleted_index`.
    pub fn update_focused_message_after_deletion(&mut self, deleted_index: usize)
        requires
            deleted_index <= current_messages_of(*old(self)).len(),
        ensures
            final(self).focused_message_id == focus_after_deletion(
                current_messages_of(*old(self)),
                deleted_index as int,
            ),
            (AppState { focused_message_id: final(self).focused_message_id, ..*old(self) })
                == *final(self),
    {
        let focused = update_focused_message_after_deletion(self.current_messages(), deleted_index);
        self.focused_message_id = focused;
    }

    /// On a newly shown branch: focus its first message and scroll to the top.
    pub fn reset_focus_for_new_branch(&mut self)
        ensures
            *final(self) == reset_branch_focus(*old(self)),
    {
        let first = match self.current_branch() {
            Some(branch) => Some(get_first_message_id(branch.messages.as_slice())),
            None => None,
        };
        if let Some(focused) = first {
            self.focused_message_id = focused;
            self.scroll_offset = 0;
            self.scrollbar_state = ScrollbarModel {
                content_length: 0,
                viewport_content_length: 0,
                position: 0,
            };
        }
    }

    /// On a newly shown tree: show its first branch, focused on its first message.
    pub fn reset_focus_for_new_tree(&mut self)
        ensures
            *final(self) == reset_tree_focus(*old(self)),
    {
        let first_branch = match self.current_tree() {
            Some(tree) => if tree.branches.len() > 0 {
                Some(tree.branches[0].id)
            } else {
                None
            },
            None => None,
        };
        if let Some(branch_id) = first_branch {
            self.current_branch_id = Some(branch_id);
            self.reset_focus_for_new_branch();
        }
    }

    /// Dismisses the error message.
    pub fn clear_error(&mut self)
        ensures
            (AppState { error_message: None, ..*old(self) }) == *final(self),
    {
        self.error_message = None;
    }

    /// Tree and branch that the caches are keyed by.
    fn current_cache_context(&self) -> (r: Option<(u128, u128)>)
        ensures
            r == cache_context_of(*self),
    {
        match (self.current_tree_id, self.current_branch_id) {
            (Some(t), Some(b)) => Some((t, b)),
            _ => None,
        }
    }

    /// The message's highlighted text: from the cache when there, else highlighted now and,
    /// when a tree and branch are shown, cached.
    pub fn get_highlighted_text(&mut self, message: &Message) -> (r: Text<'static>)
        ensures
            match highlight_key_of(*old(self), message.id) {
                Some(k) => if old(self).highlight_cache@.contains_key(k) {
                    r == old(self).highlight_cache@[k] && *final(self) == *old(self)
                } else {
                    final(self).highlight_cache@ == old(self).highlight_cache@.insert(k, r)
                        && (AppState { highlight_cache: final(self).highlight_cache, ..*old(self) })
                        == *final(self)
                },
                None => *final(self) == *old(self),
            },
    {
        match self.current_cache_context() {
            Some((tree_id, branch_id)) => {
                let key = HighlightKey { tree_id, branch_id, message_id: message.id };
                if let Some(cached) = self.highlight_cache.get(key) {
                    return clone_text(cached);
                }
                let highlighted = highlight_markdown(message.content.as_str());
                self.highlight_cache.insert(key, clone_text(&highlighted));
                highlighted
            },
            None => highlight_markdown(message.content.as_str()),
        }
    }

    /// The cached highlighted text of a message in the cache context.
    pub fn get_cached_highlighted_text(&self, message_id: u128) -> (r: Option<Text<'static>>)
        ensures
            r == cached_highlight_of(*self, message_id),
    {
        let (tree_id, branch_id) = match self.current_cache_context() {
            Some(c) => c,
            None => return None,
        };
        match self.highlight_cache.get(HighlightKey { tree_id, branch_id, message_id }) {
            Some(t) => Some(clone_text(t)),
            None => None,
        }
    }

    /// Whether a highlighted text is cached for the message in the cache context.
    pub fn has_cached_highlight(&self, message_id: u128) -> (r: bool)
        ensures
            r == match highlight_key_of(*self, message_id) {
                Some(k) => self.highlight_cache@.contains_key(k),
                None => false,
            },
    {
        match self.current_cache_context() {
            Some((tree_id, branch_id)) => self.highlight_cache.contains_key(
                HighlightKey { tree_id, branch_id, message_id },
            ),
            None => false,
        }
    }

    /// Caches a highlighted text for the message in the cache context.
    pub fn cache_highlighted_text(&mut self, message_id: u128, text: Text<'static>)
        ensures
            match highlight_key_of(*old(self), message_id) {
                Some(k) => final(self).highlight_cache@ == old(self).highlight_cache@.insert(k, text),
                None => final(self).highlight_cache@ == old(self).highlight_cache@,
            },
            (AppState { highlight_cache: final(self).highlight_cache, ..*old(self) }) == *final(self),
    {
        if let Some((tree_id, branch_id)) = self.current_cache_context() {
            self.highlight_cache.insert(HighlightKey { tree_id, branch_id, message_id }, text);
        }
    }

    /// Forgets the highlighted text of the message in the cache context.
    pub fn invalidate_message_highlight(&mut self, message_id: u128)
        ensures
            match highlight_key_of(*old(self), message_id) {
                Some(k) => final(self).highlight_cache@ == old(self).highlight_cache@.remove(k),
                None => final(self).highlight_cache@ == old(self).highlight_cache@,
            },
            (AppState { highlight_cache: final(self).highlight_cache, ..*old(self) }) == *final(self),
    {
        if let Some((tree_id, branch_id)) = self.current_cache_context() {
            self.highlight_cache.remove(HighlightKey { tree_id, branch_id, message_id });
        }
    }

    /// Forgets every highlighted text.
    pub fn clear_highlight_cache(&mut self)
        ensures
            final(self).highlight_cache@ == Map::<HighlightKey, Text<'static>>::empty(),
            (AppState { highlight_cache: final(self).highlight_cache, ..*old(self) }) == *final(self),
    {
        self.highlight_cache.clear();
    }

    /// The cached height of a message at a width, in the cache context.
    pub fn get_cached_height(&self, message_id: u128, viewport_width: u16) -> (r: Option<usize>)
        ensures
            r == cached_height_of(*self, message_id, viewport_width),
    {
        let (tree_id, branch_id) = match self.current_cache_context() {
            Some(c) => c,
            None => return None,
        };
        self.height_cache.get(HeightKey { tree_id, branch_id, message_id, viewport_width })
    }

    /// Caches the height of a message at a width, in the cache context.
    pub fn cache_height(&mut self, message_id: u128, viewport_width: u16, height: usize)
        ensures
            match height_key_of(*old(self), message_id, viewport_width) {
                Some(k) => final(self).height_cache@ == old(self).height_cache@.insert(k, height),
                None => final(self).height_cache@ == old(self).height_cache@,
            },
            (AppState { height_cache: final(self).height_cache, ..*old(self) }) == *final(self),
    {
        if let Some((tree_id, branch_id)) = self.current_cache_context() {
            self.height_cache.insert(
                HeightKey { tree_id, branch_id, message_id, viewport_width },
                height,
            );
        }
    }

    /// Forgets the heights of the message at every width, in the cache context.
    pub fn invalidate_message_height(&mut self, message_id: u128)
        ensures
            match cache_context_of(*old(self)) {
                Some((t, b)) => final(self).height_cache@ == heights_without_message(
                    old(self).height_cache@,
                    t,
                    b,
                    message_id,
                ),
                None => final(self).height_cache@ == old(self).height_cache@,
            },
            forall|k: HeightKey| #[trigger]
                final(self).height_cache@.contains_key(k) ==> final(self).height_cache@[k] == old(
                    self,
                ).height_cache@[k],
            (AppState { height_cache: final(self).height_cache, ..*old(self) }) == *final(self),
    {
        if let Some((tree_id, branch_id)) = self.current_cache_context() {
            self.height_cache.remove_message(tree_id, branch_id, message_id);
        }
    }

    /// Forgets every measured height.
    pub fn clear_height_cache(&mut self)
        ensures
            final(self).height_cache@ == Map::<HeightKey, usize>::empty(),
            (AppState { height_cache: final(self).height_cache, ..*old(self) }) == *final(self),
    {
        self.height_cache.clear();
    }

    /// Whether the focused message is the last of the branch and the user's: editing it
    /// continues the conversation.
    pub fn is_append_mode(&self) -> (r: bool)
        ensures
            r == append_mode_of(*self),
    {
        let focused_message_id = match self.focused_message_id {
            Some(id) => id,
            None => return false,
        };
        let branch = match self.current_branch() {
            Some(b) => b,
            None => return false,
        };
        let message = match branch.get_message_by_id(focused_message_id) {
            Some(m) => m,
            None => return false,
        };
        let n = branch.messages.len();
        n > 0 && branch.messages[n - 1].id == message.id && message.role == Role::User
    }
    /// Highlights and measures, at `viewport_width`, every message of the branch being
    /// shown that the caches lack; cached entries are kept as they are.
    #[verifier::loop_isolation(false)]
    pub fn populate_caches_for_current_branch(&mut self, viewport_width: u16)
        ensures
            (AppState {
                highlight_cache: final(self).highlight_cache,
                height_cache: final(self).height_cache,
                ..*old(self)
            }) == *final(self),
            cache_context_of(*old(self)) is None ==> final(self).highlight_cache@ == old(
                self,
            ).highlight_cache@ && final(self).height_cache@ == old(self).height_cache@,
            forall|k: HighlightKey| #[trigger]
                old(self).highlight_cache@.contains_key(k) ==> final(self).highlight_cache@.contains_key(k)
                    && final(self).highlight_cache@[k] == old(self).highlight_cache@[k],
            forall|k: HeightKey| #[trigger]
                old(self).height_cache@.contains_key(k) ==> final(self).height_cache@.contains_key(k)
                    && final(self).height_cache@[k] == old(self).height_cache@[k],
            forall|i: int|
                0 <= i < current_messages_of(*old(self)).len() ==> match cache_context_of(*old(self)) {
                    Some((t, b)) => final(self).highlight_cache@.contains_key(
                        HighlightKey {
                            tree_id: t,
                            branch_id: b,
                            message_id: #[trigger] current_messages_of(*old(self))[i].id,
                        },
                    ) && final(self).height_cache@.contains_key(
                        HeightKey {
                            tree_id: t,
                            branch_id: b,
                            message_id: current_messages_of(*old(self))[i].id,
                            viewport_width,
                        },
                    ),
                    None => true,
                },
            forall|k: HighlightKey| #[trigger]
                final(self).highlight_cache@.contains_key(k) ==> old(self).highlight_cache@.contains_key(k)
                    || exists|i: int|
                    0 <= i < current_messages_of(*old(self)).len() && highlight_key_of(
                        *old(self),
                        #[trigger] current_messages_of(*old(self))[i].id,
                    ) == Some(k),
            forall|k: HeightKey| #[trigger]
                final(self).height_cache@.contains_key(k) ==> old(self).height_cache@.contains_key(k)
                    || exists|i: int|
                    0 <= i < current_messages_of(*old(self)).len() && height_key_of(
                        *old(self),
                        #[trigger] current_messages_of(*old(self))[i].id,
                        viewport_width,
                    ) == Some(k),
            forall|k: HeightKey| #[trigger]
                final(self).height_cache@.contains_key(k) && !old(self).height_cache@.contains_key(k)
                    ==> measured_height_ok(final(self).height_cache@[k], viewport_width),
    {
        let ghost msgs = current_messages_of(*self);
        let mut message_data: Vec<(u128, String)> = Vec::new();
        let current = self.current_messages();
        let mut j: usize = 0;
        while j < current.len()
            invariant
                current@ == msgs,
                j <= msgs.len(),
                message_data@.len() == j,
                forall|q: int|
                    0 <= q < j ==> #[trigger] message_data@[q].0 == msgs[q].id
                        && message_data@[q].1@ == msgs[q].content@,
            decreases msgs.len() - j,
        {
            message_data.push((current[j].id, current[j].content.clone()));
            j = j + 1;
        }
        let ghost start = *self;
        let mut i: usize = 0;
        while i < message_data.len()
            invariant
                i <= msgs.len(),
                message_data@.len() == msgs.len(),
                forall|q: int| 0 <= q < msgs.len() ==> #[trigger] message_data@[q].0 == msgs[q].id,
                (AppState {
                    highlight_cache: self.highlight_cache,
                    height_cache: self.height_cache,
                    ..start
                }) == *self,
                cache_context_of(start) is None ==> self.highlight_cache@
                    == start.highlight_cache@ && self.height_cache@ == start.height_cache@,
                forall|k: HighlightKey| #[trigger]
                    start.highlight_cache@.contains_key(k) ==> self.highlight_cache@.contains_key(k)
                        && self.highlight_cache@[k] == start.highlight_cache@[k],
                forall|k: HeightKey| #[trigger]
                    start.height_cache@.contains_key(k) ==> self.height_cache@.contains_key(k)
                        && self.height_cache@[k] == start.height_cache@[k],
                forall|q: int|
                    0 <= q < i ==> match cache_context_of(start) {
                        Some((t, b)) => self.highlight_cache@.contains_key(
                            HighlightKey { tree_id: t, branch_id: b, message_id: #[trigger] msgs[q].id },
                        ) && self.height_cache@.contains_key(
                            HeightKey {
                                tree_id: t,
                                branch_id: b,
                                message_id: msgs[q].id,
                                viewport_width,
                            },
                        ),
                        None => true,
                    },
                forall|k: HighlightKey| #[trigger]
                    self.highlight_cache@.contains_key(k) ==> start.highlight_cache@.contains_key(k)
                        || exists|q: int|
                        0 <= q < msgs.len() && highlight_key_of(start, #[trigger] msgs[q].id) == Some(k),
                forall|k: HeightKey| #[trigger]
                    self.height_cache@.contains_key(k) ==> start.height_cache@.contains_key(k)
                        || exists|q: int|
                        0 <= q < msgs.len() && height_key_of(start, #[trigger] msgs[q].id, viewport_width)
                            == Some(k),
                forall|k: HeightKey| #[trigger]
                    self.height_cache@.contains_key(k) && !start.height_cache@.contains_key(k)
                        ==> measured_height_ok(self.height_cache@[k], viewport_width),
            decreases msgs.len() - i,
        {
            let message_id = message_data[i].0;
            let content = &message_data[i].1;
            proof {
                assert(message_id == msgs[i as int].id);
            }
            if !self.has_cached_highlight(message_id) {
                let highlighted = highlight_markdown(content.as_str());
                self.cache_highlighted_text(message_id, highlighted);
            }
            if self.get_cached_height(message_id, viewport_width).is_none() {
                let text = match self.get_cached_highlighted_text(message_id) {
                    Some(t) => t,
                    None => raw_text(content.clone()),
                };
                let height = bordered_line_count(text, viewport_width);
                self.cache_height(message_id, viewport_width, height);
            }
            i = i + 1;
        }
    }
}

impl Default for AppState {
    /// The sample dialogue, shown at its first tree and branch, in normal mode, asking
    /// to focus the last message.
    fn default() -> (r: AppState)
        ensures
            dialogue_outline(r.dialogue) == sample_outline(),
            r.mode == Mode::Normal,
            is_default_settings(r.config),
            r.model_info.tokens_used == 0 && r.model_info.tokens_available == 0,
            r.current_tree_id == Some(r.dialogue.trees@[0].id),
            r.current_branch_id == Some(r.dialogue.trees@[0].branches@[0].id),
            current_branch_of(r) == Some(r.dialogue.trees@[0].branches@[0]),
            r.focused_message_id is None,
            r.scroll_offset == 0,
            r.scrollbar_state == (ScrollbarModel {
                content_length: 0,
                viewport_content_length: 0,
                position: 0,
            }),
            r.pending_scrolling_request == Some(ScrollingRequest::ScrollToLastMessage),
            r.error_message is None,
            r.edit_textarea is None,
            r.highlight_cache@ == Map::<HighlightKey, Text<'static>>::empty(),
            r.height_cache@ == Map::<HeightKey, usize>::empty(),
    {
        let dialogue = create_test_dialogue();
        let tree_id = if dialogue.trees.len() > 0 {
            Some(dialogue.trees[0].id)
        } else {
            None
        };
        let branch_id = match tree_id {
            Some(tid) => match dialogue.get_tree_by_id(tid) {
                Some(t) => if t.branches.len() > 0 {
                    Some(t.branches[0].id)
                } else {
                    None
                },
                None => None,
            },
            None => None,
        };
        proof {
            let ts = dialogue.trees@;
            assert(dialogue_outline(dialogue).1.len() == ts.len());
            assert(ts.len() == 2);
            assert(dialogue_outline(dialogue).1[0] == tree_outline(ts[0]));
            assert(tree_outline(ts[0]).1.len() == ts[0].branches@.len());
            assert(ts[0].branches@.len() == 3);
            assert(tree_outline(ts[0]).1[0] == branch_outline(ts[0].branches@[0]));
            assert(branch_outline(ts[0].branches@[0]).1.len() == ts[0].branches@[0].messages@.len());
            assert(ts[0].branches@[0].messages@.len() == 7);
            assert(is_first_tree(ts, ts[0].id, 0));
            assert(is_first_branch_pos(ts, ts[0].branches@[0].id, 0, 0));
        }
        let mut state = AppState {
            dialogue,
            mode: Mode::Normal,
            config: Config::default(),
            model_info: ModelInfo::default(),
            current_tree_id: tree_id,
            current_branch_id: branch_id,
            focused_message_id: None,
            scroll_offset: 0,
            scrollbar_state: ScrollbarModel { content_length: 0, viewport_content_length: 0, position: 0 },
            pending_scrolling_request: None,
            error_message: None,
            edit_textarea: None,
            highlight_cache: HighlightCache::new(),
            height_cache: HeightCache::new(),
        };
        let has_messages = match state.current_branch() {
            Some(b) => b.messages.len() > 0,
            None => false,
        };
        if has_messages {
            state.pending_scrolling_request = Some(ScrollingRequest::ScrollToLastMessage);
        }
        state
    }
}

} // verus!
