use vstd::prelude::*;
use crate::actions::{
    edit_actions, normal_actions, EditModeActionSchema, NormalModeActionSchema,
    is_last_with_id, lemma_schema_of_own_id, lemma_schema_position, registered_schemas,
    schema_position, schema_with_id, ActionSchema,
};
use crate::caches::{of_message, HeightKey};
use crate::edit_view::{placements_from, visible_portion};
use crate::layout::Rect;
use crate::theme::{border_name, border_of_name, color_name, color_of_name, BorderType, Color};
use crate::dialogue::{
    index_of_branch, index_of_tree, is_first_branch, is_first_branch_pos, is_first_message_pos,
    is_first_tree, branch_by_id, message_branch_pos, Branch, Tree,
};
use crate::dialogue_service::hyphenated;
use crate::normal_mode_handler::{
    branch_step, next_index, prev_index, scrolled_down, scrolled_up, switched_branch,
    switched_tree, tree_step,
};
use crate::keys::{
    alt_word, ctrl_word, key_of_name, shift_word, starts_with_part,
    lemma_strip_part, lemma_strip_rest, modifier_word, no_modifiers, parse_key_spec, strip_modifiers,
    with_modifier, KeyChord, KeyCode, KeyModifiers,
};
use crate::reducer::caches_invalidated;
use crate::status::{key_code_text, modifiers_text};
use crate::scrolling::{clamped_scroll, max_scroll, min_scroll, scroll_bounds_ok, scroll_to_focus};
use crate::focus_resolver::{resolve_request, ScrollingRequest};
use crate::dialogue::{is_first_index, Message};
use crate::selection::selected_text;
use crate::state::{
    cache_context_of, cached_height_of, cached_highlight_of, current_messages_of, current_tree_of,
    focused_on, height_key_of, highlight_key_of, AppState,
};

verus! {

/// Whether no two branches share an identifier.
pub open spec fn distinct_branch_ids(bs: Seq<Branch>) -> bool {
    forall|i: int, j: int| 0 <= i < j < bs.len() ==> bs[i].id != bs[j].id
}

/// Whether no two trees share an identifier.
pub open spec fn distinct_tree_ids(ts: Seq<Tree>) -> bool {
    forall|i: int, j: int| 0 <= i < j < ts.len() ==> ts[i].id != ts[j].id
}

/// Whether no two branches anywhere in the trees share an identifier.
pub open spec fn distinct_branch_ids_everywhere(ts: Seq<Tree>) -> bool {
    forall|t1: int, b1: int, t2: int, b2: int|
        #![trigger ts[t1].branches@[b1], ts[t2].branches@[b2]]
        0 <= t1 < ts.len() && 0 <= t2 < ts.len() && 0 <= b1 < ts[t1].branches@.len() && 0 <= b2
            < ts[t2].branches@.len() && (t1 != t2 || b1 != b2) ==> ts[t1].branches@[b1].id
            != ts[t2].branches@[b2].id
}

proof fn lemma_index_of_distinct_branch(bs: Seq<Branch>, j: int)
    requires
        distinct_branch_ids(bs),
        0 <= j < bs.len(),
    ensures
        index_of_branch(bs, bs[j].id) == Some(j),
{
    assert(is_first_branch(bs, bs[j].id, j));
    let k = choose|k: int| is_first_branch(bs, bs[j].id, k);
    if k < j {
        assert(bs[k].id != bs[j].id);
    } else if k > j {
        assert(bs[j].id != bs[k].id);
    }
}

proof fn lemma_index_of_distinct_tree(ts: Seq<Tree>, j: int)
    requires
        distinct_tree_ids(ts),
        0 <= j < ts.len(),
    ensures
        index_of_tree(ts, ts[j].id) == Some(j),
{
    assert(is_first_tree(ts, ts[j].id, j));
    let k = choose|k: int| is_first_tree(ts, ts[j].id, k);
    if k < j {
        assert(ts[k].id != ts[j].id);
    } else if k > j {
        assert(ts[j].id != ts[k].id);
    }
}

proof fn lemma_next_prev(i: int, n: int)
    requires
        0 <= i < n,
    ensures
        0 <= next_index(i, n) < n,
        prev_index(next_index(i, n), n) == i,
        0 <= prev_index(i, n) < n,
        next_index(prev_index(i, n), n) == i,
{
    if i + 1 < n {
        assert((i + 1) % n == i + 1) by (nonlinear_arith)
            requires
                0 <= i + 1 < n,
        ;
    } else {
        assert((i + 1) % n == 0) by (nonlinear_arith)
            requires
                i + 1 == n,
                n > 0,
        ;
    }
    if i == 0 {
        assert(n % n == 0) by (nonlinear_arith)
            requires
                n > 0,
        ;
    } else {
        assert(i % n == i) by (nonlinear_arith)
            requires
                0 <= i < n,
        ;
    }
}

/// Going to the next branch and then back to the previous one shows the branch shown
/// before, when the tree's branches have distinct identifiers.
pub proof fn law_next_then_prev_branch(s: AppState, nb: u128)
    requires
        branch_step(s, true) == Some(nb),
        match current_tree_of(s) {
            Some(t) => distinct_branch_ids(t.branches@),
            None => false,
        },
    ensures
        branch_step(switched_branch(s, nb), false) == s.current_branch_id,
{
    let t = current_tree_of(s).unwrap();
    let bs = t.branches@;
    let i = index_of_branch(bs, s.current_branch_id.unwrap()).unwrap();
    assert(is_first_branch(bs, s.current_branch_id.unwrap(), i));
    let n = bs.len() as int;
    let j = next_index(i, n);
    lemma_next_prev(i, n);
    let s2 = switched_branch(s, nb);
    assert(s2.current_tree_id == s.current_tree_id && s2.dialogue == s.dialogue);
    assert(current_tree_of(s2) == current_tree_of(s));
    lemma_index_of_distinct_branch(bs, j);
}

/// Going to the previous branch and then to the next one shows the branch shown before,
/// when the tree's branches have distinct identifiers.
pub proof fn law_prev_then_next_branch(s: AppState, pb: u128)
    requires
        branch_step(s, false) == Some(pb),
        match current_tree_of(s) {
            Some(t) => distinct_branch_ids(t.branches@),
            None => false,
        },
    ensures
        branch_step(switched_branch(s, pb), true) == s.current_branch_id,
{
    let t = current_tree_of(s).unwrap();
    let bs = t.branches@;
    let i = index_of_branch(bs, s.current_branch_id.unwrap()).unwrap();
    assert(is_first_branch(bs, s.current_branch_id.unwrap(), i));
    let n = bs.len() as int;
    let j = prev_index(i, n);
    lemma_next_prev(j, n);
    let s2 = switched_branch(s, pb);
    assert(current_tree_of(s2) == current_tree_of(s));
    lemma_index_of_distinct_branch(bs, j);
}

/// Going to the next tree and then back to the previous one shows the tree shown before,
/// when the trees have distinct identifiers.
pub proof fn law_next_then_prev_tree(s: AppState, nt: u128)
    requires
        tree_step(s, true) == Some(nt),
        distinct_tree_ids(s.dialogue.trees@),
    ensures
        tree_step(switched_tree(s, nt), false) == s.current_tree_id,
{
    let ts = s.dialogue.trees@;
    let i = index_of_tree(ts, s.current_tree_id.unwrap()).unwrap();
    assert(is_first_tree(ts, s.current_tree_id.unwrap(), i));
    let n = ts.len() as int;
    let j = next_index(i, n);
    lemma_next_prev(i, n);
    let s2 = switched_tree(s, nt);
    assert(s2.dialogue == s.dialogue);
    lemma_index_of_distinct_tree(ts, j);
}

/// Going to the previous tree and then to the next one shows the tree shown before,
/// when the trees have distinct identifiers.
pub proof fn law_prev_then_next_tree(s: AppState, pt: u128)
    requires
        tree_step(s, false) == Some(pt),
        distinct_tree_ids(s.dialogue.trees@),
    ensures
        tree_step(switched_tree(s, pt), true) == s.current_tree_id,
{
    let ts = s.dialogue.trees@;
    let i = index_of_tree(ts, s.current_tree_id.unwrap()).unwrap();
    assert(is_first_tree(ts, s.current_tree_id.unwrap(), i));
    let n = ts.len() as int;
    let j = prev_index(i, n);
    lemma_next_prev(j, n);
    let s2 = switched_tree(s, pt);
    assert(s2.dialogue == s.dialogue);
    lemma_index_of_distinct_tree(ts, j);
}

/// Scrolling one row up and then one row down returns to the same state, unless the view
/// was already at the lowest offset.
pub proof fn law_scroll_up_then_down(s: AppState)
    requires
        s.scroll_offset > isize::MIN,
    ensures
        scrolled_down(scrolled_up(s)) == s,
{
}

/// A clamped scroll offset lies within the scroll range, and clamping it again changes
/// nothing.
pub proof fn law_clamp_in_range(scroll_offset: int, viewport_height: int, total: int)
    requires
        scroll_bounds_ok(viewport_height, total),
    ensures
        min_scroll(viewport_height) <= clamped_scroll(scroll_offset, viewport_height, total)
            <= max_scroll(total),
        clamped_scroll(clamped_scroll(scroll_offset, viewport_height, total), viewport_height, total)
            == clamped_scroll(scroll_offset, viewport_height, total),
{
}

/// The selected text does not depend on the direction the selection was made in.
pub proof fn law_selection_direction(
    lines: Seq<Seq<char>>,
    a: (usize, usize),
    b: (usize, usize),
)
    ensures
        selected_text(lines, (a, b)) == selected_text(lines, (b, a)),
{
}

/// A height just cached for a message at a width is the one read back.
pub proof fn law_cache_height_then_read(s: AppState, f: AppState, id: u128, w: u16, h: usize)
    requires
        cache_context_of(s) is Some,
        cache_context_of(f) == cache_context_of(s),
        f.height_cache@ == s.height_cache@.insert(height_key_of(s, id, w).unwrap(), h),
    ensures
        cached_height_of(f, id, w) == Some(h),
{
}

/// Once a message's heights are forgotten, none is read back at any width, and other
/// messages keep theirs.
pub proof fn law_invalidated_height_gone(s: AppState, f: AppState, id: u128, other: u128, w: u16)
    requires
        cache_context_of(s) is Some,
        cache_context_of(f) == cache_context_of(s),
        caches_invalidated(s, f, id),
        other != id,
    ensures
        cached_height_of(f, id, w) is None,
        cached_height_of(f, other, w) == cached_height_of(s, other, w),
{
    let (t, b) = cache_context_of(s).unwrap();
    let k = HeightKey { tree_id: t, branch_id: b, message_id: id, viewport_width: w };
    assert(of_message(k, t, b, id));
    let k2 = HeightKey { tree_id: t, branch_id: b, message_id: other, viewport_width: w };
    assert(!of_message(k2, t, b, id));
    assert(f.height_cache@.contains_key(k2) == s.height_cache@.contains_key(k2));
}

/// A highlighted text just cached for a message is the one read back.
pub proof fn law_cache_highlight_then_read(s: AppState, f: AppState, id: u128, text: ratatui::text::Text<'static>)
    requires
        cache_context_of(s) is Some,
        cache_context_of(f) == cache_context_of(s),
        f.highlight_cache@ == s.highlight_cache@.insert(highlight_key_of(s, id).unwrap(), text),
    ensures
        cached_highlight_of(f, id) == Some(text),
{
}

/// Once a message's highlighted text is forgotten it is not read back, and other
/// messages keep theirs.
pub proof fn law_invalidated_highlight_gone(s: AppState, f: AppState, id: u128, other: u128)
    requires
        cache_context_of(s) is Some,
        cache_context_of(f) == cache_context_of(s),
        caches_invalidated(s, f, id),
        other != id,
    ensures
        cached_highlight_of(f, id) is None,
        cached_highlight_of(f, other) == cached_highlight_of(s, other),
{
}

/// Focusing a message shows a branch that holds it, when branch identifiers are distinct
/// across the dialogue.
pub proof fn law_focus_shows_message(s: AppState, id: u128)
    requires
        message_branch_pos(s.dialogue.trees@, id) is Some,
        distinct_branch_ids_everywhere(s.dialogue.trees@),
    ensures
        exists|m: int|
            0 <= m < current_messages_of(focused_on(s, id)).len() && (#[trigger] current_messages_of(
                focused_on(s, id),
            )[m]).id == id,
{
    let ts = s.dialogue.trees@;
    let (t, b, m) = choose|t: int, b: int, m: int| is_first_message_pos(ts, id, t, b, m);
    let f = focused_on(s, id);
    let bid = ts[t].branches@[b].id;
    assert(f.current_branch_id == Some(bid));
    assert(f.dialogue == s.dialogue);
    assert(is_first_branch_pos(ts, bid, t, b)) by {
        assert forall|t2: int, b2: int|
            0 <= t2 < t && 0 <= b2 < ts[t2].branches@.len() implies #[trigger] ts[t2].branches@[b2].id
            != bid by {
            assert(ts[t2].branches@[b2].id != ts[t].branches@[b].id);
        }
        assert forall|b2: int| 0 <= b2 < b implies #[trigger] ts[t].branches@[b2].id != bid by {
            assert(ts[t].branches@[b2].id != ts[t].branches@[b].id);
        }
    }
    let (t1, b1) = choose|t1: int, b1: int| is_first_branch_pos(ts, bid, t1, b1);
    if t1 != t || b1 != b {
        assert(ts[t1].branches@[b1].id != ts[t].branches@[b].id);
    }
    assert(branch_by_id(ts, bid) == Some(ts[t].branches@[b]));
    assert(current_messages_of(f) == ts[t].branches@[b].messages@);
    assert(current_messages_of(f)[m].id == id);
}

/// The text of an identifier has 36 characters.
pub proof fn law_identifier_text_length(id: u128)
    ensures
        hyphenated(id).len() == 36,
{
    reveal_strlit("-");
}

/// The order of two modifier parts in a chord description does not matter, nor does a
/// repeated part; and a key name accepted alone is accepted after modifier parts.
pub proof fn law_modifier_parts(i: int, j: int, k: Seq<char>)
    requires
        0 <= i < 3,
        0 <= j < 3,
    ensures
        parse_key_spec(modifier_word(i) + seq!['-'] + modifier_word(j) + seq!['-'] + k)
            == parse_key_spec(modifier_word(j) + seq!['-'] + modifier_word(i) + seq!['-'] + k),
        parse_key_spec(modifier_word(i) + seq!['-'] + modifier_word(i) + seq!['-'] + k)
            == parse_key_spec(modifier_word(i) + seq!['-'] + k),
        parse_key_spec(k) is Some ==> parse_key_spec(modifier_word(i) + seq!['-'] + k) is Some
            && parse_key_spec(modifier_word(i) + seq!['-'] + modifier_word(j) + seq!['-'] + k) is Some,
{
    let n = no_modifiers();
    let wi = modifier_word(i);
    let wj = modifier_word(j);
    assert(wi + seq!['-'] + wj + seq!['-'] + k =~= wi + seq!['-'] + (wj + seq!['-'] + k));
    assert(wj + seq!['-'] + wi + seq!['-'] + k =~= wj + seq!['-'] + (wi + seq!['-'] + k));
    assert(wi + seq!['-'] + wi + seq!['-'] + k =~= wi + seq!['-'] + (wi + seq!['-'] + k));
    lemma_strip_part(i, wj + seq!['-'] + k, n);
    lemma_strip_part(j, k, with_modifier(n, i));
    lemma_strip_part(j, wi + seq!['-'] + k, n);
    lemma_strip_part(i, k, with_modifier(n, j));
    lemma_strip_part(i, wi + seq!['-'] + k, n);
    lemma_strip_part(i, k, with_modifier(n, i));
    lemma_strip_part(i, k, n);
    assert(with_modifier(with_modifier(n, i), j) == with_modifier(with_modifier(n, j), i));
    assert(with_modifier(with_modifier(n, i), i) == with_modifier(n, i));
    lemma_strip_rest(k, with_modifier(n, i), n);
    lemma_strip_rest(k, with_modifier(with_modifier(n, i), j), n);
}

/// The description `prefix` + `c` of a chord: the parts `ctrl-`, `shift-` and `alt-` that
/// are asked for, in that order, then one character.
pub open spec fn chord_description(control: bool, shift: bool, alt: bool, c: char) -> Seq<char> {
    (if control {
        "ctrl-"@
    } else {
        Seq::empty()
    }) + (if shift {
        "shift-"@
    } else {
        Seq::empty()
    }) + (if alt {
        "alt-"@
    } else {
        Seq::empty()
    }) + seq![c]
}

/// Writing a parsed chord for the help gives back its description, for descriptions
/// made of modifier parts in the order `ctrl`, `shift`, `alt` and one ASCII character.
pub proof fn law_format_undoes_parse(control: bool, shift: bool, alt: bool, c: char)
    requires
        (c as u32) < 0x80,
    ensures
        ({
            let k = KeyChord {
                key: KeyCode::Char(c),
                modifiers: KeyModifiers { control, shift, alt, other: false },
            };
            &&& parse_key_spec(chord_description(control, shift, alt, c)) == Some(k)
            &&& modifiers_text(k) + key_code_text(k.key) == chord_description(control, shift, alt, c)
        }),
{
    reveal_strlit("ctrl-");
    reveal_strlit("shift-");
    reveal_strlit("alt-");
    let n = no_modifiers();
    let last = seq![c];
    let a_part: Seq<char> = if alt { "alt-"@ } else { Seq::empty() };
    let s_part: Seq<char> = if shift { "shift-"@ } else { Seq::empty() };
    let c_part: Seq<char> = if control { "ctrl-"@ } else { Seq::empty() };
    let m0 = if control { with_modifier(n, 0) } else { n };
    let m1 = if shift { with_modifier(m0, 1) } else { m0 };
    let m2 = if alt { with_modifier(m1, 2) } else { m1 };
    // the lone character is no modifier part
    assert(strip_modifiers(last, m2) == (last, m2));
    let t2 = a_part + last;
    if alt {
        assert(t2 =~= modifier_word(2) + seq!['-'] + last);
        lemma_strip_part(2, last, m1);
    } else {
        assert(t2 =~= last);
    }
    assert(strip_modifiers(t2, m1) == (last, m2));
    let t1 = s_part + t2;
    if shift {
        assert(t1 =~= modifier_word(1) + seq!['-'] + t2);
        lemma_strip_part(1, t2, m0);
    } else {
        assert(t1 =~= t2);
    }
    assert(strip_modifiers(t1, m0) == (last, m2));
    let t0 = c_part + t1;
    if control {
        assert(t0 =~= modifier_word(0) + seq!['-'] + t1);
        lemma_strip_part(0, t1, n);
    } else {
        assert(t0 =~= t1);
    }
    assert(strip_modifiers(t0, n) == (last, m2));
    assert(chord_description(control, shift, alt, c) =~= t0);
    assert(m2 == KeyModifiers { control, shift, alt, other: false });
}

/// No two action schemas, of any kind, share an identifier, and none is empty.
pub proof fn law_schema_ids_unique(s1: ActionSchema, s2: ActionSchema)
    ensures
        s1.id_of() == s2.id_of() ==> s1 == s2,
        s1.id_of().len() > 0,
{
    lemma_schema_of_own_id(s1);
    lemma_schema_of_own_id(s2);
}

proof fn lemma_last_with_id_exists(s: Seq<ActionSchema>, id: Seq<char>, p: int)
    requires
        0 <= p < s.len(),
        s[p].id_of() == id,
    ensures
        exists|q: int| is_last_with_id(s, id, q),
    decreases s.len(),
{
    if s.last().id_of() == id {
        assert(is_last_with_id(s, id, s.len() - 1));
    } else {
        lemma_last_with_id_exists(s.drop_last(), id, p);
        let q = choose|q: int| is_last_with_id(s.drop_last(), id, q);
        assert forall|r: int| q < r < s.len() implies s[r].id_of() != id by {
            if r < s.len() - 1 {
                assert(s[r] == s.drop_last()[r]);
            }
        }
        assert(s[q] == s.drop_last()[q]);
        assert(is_last_with_id(s, id, q));
    }
}

/// A fresh registry finds every schema by its identifier, and finds nothing under an
/// identifier that no schema has.
pub proof fn law_registry_finds_schemas(s: ActionSchema, id: Seq<char>)
    ensures
        schema_with_id(registered_schemas(), s.id_of()) == Some(s),
        schema_with_id(registered_schemas(), id) is None <==> forall|t: ActionSchema|
            #[trigger] t.id_of() != id,
{
    let r = registered_schemas();
    lemma_schema_position(s);
    lemma_last_with_id_exists(r, s.id_of(), schema_position(s));
    let q = choose|q: int| is_last_with_id(r, s.id_of(), q);
    law_schema_ids_unique(r[q], s);
    if schema_with_id(r, id) is None {
        assert forall|t: ActionSchema| #[trigger] t.id_of() != id by {
            if t.id_of() == id {
                lemma_schema_position(t);
                lemma_last_with_id_exists(r, id, schema_position(t));
            }
        }
    } else {
        let p = choose|p: int| is_last_with_id(r, id, p);
        assert(r[p].id_of() == id);
    }
}

/// The messages a history places are stacked without gaps from the starting row down,
/// each as wide as the area, some rows high, and inside the area.
pub proof fn law_placements_stacked(hs: Seq<int>, i: int, cur: int, y: int, area: Rect, so: int)
    requires
        area.y <= y <= area.y + area.height,
        area.y + area.height <= u16::MAX,
        forall|j: int| 0 <= j < hs.len() ==> hs[j] >= 0,
    ensures
        ({
            let p = placements_from(hs, i, cur, y, area, so);
            &&& p.len() > 0 ==> p[0].area.y == y
            &&& forall|k: int|
                0 <= k < p.len() ==> (#[trigger] p[k]).area.height > 0 && p[k].area.x == area.x
                    && p[k].area.width == area.width && area.y <= p[k].area.y && p[k].area.y
                    + p[k].area.height <= area.y + area.height
            &&& forall|k: int|
                0 <= k < p.len() - 1 ==> #[trigger] p[k + 1].area.y == p[k].area.y + p[k].area.height
        }),
    decreases hs.len() - i,
{
    if i >= hs.len() || i < 0 {
    } else if cur + hs[i] <= so {
        law_placements_stacked(hs, i + 1, cur + hs[i], y, area, so);
    } else if y >= area.y + area.height {
    } else {
        let r = visible_portion(area, y, cur, hs[i], so);
        let skip = if so > cur {
            so - cur
        } else {
            0
        };
        let content = hs[i] - skip;
        let available = area.y + area.height - y;
        let h = if content < available {
            content
        } else {
            available
        };
        assert(0 <= h <= available);
        assert(r.height == h);
        assert(r.y == y);
        if r.height > 0 {
            law_placements_stacked(hs, i + 1, cur + hs[i], y + r.height, area, so);
            let rest = placements_from(hs, i + 1, cur + hs[i], y + r.height, area, so);
            let p = placements_from(hs, i, cur, y, area, so);
            assert(p == seq![
                crate::edit_view::Placement { message_index: i as usize, area: r, skip_lines: skip as usize },
            ] + rest);
            assert forall|k: int| 0 <= k < p.len() - 1 implies #[trigger] p[k + 1].area.y == p[k].area.y
                + p[k].area.height by {
                if k > 0 {
                    let k1 = k - 1;
                    assert(p[k] == rest[k1]);
                    assert(p[k + 1] == rest[k1 + 1]);
                    assert(rest[k1 + 1].area.y == rest[k1].area.y + rest[k1].area.height);
                } else {
                    assert(p[1] == rest[0]);
                    assert(p[0].area == r);
                    assert(rest.len() > 0);
                    assert(rest[0].area.y == y + r.height);
                }
            }
            assert forall|k: int| 0 <= k < p.len() implies (#[trigger] p[k]).area.height > 0
                && p[k].area.x == area.x && p[k].area.width == area.width && area.y <= p[k].area.y
                && p[k].area.y + p[k].area.height <= area.y + area.height by {
                if k > 0 {
                    assert(p[k] == rest[k - 1]);
                }
            }
        } else {
            law_placements_stacked(hs, i + 1, cur + hs[i], y, area, so);
        }
    }
}

proof fn lemma_first_index_exists(msgs: Seq<Message>, p: int)
    requires
        0 <= p < msgs.len(),
    ensures
        exists|i: int| 0 <= i <= p && is_first_index(msgs, msgs[p].id, i),
    decreases p,
{
    if exists|j: int| 0 <= j < p && msgs[j].id == msgs[p].id {
        let j = choose|j: int| 0 <= j < p && msgs[j].id == msgs[p].id;
        lemma_first_index_exists(msgs, j);
        let i = choose|i: int| 0 <= i <= j && is_first_index(msgs, msgs[j].id, i);
        assert(is_first_index(msgs, msgs[p].id, i));
    } else {
        assert(is_first_index(msgs, msgs[p].id, p));
    }
}

/// Asking to keep the position focused before focuses the message now at that position
/// when the branch has one, exactly as asking for that message would, and otherwise
/// the last message; the focused message is the one at the position.
pub proof fn law_same_index_or_last(previous_index: usize, msgs: Seq<Message>, cur: int, vh: int, w: u16)
    ensures
        previous_index < msgs.len() ==> resolve_request(
            ScrollingRequest::ScrollToMessageWithSameIndexOrLast { previous_index },
            msgs,
            cur,
            vh,
            w,
        ) == resolve_request(ScrollingRequest::ScrollToMessage(msgs[previous_index as int].id), msgs, cur, vh, w),
        previous_index < msgs.len() ==> (match resolve_request(
            ScrollingRequest::ScrollToMessageWithSameIndexOrLast { previous_index },
            msgs,
            cur,
            vh,
            w,
        ) {
            Some((id, _)) => id == msgs[previous_index as int].id,
            None => false,
        }),
        previous_index >= msgs.len() ==> resolve_request(
            ScrollingRequest::ScrollToMessageWithSameIndexOrLast { previous_index },
            msgs,
            cur,
            vh,
            w,
        ) == resolve_request(ScrollingRequest::ScrollToLastMessage, msgs, cur, vh, w),
{
    if previous_index < msgs.len() {
        lemma_first_index_exists(msgs, previous_index as int);
        assert(scroll_to_focus(msgs, msgs[previous_index as int].id, vh, w) is Some);
    }
}

/// Distinct key names stand for distinct keys.
pub proof fn law_key_names_distinct(k1: Seq<char>, k2: Seq<char>)
    ensures
        key_of_name(k1) is Some && key_of_name(k1) == key_of_name(k2) ==> k1 == k2,
{
    if key_of_name(k1) is Some && key_of_name(k1) == key_of_name(k2) {
        if k1.len() == 1 && k2.len() == 1 {
            assert(k1 =~= k2);
        } else if k1.len() == 2 && k2.len() == 2 {
            assert(k1 =~= k2);
        }
    }
}

/// A key named in a binding is written in the help by that same name, for every key that
/// the help writes by name rather than by an arrow or a placeholder: escape, enter, tab,
/// backspace, home, end, the page keys and the characters.
pub proof fn law_key_names_written_back(k: Seq<char>)
    ensures
        match key_of_name(k) {
            Some(code) => match code {
                KeyCode::Up | KeyCode::Down | KeyCode::Left | KeyCode::Right | KeyCode::Delete
                | KeyCode::F(_) | KeyCode::Other => true,
                _ => key_code_text(code) == k,
            },
            None => true,
        },
{
    reveal_strlit("esc");
    reveal_strlit("enter");
    reveal_strlit("tab");
    reveal_strlit("backspace");
    reveal_strlit("home");
    reveal_strlit("end");
    reveal_strlit("pgup");
    reveal_strlit("pgdn");
    if k.len() == 1 {
        assert(k =~= seq![k[0]]);
    }
}

/// A key name with no modifier part stands, in a binding, for that key with no modifier.
pub proof fn law_plain_key_parses(k: Seq<char>)
    requires
        !starts_with_part(k, ctrl_word()),
        !starts_with_part(k, shift_word()),
        !starts_with_part(k, alt_word()),
    ensures
        parse_key_spec(k) == match key_of_name(k) {
            Some(code) => Some(KeyChord { key: code, modifiers: no_modifiers() }),
            None => None::<KeyChord>,
        },
{
}

/// Different normal-mode schemas describe different actions, and the schemas, taken in
/// the order they are declared, describe the actions in the order those are declared:
/// each schema describes the action of the same name.
pub proof fn law_normal_schema_actions(s1: NormalModeActionSchema, s2: NormalModeActionSchema)
    ensures
        s1.action_of() == s2.action_of() ==> s1 == s2,
        NormalModeActionSchema::all_schemas().map_values(|s: NormalModeActionSchema| s.action_of())
            == normal_actions(),
{
    assert(NormalModeActionSchema::all_schemas().map_values(|s: NormalModeActionSchema| s.action_of())
        =~= normal_actions());
}

/// Different edit-mode schemas describe different actions, and the schemas, taken in the
/// order they are declared, describe the actions in the order those are declared: each
/// schema describes the action of the same name.
pub proof fn law_edit_schema_actions(s1: EditModeActionSchema, s2: EditModeActionSchema)
    ensures
        s1.action_of() == s2.action_of() ==> s1 == s2,
        EditModeActionSchema::all_schemas().map_values(|s: EditModeActionSchema| s.action_of())
            == edit_actions(),
{
    assert(EditModeActionSchema::all_schemas().map_values(|s: EditModeActionSchema| s.action_of())
        =~= edit_actions());
}

proof fn lemma_color_name_lengths()
    ensures
        "black"@.len() == 5,
        "red"@.len() == 3,
        "green"@.len() == 5,
        "yellow"@.len() == 6,
        "blue"@.len() == 4,
        "magenta"@.len() == 7,
        "cyan"@.len() == 4,
        "gray"@.len() == 4,
        "dark_gray"@.len() == 9,
        "light_red"@.len() == 9,
        "light_green"@.len() == 11,
        "light_yellow"@.len() == 12,
        "light_blue"@.len() == 10,
        "light_magenta"@.len() == 13,
        "light_cyan"@.len() == 10,
        "white"@.len() == 5,
{
    reveal_strlit("black");
    reveal_strlit("red");
    reveal_strlit("green");
    reveal_strlit("yellow");
    reveal_strlit("blue");
    reveal_strlit("magenta");
    reveal_strlit("cyan");
    reveal_strlit("gray");
    reveal_strlit("dark_gray");
    reveal_strlit("light_red");
    reveal_strlit("light_green");
    reveal_strlit("light_yellow");
    reveal_strlit("light_blue");
    reveal_strlit("light_magenta");
    reveal_strlit("light_cyan");
    reveal_strlit("white");
}

proof fn lemma_color_name_0()
    ensures
        color_of_name(color_name(Color::Black)) == Some(Color::Black),
{
    lemma_color_name_lengths();
    reveal_strlit("black");
}

proof fn lemma_color_name_1()
    ensures
        color_of_name(color_name(Color::Red)) == Some(Color::Red),
{
    lemma_color_name_lengths();
    reveal_strlit("red");
}

proof fn lemma_color_name_2()
    ensures
        color_of_name(color_name(Color::Green)) == Some(Color::Green),
{
    lemma_color_name_lengths();
    reveal_strlit("green");
    reveal_strlit("black");
    assert("green"@[0] != "black"@[0]);
}

proof fn lemma_color_name_3()
    ensures
        color_of_name(color_name(Color::Yellow)) == Some(Color::Yellow),
{
    lemma_color_name_lengths();
    reveal_strlit("yellow");
}

proof fn lemma_color_name_4()
    ensures
        color_of_name(color_name(Color::Blue)) == Some(Color::Blue),
{
    lemma_color_name_lengths();
    reveal_strlit("blue");
}

proof fn lemma_color_name_5()
    ensures
        color_of_name(color_name(Color::Magenta)) == Some(Color::Magenta),
{
    lemma_color_name_lengths();
    reveal_strlit("magenta");
}

proof fn lemma_color_name_6()
    ensures
        color_of_name(color_name(Color::Cyan)) == Some(Color::Cyan),
{
    lemma_color_name_lengths();
    reveal_strlit("cyan");
    reveal_strlit("blue");
    assert("cyan"@[0] != "blue"@[0]);
}

proof fn lemma_color_name_7()
    ensures
        color_of_name(color_name(Color::Gray)) == Some(Color::Gray),
{
    lemma_color_name_lengths();
    reveal_strlit("gray");
    reveal_strlit("blue");
    assert("gray"@[0] != "blue"@[0]);
    reveal_strlit("cyan");
    assert("gray"@[0] != "cyan"@[0]);
}

proof fn lemma_color_name_8()
    ensures
        color_of_name(color_name(Color::DarkGray)) == Some(Color::DarkGray),
{
    lemma_color_name_lengths();
    reveal_strlit("dark_gray");
}

proof fn lemma_color_name_9()
    ensures
        color_of_name(color_name(Color::LightRed)) == Some(Color::LightRed),
{
    lemma_color_name_lengths();
    reveal_strlit("light_red");
    reveal_strlit("dark_gray");
    assert("light_red"@[0] != "dark_gray"@[0]);
}

proof fn lemma_color_name_10()
    ensures
        color_of_name(color_name(Color::LightGreen)) == Some(Color::LightGreen),
{
    lemma_color_name_lengths();
    reveal_strlit("light_green");
}

proof fn lemma_color_name_11()
    ensures
        color_of_name(color_name(Color::LightYellow)) == Some(Color::LightYellow),
{
    lemma_color_name_lengths();
    reveal_strlit("light_yellow");
}

proof fn lemma_color_name_12()
    ensures
        color_of_name(color_name(Color::LightBlue)) == Some(Color::LightBlue),
{
    lemma_color_name_lengths();
    reveal_strlit("light_blue");
}

proof fn lemma_color_name_13()
    ensures
        color_of_name(color_name(Color::LightMagenta)) == Some(Color::LightMagenta),
{
    lemma_color_name_lengths();
    reveal_strlit("light_magenta");
}

proof fn lemma_color_name_14()
    ensures
        color_of_name(color_name(Color::LightCyan)) == Some(Color::LightCyan),
{
    lemma_color_name_lengths();
    reveal_strlit("light_cyan");
    reveal_strlit("light_blue");
    assert("light_cyan"@[6] != "light_blue"@[6]);
}

proof fn lemma_color_name_15()
    ensures
        color_of_name(color_name(Color::White)) == Some(Color::White),
{
    lemma_color_name_lengths();
    reveal_strlit("white");
    reveal_strlit("black");
    assert("white"@[0] != "black"@[0]);
    reveal_strlit("green");
    assert("white"@[0] != "green"@[0]);
}

proof fn lemma_border_name_lengths()
    ensures
        "plain"@.len() == 5,
        "double"@.len() == 6,
        "rounded"@.len() == 7,
        "thick"@.len() == 5,
        "quadrant_inside"@.len() == 15,
        "quadrant_outside"@.len() == 16,
{
    reveal_strlit("plain");
    reveal_strlit("double");
    reveal_strlit("rounded");
    reveal_strlit("thick");
    reveal_strlit("quadrant_inside");
    reveal_strlit("quadrant_outside");
}

proof fn lemma_border_name_0()
    ensures
        border_of_name(border_name(BorderType::Plain)) == Some(BorderType::Plain),
{
    lemma_border_name_lengths();
    reveal_strlit("plain");
}

proof fn lemma_border_name_1()
    ensures
        border_of_name(border_name(BorderType::Double)) == Some(BorderType::Double),
{
    lemma_border_name_lengths();
    reveal_strlit("double");
}

proof fn lemma_border_name_2()
    ensures
        border_of_name(border_name(BorderType::Rounded)) == Some(BorderType::Rounded),
{
    lemma_border_name_lengths();
    reveal_strlit("rounded");
}

proof fn lemma_border_name_3()
    ensures
        border_of_name(border_name(BorderType::Thick)) == Some(BorderType::Thick),
{
    lemma_border_name_lengths();
    reveal_strlit("thick");
    reveal_strlit("plain");
    assert("thick"@[0] != "plain"@[0]);
}

proof fn lemma_border_name_4()
    ensures
        border_of_name(border_name(BorderType::QuadrantInside)) == Some(BorderType::QuadrantInside),
{
    lemma_border_name_lengths();
    reveal_strlit("quadrant_inside");
}

proof fn lemma_border_name_5()
    ensures
        border_of_name(border_name(BorderType::QuadrantOutside)) == Some(BorderType::QuadrantOutside),
{
    lemma_border_name_lengths();
    reveal_strlit("quadrant_outside");
}

/// Each colour other than the terminal's default is read from its name, and no two names
/// are read as the same colour.
pub proof fn law_color_names(c: Color, s1: Seq<char>, s2: Seq<char>)
    ensures
        c != Color::Reset ==> color_of_name(color_name(c)) == Some(c),
        color_of_name(s1) is Some && color_of_name(s1) == color_of_name(s2) ==> s1 == s2,
{
    match c {
        Color::Black => lemma_color_name_0(),
        Color::Red => lemma_color_name_1(),
        Color::Green => lemma_color_name_2(),
        Color::Yellow => lemma_color_name_3(),
        Color::Blue => lemma_color_name_4(),
        Color::Magenta => lemma_color_name_5(),
        Color::Cyan => lemma_color_name_6(),
        Color::Gray => lemma_color_name_7(),
        Color::DarkGray => lemma_color_name_8(),
        Color::LightRed => lemma_color_name_9(),
        Color::LightGreen => lemma_color_name_10(),
        Color::LightYellow => lemma_color_name_11(),
        Color::LightBlue => lemma_color_name_12(),
        Color::LightMagenta => lemma_color_name_13(),
        Color::LightCyan => lemma_color_name_14(),
        Color::White => lemma_color_name_15(),
        Color::Reset => {},
    }
}

/// Each border style is read from its name, and no two names are read as the same style.
pub proof fn law_border_names(b: BorderType, s1: Seq<char>, s2: Seq<char>)
    ensures
        border_of_name(border_name(b)) == Some(b),
        border_of_name(s1) is Some && border_of_name(s1) == border_of_name(s2) ==> s1 == s2,
{
    match b {
        BorderType::Plain => lemma_border_name_0(),
        BorderType::Double => lemma_border_name_1(),
        BorderType::Rounded => lemma_border_name_2(),
        BorderType::Thick => lemma_border_name_3(),
        BorderType::QuadrantInside => lemma_border_name_4(),
        BorderType::QuadrantOutside => lemma_border_name_5(),
    }
}

} // verus!
