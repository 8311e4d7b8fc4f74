use vstd::prelude::*;
use ratatui::text::Text;
use crate::highlighting::clone_text;

verus! {

/// Where a highlighted text belongs: its tree, branch and message.
#[derive(Clone, Copy, Debug, PartialEq, Eq, Hash, Structural)]
pub struct HighlightKey {
    pub tree_id: u128,
    pub branch_id: u128,
    pub message_id: u128,
}

/// Where a measured height belongs: its tree, branch and message, and the width it was
/// measured at.
#[derive(Clone, Copy, Debug, PartialEq, Eq, Hash, Structural)]
pub struct HeightKey {
    pub tree_id: u128,
    pub branch_id: u128,
    pub message_id: u128,
    pub viewport_width: u16,
}

/// The value of the last entry with key `k`: later entries override earlier ones.
pub open spec fn lookup<K, V>(e: Seq<(K, V)>, k: K) -> Option<V>
    decreases e.len(),
{
    if e.len() == 0 {
        None
    } else if e.last().0 == k {
        Some(e.last().1)
    } else {
        lookup(e.drop_last(), k)
    }
}

/// The map that a list of entries stands for.
pub open spec fn entries_map<K, V>(e: Seq<(K, V)>) -> Map<K, V> {
    Map::new(|k: K| lookup(e, k) is Some, |k: K| lookup(e, k).unwrap())
}

/// The entries whose key is not `k`, in order.
pub open spec fn without<K, V>(e: Seq<(K, V)>, k: K) -> Seq<(K, V)>
    decreases e.len(),
{
    if e.len() == 0 {
        e
    } else if e.last().0 == k {
        without(e.drop_last(), k)
    } else {
        without(e.drop_last(), k).push(e.last())
    }
}

/// Whether a height key belongs to message `m` of branch `b` of tree `t`, at any width.
pub open spec fn of_message(key: HeightKey, t: u128, b: u128, m: u128) -> bool {
    key.tree_id == t && key.branch_id == b && key.message_id == m
}

/// The heights of `h` that do not belong to message `m` of branch `b` of tree `t`, each
/// with its value.
pub open spec fn heights_without_message(h: Map<HeightKey, usize>, t: u128, b: u128, m: u128) -> Map<
    HeightKey,
    usize,
> {
    h.restrict(Set::new(|k: HeightKey| !of_message(k, t, b, m)))
}

/// The height entries that do not belong to message `m` of branch `b` of tree `t`.
pub open spec fn without_message(e: Seq<(HeightKey, usize)>, t: u128, b: u128, m: u128) -> Seq<
    (HeightKey, usize),
>
    decreases e.len(),
{
    if e.len() == 0 {
        e
    } else if of_message(e.last().0, t, b, m) {
        without_message(e.drop_last(), t, b, m)
    } else {
        without_message(e.drop_last(), t, b, m).push(e.last())
    }
}

proof fn lemma_lookup_without<K, V>(e: Seq<(K, V)>, k: K, k2: K)
    ensures
        lookup(without(e, k), k2) == if k2 == k {
            None
        } else {
            lookup(e, k2)
        },
    decreases e.len(),
{
    if e.len() > 0 {
        lemma_lookup_without(e.drop_last(), k, k2);
        if e.last().0 != k {
            assert(without(e, k).drop_last() =~= without(e.drop_last(), k));
        }
    }
}

proof fn lemma_lookup_without_message(
    e: Seq<(HeightKey, usize)>,
    t: u128,
    b: u128,
    m: u128,
    k2: HeightKey,
)
    ensures
        lookup(without_message(e, t, b, m), k2) == if of_message(k2, t, b, m) {
            None
        } else {
            lookup(e, k2)
        },
    decreases e.len(),
{
    if e.len() > 0 {
        lemma_lookup_without_message(e.drop_last(), t, b, m, k2);
        if !of_message(e.last().0, t, b, m) {
            assert(without_message(e, t, b, m).drop_last() =~= without_message(
                e.drop_last(),
                t,
                b,
                m,
            ));
        }
    }
}

proof fn lemma_lookup_push<K, V>(e: Seq<(K, V)>, k: K, v: V, k2: K)
    ensures
        lookup(e.push((k, v)), k2) == if k2 == k {
            Some(v)
        } else {
            lookup(e, k2)
        },
{
    assert(e.push((k, v)).drop_last() =~= e);
}

proof fn lemma_lookup_take<K, V>(e: Seq<(K, V)>, i: int, k: K)
    requires
        0 < i <= e.len(),
    ensures
        lookup(e.take(i), k) == if e[i - 1].0 == k {
            Some(e[i - 1].1)
        } else {
            lookup(e.take(i - 1), k)
        },
{
    assert(e.take(i).drop_last() =~= e.take(i - 1));
}

/// Highlighted texts of messages, by tree, branch and message.
pub struct HighlightCache {
    entries: Vec<(HighlightKey, Text<'static>)>,
}

impl View for HighlightCache {
    type V = Map<HighlightKey, Text<'static>>;

    closed spec fn view(&self) -> Map<HighlightKey, Text<'static>> {
        entries_map(self.entries@)
    }
}

impl HighlightCache {
    /// An empty cache.
    pub fn new() -> (r: HighlightCache)
        ensures
            r@ == Map::<HighlightKey, Text<'static>>::empty(),
    {
        let r = HighlightCache { entries: Vec::new() };
        assert(r@ =~= Map::<HighlightKey, Text<'static>>::empty());
        r
    }

    /// The cached text under `key`, if any.
    pub fn get(&self, key: HighlightKey) -> (r: Option<&Text<'static>>)
        ensures
            match r {
                Some(t) => self@.contains_key(key) && self@[key] == *t,
                None => !self@.contains_key(key),
            },
    {
        let mut i: usize = self.entries.len();
        assert(self.entries@.take(i as int) =~= self.entries@);
        while i > 0
            invariant
                i <= self.entries@.len(),
                lookup(self.entries@, key) == lookup(self.entries@.take(i as int), key),
            decreases i,
        {
            proof {
                lemma_lookup_take(self.entries@, i as int, key);
            }
            if self.entries[i - 1].0 == key {
                return Some(&self.entries[i - 1].1);
            }
            i = i - 1;
        }
        assert(self.entries@.take(0) =~= Seq::<(HighlightKey, Text<'static>)>::empty());
        None
    }

    /// Whether a text is cached under `key`.
    pub fn contains_key(&self, key: HighlightKey) -> (r: bool)
        ensures
            r == self@.contains_key(key),
    {
        self.get(key).is_some()
    }

    /// Caches `text` under `key`, replacing what was there.
    pub fn insert(&mut self, key: HighlightKey, text: Text<'static>)
        ensures
            final(self)@ == old(self)@.insert(key, text),
    {
        let ghost e = self.entries@;
        let mut kept: Vec<(HighlightKey, Text<'static>)> = Vec::new();
        let mut i: usize = 0;
        while i < self.entries.len()
            invariant
                e == self.entries@,
                i <= e.len(),
                kept@ == without(e.take(i as int), key),
            decreases e.len() - i,
        {
            assert(e.take(i as int + 1).drop_last() =~= e.take(i as int));
            if self.entries[i].0 != key {
                kept.push((self.entries[i].0, clone_text(&self.entries[i].1)));
            }
            i = i + 1;
        }
        assert(e.take(e.len() as int) =~= e);
        let ghost k = kept@;
        kept.push((key, text));
        self.entries = kept;
        proof {
            assert forall|k2: HighlightKey| #[trigger] lookup(self.entries@, k2) == (if k2 == key {
                Some(text)
            } else {
                lookup(e, k2)
            }) by {
                lemma_lookup_push(k, key, text, k2);
                lemma_lookup_without(e, key, k2);
            }
        }
        assert(self@ =~= old(self)@.insert(key, text));
    }

    /// Forgets the text cached under `key`.
    pub fn remove(&mut self, key: HighlightKey)
        ensures
            final(self)@ == old(self)@.remove(key),
    {
        let ghost e = self.entries@;
        let mut kept: Vec<(HighlightKey, Text<'static>)> = Vec::new();
        let mut i: usize = 0;
        while i < self.entries.len()
            invariant
                e == self.entries@,
                i <= e.len(),
                kept@ == without(e.take(i as int), key),
            decreases e.len() - i,
        {
            assert(e.take(i as int + 1).drop_last() =~= e.take(i as int));
            if self.entries[i].0 != key {
                kept.push((self.entries[i].0, clone_text(&self.entries[i].1)));
            }
            i = i + 1;
        }
        assert(e.take(e.len() as int) =~= e);
        self.entries = kept;
        proof {
            assert forall|k2: HighlightKey| #[trigger] lookup(self.entries@, k2) == (if k2 == key {
                None
            } else {
                lookup(e, k2)
            }) by {
                lemma_lookup_without(e, key, k2);
            }
        }
        assert(self@ =~= old(self)@.remove(key));
    }

    /// Forgets every cached text.
    pub fn clear(&mut self)
        ensures
            final(self)@ == Map::<HighlightKey, Text<'static>>::empty(),
    {
        self.entries = Vec::new();
        assert(self@ =~= Map::<HighlightKey, Text<'static>>::empty());
    }
}

/// Measured heights of messages, by tree, branch, message and width.
#[derive(Debug)]
pub struct HeightCache {
    entries: Vec<(HeightKey, usize)>,
}

impl View for HeightCache {
    type V = Map<HeightKey, usize>;

    closed spec fn view(&self) -> Map<HeightKey, usize> {
        entries_map(self.entries@)
    }
}

impl HeightCache {
    /// An empty cache.
    pub fn new() -> (r: HeightCache)
        ensures
            r@ == Map::<HeightKey, usize>::empty(),
    {
        let r = HeightCache { entries: Vec::new() };
        assert(r@ =~= Map::<HeightKey, usize>::empty());
        r
    }

    /// The height cached under `key`, if any.
    pub fn get(&self, key: HeightKey) -> (r: Option<usize>)
        ensures
            match r {
                Some(h) => self@.contains_key(key) && self@[key] == h,
                None => !self@.contains_key(key),
            },
    {
        let mut i: usize = self.entries.len();
        assert(self.entries@.take(i as int) =~= self.entries@);
        while i > 0
            invariant
                i <= self.entries@.len(),
                lookup(self.entries@, key) == lookup(self.entries@.take(i as int), key),
            decreases i,
        {
            proof {
                lemma_lookup_take(self.entries@, i as int, key);
            }
            if self.entries[i - 1].0 == key {
                return Some(self.entries[i - 1].1);
            }
            i = i - 1;
        }
        assert(self.entries@.take(0) =~= Seq::<(HeightKey, usize)>::empty());
        None
    }

    /// Caches `height` under `key`, replacing what was there.
    pub fn insert(&mut self, key: HeightKey, height: usize)
        ensures
            final(self)@ == old(self)@.insert(key, height),
    {
        let ghost e = self.entries@;
        let mut kept: Vec<(HeightKey, usize)> = Vec::new();
        let mut i: usize = 0;
        while i < self.entries.len()
            invariant
                e == self.entries@,
                i <= e.len(),
                kept@ == without(e.take(i as int), key),
            decreases e.len() - i,
        {
            assert(e.take(i as int + 1).drop_last() =~= e.take(i as int));
            if self.entries[i].0 != key {
                kept.push(self.entries[i]);
            }
            i = i + 1;
        }
        assert(e.take(e.len() as int) =~= e);
        let ghost k = kept@;
        kept.push((key, height));
        self.entries = kept;
        proof {
            assert forall|k2: HeightKey| #[trigger] lookup(self.entries@, k2) == (if k2 == key {
                Some(height)
            } else {
                lookup(e, k2)
            }) by {
                lemma_lookup_push(k, key, height, k2);
                lemma_lookup_without(e, key, k2);
            }
        }
        assert(self@ =~= old(self)@.insert(key, height));
    }

    /// Forgets the heights of message `m` of branch `b` of tree `t`, at every width.
    pub fn remove_message(&mut self, t: u128, b: u128, m: u128)
        ensures
            forall|k: HeightKey| #[trigger]
                final(self)@.contains_key(k) == (old(self)@.contains_key(k) && !of_message(
                    k,
                    t,
                    b,
                    m,
                )),
            forall|k: HeightKey| #[trigger]
                final(self)@.contains_key(k) ==> final(self)@[k] == old(self)@[k],
            final(self)@ == heights_without_message(old(self)@, t, b, m),
    {
        let ghost e = self.entries@;
        let mut kept: Vec<(HeightKey, usize)> = Vec::new();
        let mut i: usize = 0;
        while i < self.entries.len()
            invariant
                e == self.entries@,
                i <= e.len(),
                kept@ == without_message(e.take(i as int), t, b, m),
            decreases e.len() - i,
        {
            assert(e.take(i as int + 1).drop_last() =~= e.take(i as int));
            let key = self.entries[i].0;
            if !(key.tree_id == t && key.branch_id == b && key.message_id == m) {
                kept.push(self.entries[i]);
            }
            i = i + 1;
        }
        assert(e.take(e.len() as int) =~= e);
        self.entries = kept;
        proof {
            assert forall|k2: HeightKey| #[trigger] lookup(self.entries@, k2) == (if of_message(
                k2,
                t,
                b,
                m,
            ) {
                None
            } else {
                lookup(e, k2)
            }) by {
                lemma_lookup_without_message(e, t, b, m, k2);
            }
            assert(self@ =~= heights_without_message(entries_map(e), t, b, m));
        }
    }

    /// Forgets every cached height.
    pub fn clear(&mut self)
        ensures
            final(self)@ == Map::<HeightKey, usize>::empty(),
    {
        self.entries = Vec::new();
        assert(self@ =~= Map::<HeightKey, usize>::empty());
    }
}

} // verus!
