use vstd::prelude::*;

verus! {

/// Who wrote a message.
#[derive(Clone, Copy, Debug, PartialEq, Eq, Structural)]
pub enum Role {
    User,
    Assistant,
}

/// A message of a branch, as the interface reads it: its identifier, its text and its role.
#[derive(Debug)]
pub struct Message {
    pub id: u128,
    pub content: String,
    pub role: Role,
}

impl Clone for Message {
    fn clone(&self) -> (r: Self)
        ensures
            r == *self,
    {
        Message { id: self.id, content: self.content.clone(), role: self.role }
    }
}

/// A branch: a named sequence of messages.
#[derive(Debug)]
pub struct Branch {
    pub id: u128,
    pub name: String,
    pub messages: Vec<Message>,
}

/// A tree: a named set of alternative branches.
#[derive(Debug)]
pub struct Tree {
    pub id: u128,
    pub name: String,
    pub branches: Vec<Branch>,
}

/// A dialogue: a named list of trees.
#[derive(Debug)]
pub struct Dialogue {
    pub name: String,
    pub trees: Vec<Tree>,
}

/// Whether `i` is the first position holding identifier `id`.
pub open spec fn is_first_index(msgs: Seq<Message>, id: u128, i: int) -> bool {
    &&& 0 <= i < msgs.len()
    &&& msgs[i].id == id
    &&& forall|j: int| 0 <= j < i ==> msgs[j].id != id
}

/// Position of the first message with identifier `id`, if any.
pub open spec fn index_of_message(msgs: Seq<Message>, id: u128) -> Option<int> {
    if exists|i: int| is_first_index(msgs, id, i) {
        Some(choose|i: int| is_first_index(msgs, id, i))
    } else {
        None
    }
}

/// Whether `i` is the first position holding a branch with identifier `id`.
pub open spec fn is_first_branch(bs: Seq<Branch>, id: u128, i: int) -> bool {
    &&& 0 <= i < bs.len()
    &&& bs[i].id == id
    &&& forall|j: int| 0 <= j < i ==> bs[j].id != id
}

/// Position of the first branch with identifier `id`, if any.
pub open spec fn index_of_branch(bs: Seq<Branch>, id: u128) -> Option<int> {
    if exists|i: int| is_first_branch(bs, id, i) {
        Some(choose|i: int| is_first_branch(bs, id, i))
    } else {
        None
    }
}

/// Whether `i` is the first position holding a tree with identifier `id`.
pub open spec fn is_first_tree(ts: Seq<Tree>, id: u128, i: int) -> bool {
    &&& 0 <= i < ts.len()
    &&& ts[i].id == id
    &&& forall|j: int| 0 <= j < i ==> ts[j].id != id
}

/// Position of the first tree with identifier `id`, if any.
pub open spec fn index_of_tree(ts: Seq<Tree>, id: u128) -> Option<int> {
    if exists|i: int| is_first_tree(ts, id, i) {
        Some(choose|i: int| is_first_tree(ts, id, i))
    } else {
        None
    }
}

/// The first tree with identifier `id`.
pub open spec fn tree_by_id(ts: Seq<Tree>, id: u128) -> Option<Tree> {
    match index_of_tree(ts, id) {
        Some(i) => Some(ts[i]),
        None => None,
    }
}

/// Whether branch `b` of tree `t` holds `id`, and no branch before it (trees in order,
/// then branches in order) does.
pub open spec fn is_first_branch_pos(ts: Seq<Tree>, id: u128, t: int, b: int) -> bool {
    &&& 0 <= t < ts.len()
    &&& 0 <= b < ts[t].branches@.len()
    &&& ts[t].branches@[b].id == id
    &&& forall|t2: int, b2: int|
        #![trigger ts[t2].branches@[b2]]
        0 <= t2 < t && 0 <= b2 < ts[t2].branches@.len() ==> ts[t2].branches@[b2].id != id
    &&& forall|b2: int| 0 <= b2 < b ==> #[trigger] ts[t].branches@[b2].id != id
}

/// The first branch with identifier `id` across all trees.
pub open spec fn branch_by_id(ts: Seq<Tree>, id: u128) -> Option<Branch> {
    if exists|t: int, b: int| is_first_branch_pos(ts, id, t, b) {
        let (t, b) = choose|t: int, b: int| is_first_branch_pos(ts, id, t, b);
        Some(ts[t].branches@[b])
    } else {
        None
    }
}

/// Whether message `m` of branch `b` of tree `t` holds `id`, and no message before it
/// (trees, then branches, then messages in order) does.
pub open spec fn is_first_message_pos(ts: Seq<Tree>, id: u128, t: int, b: int, m: int) -> bool {
    &&& 0 <= t < ts.len()
    &&& 0 <= b < ts[t].branches@.len()
    &&& 0 <= m < ts[t].branches@[b].messages@.len()
    &&& ts[t].branches@[b].messages@[m].id == id
    &&& forall|t2: int, b2: int, m2: int|
        #![trigger ts[t2].branches@[b2].messages@[m2]]
        0 <= t2 < t && 0 <= b2 < ts[t2].branches@.len() && 0 <= m2
            < ts[t2].branches@[b2].messages@.len() ==> ts[t2].branches@[b2].messages@[m2].id != id
    &&& forall|b2: int, m2: int|
        #![trigger ts[t].branches@[b2].messages@[m2]]
        0 <= b2 < b && 0 <= m2 < ts[t].branches@[b2].messages@.len()
            ==> ts[t].branches@[b2].messages@[m2].id != id
    &&& forall|m2: int| 0 <= m2 < m ==> #[trigger] ts[t].branches@[b].messages@[m2].id != id
}

/// The first message with identifier `id` across all trees and branches.
pub open spec fn message_by_id(ts: Seq<Tree>, id: u128) -> Option<Message> {
    if exists|t: int, b: int, m: int| is_first_message_pos(ts, id, t, b, m) {
        let (t, b, m) = choose|t: int, b: int, m: int| is_first_message_pos(ts, id, t, b, m);
        Some(ts[t].branches@[b].messages@[m])
    } else {
        None
    }
}

/// Tree and branch positions of the first message with identifier `id`.
pub open spec fn message_branch_pos(ts: Seq<Tree>, id: u128) -> Option<(int, int)> {
    if exists|t: int, b: int, m: int| is_first_message_pos(ts, id, t, b, m) {
        let (t, b, m) = choose|t: int, b: int, m: int| is_first_message_pos(ts, id, t, b, m);
        Some((t, b))
    } else {
        None
    }
}

/// Position of the first message with identifier `id`.
pub fn find_message_index(msgs: &[Message], id: u128) -> (r: Option<usize>)
    ensures
        match r {
            Some(i) => is_first_index(msgs@, id, i as int),
            None => forall|j: int| 0 <= j < msgs@.len() ==> msgs@[j].id != id,
        },
        r matches Some(i) ==> index_of_message(msgs@, id) == Some(i as int),
        r is None ==> index_of_message(msgs@, id) is None,
{
    let mut i: usize = 0;
    while i < msgs.len()
        invariant
            i <= msgs@.len(),
            forall|j: int| 0 <= j < i ==> msgs@[j].id != id,
        decreases msgs.len() - i,
    {
        if msgs[i].id == id {
            proof {
                assert(is_first_index(msgs@, id, i as int));
                let k = choose|k: int| is_first_index(msgs@, id, k);
                assert(k == i as int) by {
                    if k < i as int {
                        assert(msgs@[k].id != id);
                    } else if k > i as int {
                        assert(msgs@[i as int].id != id);
                    }
                }
            }
            return Some(i);
        }
        i = i + 1;
    }
    None
}

/// Position of the first branch with identifier `id`.
pub fn find_branch_index(bs: &[Branch], id: u128) -> (r: Option<usize>)
    ensures
        r matches Some(i) ==> is_first_branch(bs@, id, i as int) && index_of_branch(bs@, id)
            == Some(i as int),
        r is None ==> index_of_branch(bs@, id) is None && forall|j: int|
            0 <= j < bs@.len() ==> bs@[j].id != id,
{
    let mut i: usize = 0;
    while i < bs.len()
        invariant
            i <= bs@.len(),
            forall|j: int| 0 <= j < i ==> bs@[j].id != id,
        decreases bs.len() - i,
    {
        if bs[i].id == id {
            proof {
                assert(is_first_branch(bs@, id, i as int));
                let k = choose|k: int| is_first_branch(bs@, id, k);
                assert(k == i as int) by {
                    if k < i as int {
                        assert(bs@[k].id != id);
                    } else if k > i as int {
                        assert(bs@[i as int].id != id);
                    }
                }
            }
            return Some(i);
        }
        i = i + 1;
    }
    None
}

/// Position of the first tree with identifier `id`.
pub fn find_tree_index(ts: &[Tree], id: u128) -> (r: Option<usize>)
    ensures
        r matches Some(i) ==> is_first_tree(ts@, id, i as int) && index_of_tree(ts@, id) == Some(
            i as int,
        ),
        r is None ==> index_of_tree(ts@, id) is None,
{
    let mut i: usize = 0;
    while i < ts.len()
        invariant
            i <= ts@.len(),
            forall|j: int| 0 <= j < i ==> ts@[j].id != id,
        decreases ts.len() - i,
    {
        if ts[i].id == id {
            proof {
                assert(is_first_tree(ts@, id, i as int));
                let k = choose|k: int| is_first_tree(ts@, id, k);
                assert(k == i as int) by {
                    if k < i as int {
                        assert(ts@[k].id != id);
                    } else if k > i as int {
                        assert(ts@[i as int].id != id);
                    }
                }
            }
            return Some(i);
        }
        i = i + 1;
    }
    None
}

impl Branch {
    /// Position of the first message of the branch with identifier `id`.
    pub fn get_message_index_by_id(&self, id: u128) -> (r: Option<usize>)
        ensures
            r matches Some(i) ==> index_of_message(self.messages@, id) == Some(i as int),
            r is None ==> index_of_message(self.messages@, id) is None,
    {
        find_message_index(self.messages.as_slice(), id)
    }

    /// The first message of the branch with identifier `id`.
    pub fn get_message_by_id(&self, id: u128) -> (r: Option<&Message>)
        ensures
            match r {
                Some(m) => exists|i: int|
                    index_of_message(self.messages@, id) == Some(i) && self.messages@[i] == *m,
                None => index_of_message(self.messages@, id) is None,
            },
    {
        match find_message_index(self.messages.as_slice(), id) {
            Some(i) => Some(&self.messages[i]),
            None => None,
        }
    }
}

impl Dialogue {
    /// The first tree with identifier `id`.
    pub fn get_tree_by_id(&self, id: u128) -> (r: Option<&Tree>)
        ensures
            match r {
                Some(t) => tree_by_id(self.trees@, id) == Some(*t),
                None => tree_by_id(self.trees@, id) is None,
            },
    {
        match find_tree_index(self.trees.as_slice(), id) {
            Some(i) => Some(&self.trees[i]),
            None => None,
        }
    }

    /// The first branch with identifier `id`, trees searched in order.
    #[verifier::loop_isolation(false)]
    pub fn get_branch_by_id(&self, id: u128) -> (r: Option<&Branch>)
        ensures
            match r {
                Some(b) => branch_by_id(self.trees@, id) == Some(*b),
                None => branch_by_id(self.trees@, id) is None,
            },
    {
        let ghost ts = self.trees@;
        let mut t: usize = 0;
        while t < self.trees.len()
            invariant
                ts == self.trees@,
                t <= ts.len(),
                forall|t2: int, b2: int|
                    #![trigger ts[t2].branches@[b2]]
                    0 <= t2 < t && 0 <= b2 < ts[t2].branches@.len() ==> ts[t2].branches@[b2].id
                        != id,
            decreases ts.len() - t,
        {
            let bs = &self.trees[t].branches;
            let mut b: usize = 0;
            while b < bs.len()
                invariant
                    ts == self.trees@,
                    t < ts.len(),
                    bs@ == ts[t as int].branches@,
                    b <= bs@.len(),
                    forall|b2: int| 0 <= b2 < b ==> #[trigger] ts[t as int].branches@[b2].id != id,
                decreases bs.len() - b,
            {
                if bs[b].id == id {
                    proof {
                        assert(is_first_branch_pos(ts, id, t as int, b as int));
                        let (t1, b1) = choose|t1: int, b1: int|
                            is_first_branch_pos(ts, id, t1, b1);
                        if t1 < t as int {
                            assert(ts[t1].branches@[b1].id != id);
                        } else if t1 > t as int {
                            assert(ts[t as int].branches@[b as int].id != id);
                        } else if b1 < b as int {
                            assert(ts[t as int].branches@[b1].id != id);
                        } else if b1 > b as int {
                            assert(ts[t as int].branches@[b as int].id != id);
                        }
                    }
                    return Some(&bs[b]);
                }
                b = b + 1;
            }
            t = t + 1;
        }
        proof {
            if exists|t1: int, b1: int| is_first_branch_pos(ts, id, t1, b1) {
                let (t1, b1) = choose|t1: int, b1: int| is_first_branch_pos(ts, id, t1, b1);
                assert(ts[t1].branches@[b1].id != id);
            }
        }
        None
    }

    /// The first message with identifier `id`, trees and branches searched in order.
    #[verifier::loop_isolation(false)]
    pub fn get_message_by_id(&self, id: u128) -> (r: Option<&Message>)
        ensures
            match r {
                Some(m) => message_by_id(self.trees@, id) == Some(*m),
                None => message_by_id(self.trees@, id) is None,
            },
    {
        let ghost ts = self.trees@;
        let mut t: usize = 0;
        while t < self.trees.len()
            invariant
                ts == self.trees@,
                t <= ts.len(),
                forall|t2: int, b2: int, m2: int|
                    #![trigger ts[t2].branches@[b2].messages@[m2]]
                    0 <= t2 < t && 0 <= b2 < ts[t2].branches@.len() && 0 <= m2
                        < ts[t2].branches@[b2].messages@.len()
                        ==> ts[t2].branches@[b2].messages@[m2].id != id,
            decreases ts.len() - t,
        {
            let bs = &self.trees[t].branches;
            let mut b: usize = 0;
            while b < bs.len()
                invariant
                    ts == self.trees@,
                    t < ts.len(),
                    bs@ == ts[t as int].branches@,
                    b <= bs@.len(),
                    forall|b2: int, m2: int|
                        #![trigger ts[t as int].branches@[b2].messages@[m2]]
                        0 <= b2 < b && 0 <= m2 < ts[t as int].branches@[b2].messages@.len()
                            ==> ts[t as int].branches@[b2].messages@[m2].id != id,
                decreases bs.len() - b,
            {
                let ms = &bs[b].messages;
                let mut m: usize = 0;
                while m < ms.len()
                    invariant
                        ts == self.trees@,
                        t < ts.len(),
                        b < bs@.len(),
                        bs@ == ts[t as int].branches@,
                        ms@ == ts[t as int].branches@[b as int].messages@,
                        m <= ms@.len(),
                        forall|m2: int|
                            0 <= m2 < m ==> #[trigger] ts[t as int].branches@[b as int].messages@[m2].id
                                != id,
                    decreases ms.len() - m,
                {
                    if ms[m].id == id {
                        proof {
                            let (ti, bi, mi) = (t as int, b as int, m as int);
                            assert(is_first_message_pos(ts, id, ti, bi, mi));
                            let (t1, b1, m1) = choose|t1: int, b1: int, m1: int|
                                is_first_message_pos(ts, id, t1, b1, m1);
                            if t1 < ti {
                                assert(ts[t1].branches@[b1].messages@[m1].id != id);
                            } else if t1 > ti {
                                assert(ts[ti].branches@[bi].messages@[mi].id != id);
                            } else if b1 < bi {
                                assert(ts[ti].branches@[b1].messages@[m1].id != id);
                            } else if b1 > bi {
                                assert(ts[ti].branches@[bi].messages@[mi].id != id);
                            } else if m1 < mi {
                                assert(ts[ti].branches@[bi].messages@[m1].id != id);
                            } else if m1 > mi {
                                assert(ts[ti].branches@[bi].messages@[mi].id != id);
                            }
                        }
                        return Some(&ms[m]);
                    }
                    m = m + 1;
                }
                b = b + 1;
            }
            t = t + 1;
        }
        proof {
            if exists|t1: int, b1: int, m1: int| is_first_message_pos(ts, id, t1, b1, m1) {
                let (t1, b1, m1) = choose|t1: int, b1: int, m1: int|
                    is_first_message_pos(ts, id, t1, b1, m1);
                assert(ts[t1].branches@[b1].messages@[m1].id != id);
            }
        }
        None
    }
    /// Tree and branch positions of the first branch holding a message with identifier
    /// `id`, trees and branches searched in order.
    #[verifier::loop_isolation(false)]
    pub fn locate_message(&self, id: u128) -> (r: Option<(usize, usize)>)
        ensures
            match r {
                Some((t, b)) => message_branch_pos(self.trees@, id) == Some((t as int, b as int)),
                None => message_branch_pos(self.trees@, id) is None,
            },
    {
        let ghost ts = self.trees@;
        let mut t: usize = 0;
        while t < self.trees.len()
            invariant
                ts == self.trees@,
                t <= ts.len(),
                forall|t2: int, b2: int, m2: int|
                    #![trigger ts[t2].branches@[b2].messages@[m2]]
                    0 <= t2 < t && 0 <= b2 < ts[t2].branches@.len() && 0 <= m2
                        < ts[t2].branches@[b2].messages@.len()
                        ==> ts[t2].branches@[b2].messages@[m2].id != id,
            decreases ts.len() - t,
        {
            let bs = &self.trees[t].branches;
            let mut b: usize = 0;
            while b < bs.len()
                invariant
                    ts == self.trees@,
                    t < ts.len(),
                    bs@ == ts[t as int].branches@,
                    b <= bs@.len(),
                    forall|b2: int, m2: int|
                        #![trigger ts[t as int].branches@[b2].messages@[m2]]
                        0 <= b2 < b && 0 <= m2 < ts[t as int].branches@[b2].messages@.len()
                            ==> ts[t as int].branches@[b2].messages@[m2].id != id,
                decreases bs.len() - b,
            {
                match find_message_index(bs[b].messages.as_slice(), id) {
                    Some(m) => {
                        proof {
                            let (ti, bi, mi) = (t as int, b as int, m as int);
                            assert(is_first_message_pos(ts, id, ti, bi, mi));
                            let (t1, b1, m1) = choose|t1: int, b1: int, m1: int|
                                is_first_message_pos(ts, id, t1, b1, m1);
                            if t1 < ti {
                                assert(ts[t1].branches@[b1].messages@[m1].id != id);
                            } else if t1 > ti {
                                assert(ts[ti].branches@[bi].messages@[mi].id != id);
                            } else if b1 < bi {
                                assert(ts[ti].branches@[b1].messages@[m1].id != id);
                            } else if b1 > bi {
                                assert(ts[ti].branches@[bi].messages@[mi].id != id);
                            }
                        }
                        return Some((t, b));
                    },
                    None => {},
                }
                b = b + 1;
            }
            t = t + 1;
        }
        proof {
            if exists|t1: int, b1: int, m1: int| is_first_message_pos(ts, id, t1, b1, m1) {
                let (t1, b1, m1) = choose|t1: int, b1: int, m1: int|
                    is_first_message_pos(ts, id, t1, b1, m1);
                assert(ts[t1].branches@[b1].messages@[m1].id != id);
            }
        }
        None
    }
}

} // verus!
