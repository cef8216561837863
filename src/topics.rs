//! The set of topics the bridge should be subscribed to.
use vstd::prelude::*;
use crate::api::TopicsResponse;

verus! {

/// The names held by a sequence of strings.
pub open spec fn names(v: Seq<String>) -> Seq<Seq<char>> {
    v.map_values(|s: String| s@)
}

/// Topic names, each at most once, in the order they were first added.
pub struct TopicSet {
    topics: Vec<String>,
}

impl View for TopicSet {
    type V = Set<Seq<char>>;

    open spec fn view(&self) -> Set<Seq<char>> {
        self.order().to_set()
    }
}

impl TopicSet {
    /// The topics in the order they were added.
    pub closed spec fn order(&self) -> Seq<Seq<char>> {
        names(self.topics@)
    }

    /// No topic is held twice.
    pub closed spec fn wf(&self) -> bool {
        self.order().no_duplicates()
    }

    pub fn new() -> (r: TopicSet)
        ensures
            r.wf(),
            r@ == Set::<Seq<char>>::empty(),
            r.order() == Seq::<Seq<char>>::empty(),
    {
        let r = TopicSet { topics: Vec::new() };
        assert(r.order() =~= Seq::<Seq<char>>::empty());
        r
    }

    /// Position of `topic` in the set, if it is there.
    fn position(&self, topic: &String) -> (r: Option<usize>)
        ensures
            match r {
                Some(i) => i < self.order().len() && self.order()[i as int] == topic@,
                None => !self.order().contains(topic@),
            },
    {
        let mut i: usize = 0;
        while i < self.topics.len()
            invariant
                i <= self.topics@.len(),
                forall|j: int| 0 <= j < i ==> self.order()[j] != topic@,
            decreases self.topics@.len() - i,
        {
            if self.topics[i] == *topic {
                return Some(i);
            }
            i = i + 1;
        }
        None
    }

    pub fn contains(&self, topic: &String) -> (r: bool)
        ensures
            r == self@.contains(topic@),
    {
        self.position(topic).is_some()
    }

    pub fn len(&self) -> (r: usize)
        requires
            self.wf(),
        ensures
            r == self@.len(),
    {
        proof {
            self.order().unique_seq_to_set();
        }
        self.topics.len()
    }

    /// Adds `topic`; adding a topic already present changes nothing.
    /// Returns whether the topic was new.
    pub fn add(&mut self, topic: String) -> (r: bool)
        requires
            old(self).wf(),
        ensures
            final(self).wf(),
            r == !old(self)@.contains(topic@),
            final(self)@ == old(self)@.insert(topic@),
            final(self).order() == (if r {
                old(self).order().push(topic@)
            } else {
                old(self).order()
            }),
    {
        if self.position(&topic).is_some() {
            return false;
        }
        let ghost t = topic@;
        self.topics.push(topic);
        assert(self.order() =~= old(self).order().push(t));
        proof {
            assert(self.order().to_set() =~= old(self).order().to_set().insert(t)) by {
                assert forall|x| self.order().contains(x) <==> old(self).order().contains(x) || x == t by {
                    if self.order().contains(x) {
                        let j = choose|j: int| 0 <= j < self.order().len() && self.order()[j] == x;
                        if j < old(self).order().len() {
                            assert(old(self).order()[j] == x);
                        }
                    }
                    if old(self).order().contains(x) {
                        let j = choose|j: int| 0 <= j < old(self).order().len() && old(self).order()[j] == x;
                        assert(self.order()[j] == x);
                    }
                    if x == t {
                        assert(self.order()[self.order().len() - 1] == x);
                    }
                }
            }
        }
        true
    }

    /// Removes `topic`; removing an absent topic changes nothing.
    /// Returns whether the topic was present.
    pub fn remove(&mut self, topic: &String) -> (r: bool)
        requires
            old(self).wf(),
        ensures
            final(self).wf(),
            r == old(self)@.contains(topic@),
            final(self)@ == old(self)@.remove(topic@),
    {
        match self.position(topic) {
            None => {
                assert(old(self)@.remove(topic@) =~= old(self)@);
                false
            },
            Some(i) => {
                let ghost o = self.order();
                self.topics.remove(i);
                assert(self.order() =~= o.remove(i as int));
                proof {
                    assert forall|x| self.order().contains(x) <==> o.contains(x) && x != topic@ by {
                        if self.order().contains(x) {
                            let j = choose|j: int| 0 <= j < self.order().len() && self.order()[j] == x;
                            if j < i {
                                assert(o[j] == x);
                            } else {
                                assert(o[j + 1] == x);
                            }
                        }
                        if o.contains(x) && x != topic@ {
                            let j = choose|j: int| 0 <= j < o.len() && o[j] == x;
                            if j < i {
                                assert(self.order()[j] == x);
                            } else {
                                assert(self.order()[j - 1] == x);
                            }
                        }
                    }
                    assert(self.order().to_set() =~= o.to_set().remove(topic@));
                }
                true
            },
        }
    }

    /// A snapshot of the topics, each once, in the order they were added.
    pub fn list(&self) -> (r: Vec<String>)
        requires
            self.wf(),
        ensures
            names(r@) == self.order(),
            names(r@).to_set() == self@,
            names(r@).no_duplicates(),
    {
        let mut out: Vec<String> = Vec::new();
        let mut i: usize = 0;
        while i < self.topics.len()
            invariant
                i <= self.topics@.len(),
                names(out@) =~= self.order().subrange(0, i as int),
            decreases self.topics@.len() - i,
        {
            let t = self.topics[i].clone();
            let ghost prev = out@;
            out.push(t);
            assert(names(out@) =~= names(prev).push(self.order()[i as int]));
            assert(self.order().subrange(0, i + 1) =~= self.order().subrange(0, i as int).push(self.order()[i as int]));
            i = i + 1;
        }
        assert(names(out@) =~= self.order());
        out
    }

    /// The topic listing reported to the control plane.
    pub fn topics_response(&self) -> (r: TopicsResponse)
        requires
            self.wf(),
        ensures
            names(r.topics@) == self.order(),
    {
        TopicsResponse { topics: self.list() }
    }
}

/// Adding a topic twice leaves the set as adding it once, with the topic in it
/// exactly once; removing an absent topic leaves the set unchanged.
pub proof fn lemma_add_idempotent(s: Set<Seq<char>>, t: Seq<char>, u: Seq<char>)
    requires
        s.finite(),
        !s.contains(u),
    ensures
        s.insert(t).insert(t) == s.insert(t),
        s.insert(t).contains(t),
        s.insert(t).len() == (if s.contains(t) { s.len() } else { s.len() + 1 }),
        s.remove(u) == s,
{
    assert(s.insert(t).insert(t) =~= s.insert(t));
    assert(s.remove(u) =~= s);
}

/// The topic set after a sequence of operations on an empty set: `(true, t)`
/// adds `t`, `(false, t)` removes it.
pub open spec fn apply_ops(ops: Seq<(bool, Seq<char>)>) -> Set<Seq<char>>
    decreases ops.len(),
{
    if ops.len() == 0 {
        Set::empty()
    } else {
        let (is_add, t) = ops.last();
        if is_add {
            apply_ops(ops.drop_last()).insert(t)
        } else {
            apply_ops(ops.drop_last()).remove(t)
        }
    }
}

/// The last operation on `t` in `ops` is an add.
pub open spec fn last_op_adds(ops: Seq<(bool, Seq<char>)>, t: Seq<char>) -> bool {
    exists|i: int|
        0 <= i < ops.len() && #[trigger] ops[i] == (true, t) && forall|j: int|
            i < j < ops.len() ==> (#[trigger] ops[j]).1 != t
}

/// After any sequence of adds and removes from an empty set, a topic is listed
/// exactly when its last operation was an add: repeated adds count once, and
/// removing an absent topic counts for nothing.
pub proof fn lemma_ops_membership(ops: Seq<(bool, Seq<char>)>, t: Seq<char>)
    ensures
        apply_ops(ops).contains(t) <==> last_op_adds(ops, t),
        apply_ops(ops).finite(),
    decreases ops.len(),
{
    if ops.len() > 0 {
        let prev = ops.drop_last();
        lemma_ops_membership(prev, t);
        let n = ops.len() - 1;
        let (is_add, u) = ops.last();
        if u == t {
            if is_add {
                assert(ops[n] == (true, t));
            } else if last_op_adds(ops, t) {
                let i = choose|i: int|
                    0 <= i < ops.len() && #[trigger] ops[i] == (true, t) && forall|j: int|
                        i < j < ops.len() ==> (#[trigger] ops[j]).1 != t;
                assert(i != n);
                assert(ops[n].1 == t);
            }
        } else {
            if last_op_adds(prev, t) {
                let i = choose|i: int|
                    0 <= i < prev.len() && #[trigger] prev[i] == (true, t) && forall|j: int|
                        i < j < prev.len() ==> (#[trigger] prev[j]).1 != t;
                assert(ops[i] == (true, t));
                assert forall|j: int| i < j < ops.len() implies (#[trigger] ops[j]).1 != t by {
                    if j < n {
                        assert(ops[j] == prev[j]);
                    }
                }
            }
            if last_op_adds(ops, t) {
                let i = choose|i: int|
                    0 <= i < ops.len() && #[trigger] ops[i] == (true, t) && forall|j: int|
                        i < j < ops.len() ==> (#[trigger] ops[j]).1 != t;
                assert(i != n);
                assert(prev[i] == (true, t));
                assert forall|j: int| i < j < prev.len() implies (#[trigger] prev[j]).1 != t by {
                    assert(ops[j] == prev[j]);
                }
            }
        }
    }
}

} // verus!
