//! The neighbor table: which nodes this drone can reach directly, and the
//! channel toward each.  Keys are unique; iteration follows insertion order.

use vstd::prelude::*;

use crate::messages::{NodeId, Packet};

verus! {

/// Outbound channels to the drone's direct neighbors, keyed by node id.
pub struct NeighborTable {
    pub entries: Vec<(NodeId, crossbeam::channel::Sender<Packet>)>,
}

impl View for NeighborTable {
    type V = Seq<(NodeId, crossbeam::channel::Sender<Packet>)>;

    open spec fn view(&self) -> Seq<(NodeId, crossbeam::channel::Sender<Packet>)> {
        self.entries@
    }
}

impl NeighborTable {
    /// The neighbor ids, in table order.
    pub open spec fn ids(self) -> Seq<NodeId> {
        self@.map_values(|e: (NodeId, crossbeam::channel::Sender<Packet>)| e.0)
    }

    /// Whether `id` names a neighbor.
    pub open spec fn contains_id(self, id: NodeId) -> bool {
        exists|i: int| 0 <= i < self@.len() && self@[i].0 == id
    }

    /// No id occurs twice.
    pub open spec fn wf(self) -> bool {
        forall|i: int, j: int| 0 <= i < j < self@.len() ==> self@[i].0 != self@[j].0
    }

    pub fn new() -> (r: Self)
        ensures
            r@ == Seq::<(NodeId, crossbeam::channel::Sender<Packet>)>::empty(),
            r.wf(),
    {
        let entries: Vec<(NodeId, crossbeam::channel::Sender<Packet>)> = Vec::new();
        proof {
            assert(entries@ =~= Seq::<(NodeId, crossbeam::channel::Sender<Packet>)>::empty());
        }
        NeighborTable { entries }
    }

    /// How many neighbors the drone has.
    pub fn len(&self) -> (r: usize)
        ensures
            r == self@.len(),
    {
        self.entries.len()
    }

    /// Whether `id` names a neighbor.
    pub fn contains(&self, id: NodeId) -> (r: bool)
        ensures
            r == self.contains_id(id),
    {
        let mut i: usize = 0;
        while i < self.entries.len()
            invariant
                i <= self.entries.len(),
                forall|k: int| 0 <= k < i ==> self@[k].0 != id,
            decreases self.entries.len() - i,
        {
            if self.entries[i].0 == id {
                proof {
                    assert(self.contains_id(id)) by {
                        assert(self@[i as int].0 == id);
                    }
                }
                return true;
            }
            i = i + 1;
        }
        false
    }

    /// The channel toward neighbor `id`, if it is one.
    pub fn get_sender(&self, id: NodeId) -> (r: Option<&crossbeam::channel::Sender<Packet>>)
        ensures
            r matches Some(s) ==> self.contains_id(id) && exists|i: int|
                0 <= i < self@.len() && self@[i].0 == id && self@[i].1 == *s,
            r is None ==> !self.contains_id(id),
    {
        let mut i: usize = 0;
        while i < self.entries.len()
            invariant
                i <= self.entries.len(),
                forall|k: int| 0 <= k < i ==> self@[k].0 != id,
            decreases self.entries.len() - i,
        {
            if self.entries[i].0 == id {
                proof {
                    assert(self.contains_id(id)) by {
                        assert(self@[i as int].0 == id);
                    }
                }
                return Some(&self.entries[i].1);
            }
            i = i + 1;
        }
        None
    }

    /// The id of the `i`-th table entry.
    pub fn id_at(&self, i: usize) -> (r: NodeId)
        requires
            i < self@.len(),
        ensures
            r == self@[i as int].0,
    {
        self.entries[i].0
    }

    /// Connect a neighbor under a fresh id; an id already present is refused
    /// and the table is left unchanged.
    pub fn insert(&mut self, id: NodeId, sender: crossbeam::channel::Sender<Packet>) -> (r: bool)
        requires
            old(self).wf(),
        ensures
            final(self).wf(),
            r == !old(self).contains_id(id),
            r ==> final(self)@ == old(self)@.push((id, sender)),
            !r ==> *final(self) == *old(self),
            final(self).contains_id(id),
    {
        if self.contains(id) {
            return false;
        }
        self.entries.push((id, sender));
        proof {
            let n = old(self)@.len() as int;
            assert(self@[n].0 == id);
        }
        true
    }

    /// Disconnect neighbor `id`; an unknown id is refused and the table is
    /// left unchanged.
    #[verifier::loop_isolation(false)]
    pub fn remove(&mut self, id: NodeId) -> (r: bool)
        requires
            old(self).wf(),
        ensures
            final(self).wf(),
            r == old(self).contains_id(id),
            !r ==> *final(self) == *old(self),
            r ==> exists|i: int|
                0 <= i < old(self)@.len() && old(self)@[i].0 == id && final(self)@ == old(
                    self,
                )@.remove(i),
            !final(self).contains_id(id),
            forall|x: NodeId| x != id ==> final(self).contains_id(x) == old(self).contains_id(x),
    {
        let ghost pre = self@;
        let mut i: usize = 0;
        while i < self.entries.len()
            invariant
                i <= self.entries.len(),
                *self == *old(self),
                self@ == pre,
                forall|k: int| 0 <= k < i ==> self@[k].0 != id,
            decreases self.entries.len() - i,
        {
            if self.entries[i].0 == id {
                proof {
                    assert(old(self).contains_id(id)) by {
                        assert(pre[i as int].0 == id);
                    }
                }
                self.entries.remove(i);
                proof {
                    let ii = i as int;
                    pre.remove_ensures(ii);
                    assert(0 <= ii < pre.len() && pre[ii].0 == id && self@ == pre.remove(ii));
                    assert forall|k: int| 0 <= k < self@.len() implies self@[k].0 != id by {
                        if k < ii {
                            assert(self@[k] == pre[k]);
                        } else {
                            assert(self@[k] == pre[k + 1]);
                            assert(old(self)@[k + 1].0 != old(self)@[ii].0);
                        }
                    }
                    assert forall|a: int, b: int|
                        0 <= a < b < self@.len() implies self@[a].0 != self@[b].0 by {
                        let pa = if a < ii { a } else { a + 1 };
                        let pb = if b < ii { b } else { b + 1 };
                        assert(self@[a] == pre[pa]);
                        assert(self@[b] == pre[pb]);
                        assert(old(self)@[pa].0 != old(self)@[pb].0);
                    }
                    assert forall|x: NodeId|
                        x != id implies self.contains_id(x) == old(self).contains_id(x) by {
                        if old(self).contains_id(x) {
                            let w = choose|w: int|
                                0 <= w < old(self)@.len() && old(self)@[w].0 == x;
                            if w < ii {
                                assert(self@[w] == pre[w]);
                            } else {
                                assert(w != ii);
                                assert(self@[w - 1] == pre[w]);
                            }
                            assert(self.contains_id(x));
                        }
                        if self.contains_id(x) {
                            let w = choose|w: int| 0 <= w < self@.len() && self@[w].0 == x;
                            if w < ii {
                                assert(pre[w] == self@[w]);
                            } else {
                                assert(pre[w + 1] == self@[w]);
                            }
                            assert(old(self).contains_id(x));
                        }
                    }
                }
                return true;
            }
            i = i + 1;
        }
        false
    }
}

} // verus!
