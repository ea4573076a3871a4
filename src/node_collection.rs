use vstd::prelude::*;
use vstd::std_specs::iter::IteratorSpec;

use crate::id::Id;
use crate::event::SetNodeEvent;
use crate::node::{Motion, Node};

verus! {

/// Whether no two nodes of `s` share an id.
pub open spec fn ids_unique<S, V>(s: Seq<Node<S, V>>) -> bool {
    forall|i: int, j: int| 0 <= i < j < s.len() ==> s[i].id != s[j].id
}

/// Whether some node of `s` has the id `id`.
pub open spec fn has_id<S, V>(s: Seq<Node<S, V>>, id: Id) -> bool {
    exists|k: int| 0 <= k < s.len() && s[k].id == id
}

/// The index of the node with id `id`, where `has_id(s, id)`.
pub open spec fn index_of<S, V>(s: Seq<Node<S, V>>, id: Id) -> int {
    choose|k: int| 0 <= k < s.len() && s[k].id == id
}

/// `s` without the node with id `id`.
pub open spec fn without<S, V>(s: Seq<Node<S, V>>, id: Id) -> Seq<Node<S, V>> {
    if has_id(s, id) {
        s.remove(index_of(s, id))
    } else {
        s
    }
}

/// Whether `integrate` can be called on every snapshot, index and constant.
pub open spec fn integrator_total<S, V, F: Fn(&NodeCollection<S, V>, usize, &S) -> Motion<V>>(
    integrate: F,
) -> bool {
    forall|c: NodeCollection<S, V>, i: usize, g: S|
        i < c@.len() ==> #[trigger] integrate.requires((&c, i, &g))
}

/// Whether `node` is the `i`-th node of `before` advanced by a motion that
/// `integrate` computes for it from the snapshot `before` under `g`.
pub open spec fn advanced_from<S, V, F: Fn(&NodeCollection<S, V>, usize, &S) -> Motion<V>>(
    integrate: F,
    before: NodeCollection<S, V>,
    g: S,
    i: int,
    node: Node<S, V>,
) -> bool {
    exists|m: Motion<V>|
        integrate.ensures((&before, i as usize, &g), m) && node == before@[i].advanced(m)
}

/// Whether `after` is what one tick makes of `before` under the constant
/// `g`: each node is advanced by the motion the integrator computed for it
/// from the whole of `before`, read as one snapshot.
pub open spec fn is_tick<S, V, F: Fn(&NodeCollection<S, V>, usize, &S) -> Motion<V>>(
    integrate: F,
    before: NodeCollection<S, V>,
    g: S,
    after: Seq<Node<S, V>>,
) -> bool {
    &&& after.len() == before@.len()
    &&& forall|i: int| 0 <= i < after.len() ==> advanced_from(integrate, before, g, i, #[trigger] after[i])
}

/// The ordered nodes of a simulation. Ids are unique: adding a node whose
/// id is taken is refused.
#[derive(Clone)]
pub struct NodeCollection<S, V> {
    nodes: Vec<Node<S, V>>,
}

impl<S, V> View for NodeCollection<S, V> {
    type V = Seq<Node<S, V>>;

    closed spec fn view(&self) -> Seq<Node<S, V>> {
        self.nodes@
    }
}

impl<S, V> NodeCollection<S, V> {
    /// No two nodes share an id.
    pub open spec fn wf(&self) -> bool {
        ids_unique(self@)
    }
}

impl<S: Copy, V: Copy> NodeCollection<S, V> {
    pub fn new() -> (r: NodeCollection<S, V>)
        ensures
            r.wf(),
            r@ == Seq::<Node<S, V>>::empty(),
    {
        NodeCollection { nodes: Vec::new() }
    }

    pub fn len(&self) -> (r: usize)
        ensures
            r == self@.len(),
    {
        self.nodes.len()
    }

    pub fn get(&self, index: usize) -> (r: &Node<S, V>)
        requires
            index < self@.len(),
        ensures
            *r == self@[index as int],
    {
        &self.nodes[index]
    }

    /// The index of the node with id `id`, if there is one.
    pub fn find(&self, id: Id) -> (r: Option<usize>)
        requires
            self.wf(),
        ensures
            match r {
                Some(k) => k < self@.len() && self@[k as int].id == id && k == index_of(self@, id),
                None => !has_id(self@, id),
            },
    {
        let mut k: usize = 0;
        while k < self.nodes.len()
            invariant
                self.wf(),
                k <= self.nodes@.len(),
                forall|j: int| 0 <= j < k ==> self.nodes@[j].id != id,
            decreases self.nodes@.len() - k,
        {
            if self.nodes[k].id == id {
                proof {
                    let s = self.nodes@;
                    assert forall|j: int| 0 <= j < s.len() && s[j].id == id implies j == k by {
                        if j < k {
                            assert(s[j].id != s[k as int].id);
                        } else if j > k {
                            assert(s[k as int].id != s[j].id);
                        }
                    }
                }
                return Some(k);
            }
            k = k + 1;
        }
        None
    }

    /// Appends `node` unless its id is taken; says whether it did.
    pub fn add(&mut self, node: Node<S, V>) -> (r: bool)
        requires
            old(self).wf(),
        ensures
            final(self).wf(),
            r == !has_id(old(self)@, node.id),
            r ==> final(self)@ == old(self)@.push(node),
            !r ==> final(self)@ == old(self)@,
    {
        match self.find(node.id) {
            Some(_) => false,
            None => {
                self.nodes.push(node);
                proof {
                    assert forall|i: int, j: int|
                        0 <= i < j < self.nodes@.len() implies self.nodes@[i].id
                        != self.nodes@[j].id by {
                        if j == self.nodes@.len() - 1 {
                            assert(old(self)@[i].id != node.id);
                        }
                    }
                }
                true
            },
        }
    }

    /// Removes the node with id `id`; nothing changes if there is none.
    pub fn remove(&mut self, id: Id)
        requires
            old(self).wf(),
        ensures
            final(self).wf(),
            final(self)@ == without(old(self)@, id),
            !has_id(final(self)@, id),
    {
        match self.find(id) {
            None => {},
            Some(k) => {
                self.nodes.remove(k);
                proof {
                    let before = old(self)@;
                    assert forall|j: int| 0 <= j < before.len() && before[j].id == id implies j
                        == k by {
                        if j != k as int {
                            if j < k {
                                assert(before[j].id != before[k as int].id);
                            } else {
                                assert(before[k as int].id != before[j].id);
                            }
                        }
                    }
                    assert forall|i: int, j: int|
                        0 <= i < j < self.nodes@.len() implies self.nodes@[i].id
                        != self.nodes@[j].id by {
                        let bi = if i < k { i } else { i + 1 };
                        let bj = if j < k { j } else { j + 1 };
                        assert(self.nodes@[i] == before[bi]);
                        assert(self.nodes@[j] == before[bj]);
                    }
                    assert(index_of(before, id) == k as int);
                    assert forall|j: int| 0 <= j < self.nodes@.len() implies self.nodes@[j].id
                        != id by {
                        let bj = if j < k { j } else { j + 1 };
                        assert(self.nodes@[j] == before[bj]);
                    }
                }
            },
        }
    }

    /// Applies `event` to the node with its id; says whether there was one.
    pub fn set_node(&mut self, event: &SetNodeEvent<S, V>) -> (r: bool)
        requires
            old(self).wf(),
        ensures
            final(self).wf(),
            r == has_id(old(self)@, event.id),
            r ==> final(self)@ == old(self)@.update(
                index_of(old(self)@, event.id),
                event.patched(old(self)@[index_of(old(self)@, event.id)]),
            ),
            !r ==> final(self)@ == old(self)@,
    {
        match self.find(event.id) {
            None => false,
            Some(k) => {
                let ghost before = self.nodes@;
                proof {
                    assert forall|j: int| 0 <= j < before.len() && before[j].id == event.id implies j
                        == k by {
                        if j < k {
                            assert(before[j].id != before[k as int].id);
                        } else if j > k {
                            assert(before[k as int].id != before[j].id);
                        }
                    }
                    assert(index_of(before, event.id) == k as int);
                }
                let node = event.apply(&self.nodes[k]);
                self.nodes.set(k, node);
                proof {
                    assert forall|i: int, j: int|
                        0 <= i < j < self.nodes@.len() implies self.nodes@[i].id
                        != self.nodes@[j].id by {
                        assert(self.nodes@[i].id == before[i].id);
                        assert(self.nodes@[j].id == before[j].id);
                    }
                }
                true
            },
        }
    }

    /// Advances every node by one tick. Each node's motion is computed by
    /// `integrate` from the collection as it stood before the tick, so the
    /// result does not depend on the order in which nodes are visited.
    pub fn tick<F: Fn(&NodeCollection<S, V>, usize, &S) -> Motion<V>>(
        &mut self,
        integrate: &F,
        g: &S,
    )
        requires
            old(self).wf(),
            integrator_total(*integrate),
        ensures
            final(self).wf(),
            is_tick(*integrate, *old(self), *g, final(self)@),
    {
        let ghost snapshot = *self;
        let mut next: Vec<Node<S, V>> = Vec::new();
        let mut i: usize = 0;
        while i < self.nodes.len()
            invariant
                *self == snapshot,
                integrator_total(*integrate),
                i <= self.nodes@.len(),
                next@.len() == i,
                forall|j: int| 0 <= j < i ==> #[trigger] next@[j].id == self.nodes@[j].id,
                forall|j: int|
                    0 <= j < i ==> advanced_from(*integrate, snapshot, *g, j, #[trigger] next@[j]),
            decreases self.nodes@.len() - i,
        {
            let motion = integrate(&*self, i, g);
            let node = self.nodes[i].advance(motion);
            let ghost earlier = next@;
            next.push(node);
            proof {
                assert forall|j: int| 0 <= j < i + 1 implies advanced_from(
                    *integrate,
                    snapshot,
                    *g,
                    j,
                    #[trigger] next@[j],
                ) by {
                    if j < i {
                        assert(next@[j] == earlier[j]);
                    } else {
                        assert((*integrate).ensures((&snapshot, j as usize, g), motion));
                    }
                }
            }
            i = i + 1;
        }
        self.nodes = next;
        proof {
            assert forall|a: int, b: int|
                0 <= a < b < self.nodes@.len() implies self.nodes@[a].id
                != self.nodes@[b].id by {
                assert(self.nodes@[a].id == snapshot.nodes@[a].id);
                assert(self.nodes@[b].id == snapshot.nodes@[b].id);
            }
        }
    }

    /// The nodes in order.
    pub fn iter(&self) -> (r: std::slice::Iter<'_, Node<S, V>>)
        ensures
            r.remaining() == self@.as_ref(),
    {
        self.nodes.iter()
    }
}

} // verus!
