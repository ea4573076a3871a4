use vstd::prelude::*;

use crate::event::{Event, GetEvent, NodeField};
use crate::id::Id;
use crate::node::{Motion, Node};
use crate::node_collection::{
    has_id, index_of, integrator_total, is_tick, without, NodeCollection,
};

verus! {

/// The simulation's tick rate when it starts.
pub const DEFAULT_TARGET_TPS: u32 = 60;

/// What applying an event reports back to the operator.
#[derive(Debug, PartialEq, Eq)]
pub enum Response {
    /// The event was applied; there is nothing to report.
    Done,
    /// An `AddNode` named an id that is taken; nothing changed.
    DuplicateNode(Id),
    /// A `SetNode` or `Get` named an id that no node has; nothing changed.
    NodeNotFound(Id),
    /// The current target tick rate, as queried.
    TargetTps(u32),
    /// The node at `index` was queried; `fields` are the ones to show, in
    /// order.
    NodeInfo { index: usize, fields: Vec<NodeField> },
}

/// The nodes, the tick-rate governor and the default gravitational
/// constant.
#[derive(Clone)]
pub struct Simulation<S, V> {
    pub nodes: NodeCollection<S, V>,
    /// Ticks per second; 0 means paused.
    pub target_tps: u32,
    pub gravitational_constant: S,
}

/// Whether `after` is what `n` ticks make of the node list `before` under
/// the constant `g`.
pub open spec fn ticks<S, V, F: Fn(&NodeCollection<S, V>, usize, &S) -> Motion<V>>(
    integrate: F,
    before: Seq<Node<S, V>>,
    g: S,
    after: Seq<Node<S, V>>,
    n: nat,
) -> bool
    decreases n,
{
    if n == 0 {
        after == before
    } else {
        exists|mid: NodeCollection<S, V>|
            ticks(integrate, before, g, mid@, (n - 1) as nat) && is_tick(integrate, mid, g, after)
    }
}

impl<S, V> Simulation<S, V> {
    pub open spec fn wf(self) -> bool {
        self.nodes.wf()
    }

    /// Whether two states hold the same nodes, rate and constant.
    pub open spec fn same_state(self, other: Simulation<S, V>) -> bool {
        &&& self.nodes@ == other.nodes@
        &&& self.target_tps == other.target_tps
        &&& self.gravitational_constant == other.gravitational_constant
    }
}

/// Whether `after` and `r` are what applying `event` to `before` gives.
pub open spec fn handled<S, V, F: Fn(&NodeCollection<S, V>, usize, &S) -> Motion<V>>(
    integrate: F,
    before: Simulation<S, V>,
    event: Event<S, V>,
    after: Simulation<S, V>,
    r: Response,
) -> bool {
    let nodes = before.nodes@;
    let g = before.gravitational_constant;
    &&& after.gravitational_constant == g
    &&& match event {
        Event::AddNode(e) => {
            &&& after.target_tps == before.target_tps
            &&& if has_id(nodes, e.node.id) {
                after.nodes@ == nodes && r == Response::DuplicateNode(e.node.id)
            } else {
                after.nodes@ == nodes.push(e.node) && r == Response::Done
            }
        },
        Event::RemoveNode(e) => {
            &&& after.target_tps == before.target_tps
            &&& after.nodes@ == without(nodes, e.node_id)
            &&& r == Response::Done
        },
        Event::SetNode(e) => {
            &&& after.target_tps == before.target_tps
            &&& if has_id(nodes, e.id) {
                let k = index_of(nodes, e.id);
                after.nodes@ == nodes.update(k, e.patched(nodes[k])) && r == Response::Done
            } else {
                after.nodes@ == nodes && r == Response::NodeNotFound(e.id)
            }
        },
        Event::Get(GetEvent::Tps) => {
            &&& after.same_state(before)
            &&& r == Response::TargetTps(before.target_tps)
        },
        Event::Get(GetEvent::Node(a)) => {
            &&& after.same_state(before)
            &&& if has_id(nodes, Id(a.id)) {
                match r {
                    Response::NodeInfo { index, fields } => index == index_of(nodes, Id(a.id))
                        && fields@ == a.shown_fields(),
                    _ => false,
                }
            } else {
                r == Response::NodeNotFound(Id(a.id))
            }
        },
        Event::SetTargetTps(e) => match e.target_tps {
            Some(t) => after.nodes@ == nodes && after.target_tps == t && r == Response::Done,
            None => after.same_state(before) && r == Response::TargetTps(before.target_tps),
        },
        Event::Step(e) => {
            &&& after.target_tps == before.target_tps
            &&& ticks(integrate, nodes, g, after.nodes@, e.steps as nat)
            &&& r == Response::Done
        },
    }
}

impl<S: Copy, V: Copy> Simulation<S, V> {
    /// An empty simulation running at the default rate.
    pub fn new(gravitational_constant: S) -> (r: Simulation<S, V>)
        ensures
            r.wf(),
            r.nodes@ == Seq::<Node<S, V>>::empty(),
            r.target_tps == DEFAULT_TARGET_TPS,
            r.gravitational_constant == gravitational_constant,
    {
        Simulation { nodes: NodeCollection::new(), target_tps: DEFAULT_TARGET_TPS, gravitational_constant }
    }

    /// Adds `node` unless its id is taken; says whether it did.
    pub fn add_node(&mut self, node: Node<S, V>) -> (r: bool)
        requires
            old(self).wf(),
        ensures
            final(self).wf(),
            final(self).target_tps == old(self).target_tps,
            final(self).gravitational_constant == old(self).gravitational_constant,
            r == !has_id(old(self).nodes@, node.id),
            r ==> final(self).nodes@ == old(self).nodes@.push(node),
            !r ==> final(self).nodes@ == old(self).nodes@,
    {
        self.nodes.add(node)
    }

    /// Removes the node with id `id`, if there is one.
    pub fn remove_node(&mut self, id: Id)
        requires
            old(self).wf(),
        ensures
            final(self).wf(),
            final(self).target_tps == old(self).target_tps,
            final(self).gravitational_constant == old(self).gravitational_constant,
            final(self).nodes@ == without(old(self).nodes@, id),
    {
        self.nodes.remove(id)
    }

    pub fn target_tps(&self) -> (r: u32)
        ensures
            r == self.target_tps,
    {
        self.target_tps
    }

    pub fn set_target_tps(&mut self, target_tps: u32)
        ensures
            final(self).target_tps == target_tps,
            final(self).nodes == old(self).nodes,
            final(self).gravitational_constant == old(self).gravitational_constant,
    {
        self.target_tps = target_tps;
    }

    /// Advances every node by one tick (see `NodeCollection::tick`).
    pub fn step<F: Fn(&NodeCollection<S, V>, usize, &S) -> Motion<V>>(&mut self, integrate: &F)
        requires
            old(self).wf(),
            integrator_total(*integrate),
        ensures
            final(self).wf(),
            final(self).target_tps == old(self).target_tps,
            final(self).gravitational_constant == old(self).gravitational_constant,
            is_tick(*integrate, old(self).nodes, old(self).gravitational_constant, final(self).nodes@),
    {
        let g = self.gravitational_constant;
        self.nodes.tick(integrate, &g);
    }

    /// Runs `steps` ticks in a row.
    fn run_steps<F: Fn(&NodeCollection<S, V>, usize, &S) -> Motion<V>>(
        &mut self,
        steps: u32,
        integrate: &F,
    )
        requires
            old(self).wf(),
            integrator_total(*integrate),
        ensures
            final(self).wf(),
            final(self).target_tps == old(self).target_tps,
            final(self).gravitational_constant == old(self).gravitational_constant,
            ticks(
                *integrate,
                old(self).nodes@,
                old(self).gravitational_constant,
                final(self).nodes@,
                steps as nat,
            ),
    {
        let ghost start = self.nodes@;
        let mut k: u32 = 0;
        while k < steps
            invariant
                self.wf(),
                integrator_total(*integrate),
                k <= steps,
                self.target_tps == old(self).target_tps,
                self.gravitational_constant == old(self).gravitational_constant,
                ticks(*integrate, start, self.gravitational_constant, self.nodes@, k as nat),
            decreases steps - k,
        {
            let ghost mid = self.nodes;
            self.step(integrate);
            proof {
                assert(ticks(*integrate, start, self.gravitational_constant, mid@, k as nat));
                assert(ticks(
                    *integrate,
                    start,
                    self.gravitational_constant,
                    self.nodes@,
                    (k + 1) as nat,
                ));
            }
            k = k + 1;
        }
    }

    /// Applies one event and reports on it (see `handled`).
    pub fn handle_event<F: Fn(&NodeCollection<S, V>, usize, &S) -> Motion<V>>(
        &mut self,
        event: Event<S, V>,
        integrate: &F,
    ) -> (r: Response)
        requires
            old(self).wf(),
            integrator_total(*integrate),
        ensures
            final(self).wf(),
            handled(*integrate, *old(self), event, *final(self), r),
    {
        match event {
            Event::AddNode(e) => {
                if self.nodes.add(e.node) {
                    Response::Done
                } else {
                    Response::DuplicateNode(e.node.id)
                }
            },
            Event::RemoveNode(e) => {
                self.nodes.remove(e.node_id);
                Response::Done
            },
            Event::SetNode(e) => {
                if self.nodes.set_node(&e) {
                    Response::Done
                } else {
                    Response::NodeNotFound(e.id)
                }
            },
            Event::Get(GetEvent::Tps) => Response::TargetTps(self.target_tps),
            Event::Get(GetEvent::Node(a)) => {
                match self.nodes.find(Id(a.id)) {
                    Some(index) => {
                        Response::NodeInfo { index, fields: a.selected_fields() }
                    },
                    None => Response::NodeNotFound(Id(a.id)),
                }
            },
            Event::SetTargetTps(e) => match e.target_tps {
                Some(t) => {
                    self.target_tps = t;
                    Response::Done
                },
                None => Response::TargetTps(self.target_tps),
            },
            Event::Step(e) => {
                self.run_steps(e.steps, integrate);
                Response::Done
            },
        }
    }
}

} // verus!
