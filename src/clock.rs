use vstd::prelude::*;

use crate::event::Event;
use crate::node::{Motion, Node};
use crate::node_collection::{integrator_total, is_tick, NodeCollection};
use crate::simulation::{handled, Response, Simulation};

verus! {

pub const NANOS_PER_SECOND: u64 = 1_000_000_000;

/// How long a paused loop waits between iterations, so that commands stay
/// responsive without busy-waiting.
pub const PAUSED_PERIOD_NANOS: u64 = 1_000_000_000;

/// The length of one loop iteration at `target_tps`, in nanoseconds.
pub open spec fn period_of(target_tps: u32) -> int {
    if target_tps == 0 {
        PAUSED_PERIOD_NANOS as int
    } else {
        NANOS_PER_SECOND as int / target_tps as int
    }
}

/// The length of one loop iteration at `target_tps`: a second divided by
/// the rate, or the paused period when the rate is 0.
pub fn period_nanos(target_tps: u32) -> (r: u64)
    ensures
        r == period_of(target_tps),
{
    if target_tps == 0 {
        PAUSED_PERIOD_NANOS
    } else {
        NANOS_PER_SECOND / target_tps as u64
    }
}

/// How long to sleep after an iteration that took `elapsed_nanos`: what is
/// left of the period, or nothing if the iteration overran it.
pub fn sleep_nanos(target_tps: u32, elapsed_nanos: u64) -> (r: u64)
    ensures
        r == if elapsed_nanos < period_of(target_tps) {
            period_of(target_tps) - elapsed_nanos
        } else {
            0
        },
{
    let period = period_nanos(target_tps);
    if elapsed_nanos < period {
        period - elapsed_nanos
    } else {
        0
    }
}

/// Whether `after` is `mid` followed by the loop's own tick: one tick if
/// the iteration began at a positive rate `rate`, none if it began paused.
/// A rate set by the iteration's event takes effect from the next one.
pub open spec fn paced<S, V, F: Fn(&NodeCollection<S, V>, usize, &S) -> Motion<V>>(
    integrate: F,
    rate: u32,
    mid: Simulation<S, V>,
    after: Simulation<S, V>,
) -> bool {
    &&& after.target_tps == mid.target_tps
    &&& after.gravitational_constant == mid.gravitational_constant
    &&& if rate == 0 {
        after.nodes@ == mid.nodes@
    } else {
        is_tick(integrate, mid.nodes, mid.gravitational_constant, after.nodes@)
    }
}

/// Whether `after` and `r` are what one loop iteration makes of `before`
/// when `event` was pending (or nothing was).
pub open spec fn iterated<S, V, F: Fn(&NodeCollection<S, V>, usize, &S) -> Motion<V>>(
    integrate: F,
    before: Simulation<S, V>,
    event: Option<Event<S, V>>,
    after: Simulation<S, V>,
    r: Option<Response>,
) -> bool {
    match event {
        None => r is None && paced(integrate, before.target_tps, before, after),
        Some(e) => exists|mid: Simulation<S, V>, resp: Response|
            r == Some(resp) && handled(integrate, before, e, mid, resp) && paced(
                integrate,
                before.target_tps,
                mid,
                after,
            ),
    }
}

impl<S: Copy, V: Copy> Simulation<S, V> {
    /// One iteration of the simulation loop, short of the sleep: applies the
    /// pending event, if any, then ticks once unless the iteration began
    /// paused. The caller reads `target_tps` before the call, publishes a
    /// snapshot afterwards and sleeps for `sleep_nanos` at that rate.
    pub fn run_iteration<F: Fn(&NodeCollection<S, V>, usize, &S) -> Motion<V>>(
        &mut self,
        event: Option<Event<S, V>>,
        integrate: &F,
    ) -> (r: Option<Response>)
        requires
            old(self).wf(),
            integrator_total(*integrate),
        ensures
            final(self).wf(),
            iterated(*integrate, *old(self), event, *final(self), r),
    {
        let ghost before = *self;
        let ghost pending = event;
        let paused = self.target_tps == 0;
        let r = match event {
            Some(e) => Some(self.handle_event(e, integrate)),
            None => None,
        };
        let ghost mid = *self;
        if !paused {
            self.step(integrate);
        }
        proof {
            if let Some(e) = pending {
                let resp = r.unwrap();
                assert(handled(*integrate, before, e, mid, resp));
                assert(paced(*integrate, before.target_tps, mid, *self));
            }
        }
        r
    }
}

/// Whether `event` itself leaves positions and velocities alone: it is no
/// `Step` and no `SetNode` that gives a position or a velocity.
pub open spec fn keeps_motion<S, V>(event: Event<S, V>) -> bool {
    match event {
        Event::Step(_) => false,
        Event::SetNode(e) => e.position is None && e.velocity is None,
        _ => true,
    }
}

/// Whether `node` has the id, position and velocity of some node of
/// `before`.
pub open spec fn motion_kept<S, V>(before: Seq<Node<S, V>>, node: Node<S, V>) -> bool {
    exists|j: int|
        0 <= j < before.len() && before[j].id == node.id && before[j].position == node.position
            && before[j].velocity == node.velocity
}

/// While paused, a loop iteration moves nothing: every node it leaves either
/// has the position and velocity it had, or is the node the event added.
/// This holds for every pending event that itself keeps motion (see
/// `keeps_motion`), and the loop stays paused unless the event sets a rate.
pub proof fn lemma_paused_iteration_keeps_motion<S, V, F: Fn(
    &NodeCollection<S, V>,
    usize,
    &S,
) -> Motion<V>>(
    integrate: F,
    before: Simulation<S, V>,
    event: Option<Event<S, V>>,
    after: Simulation<S, V>,
    r: Option<Response>,
)
    requires
        before.wf(),
        before.target_tps == 0,
        iterated(integrate, before, event, after, r),
        event matches Some(e) ==> keeps_motion(e),
    ensures
        !(event matches Some(Event::SetTargetTps(e)) && e.target_tps is Some) ==> after.target_tps
            == 0,
        forall|i: int|
            0 <= i < after.nodes@.len() ==> motion_kept(before.nodes@, #[trigger] after.nodes@[i])
                || (event matches Some(Event::AddNode(e)) && after.nodes@[i] == e.node),
{
    let b = before.nodes@;
    match event {
        None => {
            assert forall|i: int| 0 <= i < after.nodes@.len() implies motion_kept(
                b,
                #[trigger] after.nodes@[i],
            ) by {
                assert(b[i] == after.nodes@[i]);
            }
        },
        Some(e) => {
            let (mid, resp) = choose|mid: Simulation<S, V>, resp: Response|
                r == Some(resp) && handled(integrate, before, e, mid, resp) && paced(
                    integrate,
                    before.target_tps,
                    mid,
                    after,
                );
            let a = after.nodes@;
            assert(a == mid.nodes@);
            assert forall|i: int| 0 <= i < a.len() implies motion_kept(b, #[trigger] a[i]) || (
            e matches Event::AddNode(x) && a[i] == x.node) by {
                match e {
                    Event::AddNode(x) => {
                        if i < b.len() {
                            assert(a[i] == b[i]);
                        }
                    },
                    Event::RemoveNode(x) => {
                        if crate::node_collection::has_id(b, x.node_id) {
                            let k = crate::node_collection::index_of(b, x.node_id);
                            if i < k {
                                assert(a[i] == b[i]);
                            } else {
                                assert(a[i] == b[i + 1]);
                            }
                        } else {
                            assert(a[i] == b[i]);
                        }
                    },
                    Event::SetNode(x) => {
                        assert(a[i].position == b[i].position);
                        assert(a[i].velocity == b[i].velocity);
                        assert(a[i].id == b[i].id);
                    },
                    _ => {
                        assert(a[i] == b[i]);
                    },
                }
            }
        },
    }
}

} // verus!
