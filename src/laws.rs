use vstd::prelude::*;

use crate::event::{Event, SetTargetTpsEvent, StepEvent};
use crate::node::{Motion, Node};
use crate::node_collection::{is_tick, NodeCollection};
use crate::simulation::{handled, ticks, Response, Simulation};

verus! {

/// Whether `integrate` gives one motion for each snapshot contents, index
/// and constant: it draws on no hidden state, chance or clock.
pub open spec fn deterministic<S, V, F: Fn(&NodeCollection<S, V>, usize, &S) -> Motion<V>>(
    integrate: F,
) -> bool {
    forall|c1: NodeCollection<S, V>, c2: NodeCollection<S, V>, i: usize, g: S, m1: Motion<V>, m2: Motion<V>|
        c1@ == c2@ && #[trigger] integrate.ensures((&c1, i, &g), m1) && #[trigger] integrate.ensures(
            (&c2, i, &g),
            m2,
        ) ==> m1 == m2
}

/// A frozen node keeps its position bit for bit across a tick, while its
/// velocity becomes the one its motion gives.
pub proof fn lemma_frozen_node_keeps_position<S, V, F: Fn(&NodeCollection<S, V>, usize, &S) -> Motion<V>>(
    integrate: F,
    before: NodeCollection<S, V>,
    g: S,
    after: Seq<Node<S, V>>,
    i: int,
)
    requires
        is_tick(integrate, before, g, after),
        0 <= i < before@.len(),
        before@[i].freeze,
    ensures
        after[i].position == before@[i].position,
        after[i].freeze,
        exists|m: Motion<V>|
            integrate.ensures((&before, i as usize, &g), m) && after[i].velocity == m.velocity,
{
    assert(crate::node_collection::advanced_from(integrate, before, g, i, after[i]));
}

/// With a deterministic integrator, `n` ticks from one node list always end
/// in the same node list.
pub proof fn lemma_ticks_deterministic<S, V, F: Fn(&NodeCollection<S, V>, usize, &S) -> Motion<V>>(
    integrate: F,
    before: Seq<Node<S, V>>,
    g: S,
    a1: Seq<Node<S, V>>,
    a2: Seq<Node<S, V>>,
    n: nat,
)
    requires
        deterministic(integrate),
        ticks(integrate, before, g, a1, n),
        ticks(integrate, before, g, a2, n),
    ensures
        a1 == a2,
    decreases n,
{
    if n > 0 {
        let mid1 = choose|mid: NodeCollection<S, V>|
            ticks(integrate, before, g, mid@, (n - 1) as nat) && is_tick(integrate, mid, g, a1);
        let mid2 = choose|mid: NodeCollection<S, V>|
            ticks(integrate, before, g, mid@, (n - 1) as nat) && is_tick(integrate, mid, g, a2);
        lemma_ticks_deterministic(integrate, before, g, mid1@, mid2@, (n - 1) as nat);
        assert forall|i: int| 0 <= i < a1.len() implies a1[i] == a2[i] by {
            assert(crate::node_collection::advanced_from(integrate, mid1, g, i, a1[i]));
            assert(crate::node_collection::advanced_from(integrate, mid2, g, i, a2[i]));
            let m1 = choose|m: Motion<V>|
                integrate.ensures((&mid1, i as usize, &g), m) && a1[i] == mid1@[i].advanced(m);
            let m2 = choose|m: Motion<V>|
                integrate.ensures((&mid2, i as usize, &g), m) && a2[i] == mid2@[i].advanced(m);
            assert(m1 == m2);
        }
        assert(a1 =~= a2);
    }
}

/// `Step{n}` applied twice to the same state gives the same state and the
/// same response, when the integrator is deterministic: the engine adds no
/// randomness or time dependence of its own.
pub proof fn lemma_step_deterministic<S, V, F: Fn(&NodeCollection<S, V>, usize, &S) -> Motion<V>>(
    integrate: F,
    before: Simulation<S, V>,
    steps: u32,
    after1: Simulation<S, V>,
    r1: Response,
    after2: Simulation<S, V>,
    r2: Response,
)
    requires
        deterministic(integrate),
        handled(integrate, before, Event::Step(StepEvent { steps }), after1, r1),
        handled(integrate, before, Event::Step(StepEvent { steps }), after2, r2),
    ensures
        after1.same_state(after2),
        r1 == r2,
{
    lemma_ticks_deterministic(
        integrate,
        before.nodes@,
        before.gravitational_constant,
        after1.nodes@,
        after2.nodes@,
        steps as nat,
    );
}

/// Pausing does not hold back a step command: after `SetTargetTps(0)` and
/// then `Step{n}`, the simulation is still paused and its nodes are exactly
/// where `n` single ticks take them.
pub proof fn lemma_step_while_paused<S, V, F: Fn(&NodeCollection<S, V>, usize, &S) -> Motion<V>>(
    integrate: F,
    s0: Simulation<S, V>,
    s1: Simulation<S, V>,
    r1: Response,
    steps: u32,
    s2: Simulation<S, V>,
    r2: Response,
    single_ticks: Seq<Node<S, V>>,
)
    requires
        deterministic(integrate),
        handled(
            integrate,
            s0,
            Event::SetTargetTps(SetTargetTpsEvent { target_tps: Some(0) }),
            s1,
            r1,
        ),
        handled(integrate, s1, Event::Step(StepEvent { steps }), s2, r2),
        ticks(integrate, s0.nodes@, s0.gravitational_constant, single_ticks, steps as nat),
    ensures
        s2.target_tps == 0,
        s2.nodes@ == single_ticks,
        r2 == Response::Done,
{
    lemma_ticks_deterministic(
        integrate,
        s0.nodes@,
        s0.gravitational_constant,
        s2.nodes@,
        single_ticks,
        steps as nat,
    );
}

} // verus!
