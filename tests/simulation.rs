use node_simulator::event::{
    AddNodeEvent, Event, GetEvent, NodeArgs, NodeField, RemoveNodeEvent, SetNodeEvent,
    SetTargetTpsEvent, StepEvent,
};
use node_simulator::id::Id;
use node_simulator::node::{Motion, Node};
use node_simulator::node_collection::NodeCollection;
use node_simulator::simulation::{Response, Simulation, DEFAULT_TARGET_TPS};

type V3 = [f32; 3];
type TestNode = Node<f32, V3>;
type TestSimulation = Simulation<f32, V3>;

const INTERACTION_RADIUS: f32 = 5.0;
const MIN_VELOCITY: f32 = 0.0001;

fn sub(a: V3, b: V3) -> V3 {
    [a[0] - b[0], a[1] - b[1], a[2] - b[2]]
}

fn add(a: V3, b: V3) -> V3 {
    [a[0] + b[0], a[1] + b[1], a[2] + b[2]]
}

fn scale(a: V3, k: f32) -> V3 {
    [a[0] * k, a[1] * k, a[2] * k]
}

fn length(a: V3) -> f32 {
    (a[0] * a[0] + a[1] * a[1] + a[2] * a[2]).sqrt()
}

/// Force on node `i` from every other node: g * m1 * m2 / r^2 along the
/// line between them, away from the other node for a positive g; zero
/// beyond the radius or at distance zero.
fn incoming_force(nodes: &NodeCollection<f32, V3>, i: usize, g: f32) -> V3 {
    let node = nodes.get(i);
    let mut force = [0.0, 0.0, 0.0];
    for (j, other) in nodes.iter().enumerate() {
        if j == i {
            continue;
        }
        let displacement = sub(other.position, node.position);
        let r = length(displacement);
        if r > INTERACTION_RADIUS || r == 0.0 {
            continue;
        }
        let g = other.gravitational_constant_or(g);
        let magnitude = g * (node.mass * other.mass / (r * r));
        force = add(force, scale(displacement, -magnitude / r));
    }
    force
}

fn motion_under(node: &TestNode, force: V3) -> Motion<V3> {
    let velocity = add(node.velocity, scale(force, 1.0 / node.mass));
    let position = add(node.position, velocity);
    let mut damped = scale(velocity, 1.0 - node.dampen_rate);
    let speed = length(damped);
    if 0.0 < speed && speed < MIN_VELOCITY {
        damped = [0.0, 0.0, 0.0];
    }
    Motion { position, velocity: damped }
}

fn integrate(nodes: &NodeCollection<f32, V3>, i: usize, g: &f32) -> Motion<V3> {
    motion_under(nodes.get(i), incoming_force(nodes, i, *g))
}

fn new_node(id: u32, position: V3) -> TestNode {
    Node::new(Id(id), position, [0.0, 0.0, 0.0], 1.0, 0.1)
}

fn node_with_id(simulation: &TestSimulation, id: u32) -> TestNode {
    let index = simulation.nodes.find(Id(id)).unwrap();
    *simulation.nodes.get(index)
}

#[test]
fn is_created_from_id_and_position() {
    let node = new_node(3, [5.0, 7.0, 9.0]);
    let [x, y, z] = node.position;
    assert_eq!(5.0, x);
    assert_eq!(7.0, y);
    assert_eq!(9.0, z);
    assert_eq!(Id(3), node.id);
    assert_eq!([0.0, 0.0, 0.0], node.velocity);
    assert_eq!(1.0, node.mass);
    assert_eq!(None, node.gravitational_constant_override);
    assert_eq!(0.1, node.dampen_rate);
    assert!(!node.freeze);
}

#[test]
fn has_no_nodes_on_creation() {
    let simulation: TestSimulation = Simulation::new(-1.0);
    assert_eq!(0, simulation.nodes.len());
    assert_eq!(DEFAULT_TARGET_TPS, simulation.target_tps());
}

#[test]
fn can_add_node() {
    let mut simulation: TestSimulation = Simulation::new(-1.0);
    let node = new_node(1, [3.0, 5.0, 7.0]);

    assert!(simulation.add_node(node.clone()));

    assert_eq!(1, simulation.nodes.len());
    assert_eq!(&node, simulation.nodes.get(0));
}

#[test]
fn can_remove_node() {
    let mut simulation: TestSimulation = Simulation::new(-1.0);
    let node = new_node(1, [3.0, 5.0, 7.0]);

    simulation.add_node(node.clone());
    simulation.remove_node(Id(1));

    assert_eq!(0, simulation.nodes.len());
    assert!(!simulation.nodes.iter().any(|n| n == &node));
}

#[test]
fn removing_an_absent_node_changes_nothing() {
    let mut simulation: TestSimulation = Simulation::new(-1.0);
    simulation.add_node(new_node(1, [0.0, 0.0, 0.0]));
    simulation.remove_node(Id(2));
    assert_eq!(1, simulation.nodes.len());
}

#[test]
fn adding_a_taken_id_is_refused() {
    let mut simulation: TestSimulation = Simulation::new(-1.0);
    assert!(simulation.add_node(new_node(1, [0.0, 0.0, 0.0])));
    assert!(!simulation.add_node(new_node(1, [2.0, 0.0, 0.0])));
    assert_eq!(1, simulation.nodes.len());
    assert_eq!([0.0, 0.0, 0.0], simulation.nodes.get(0).position);

    let response = simulation.handle_event(AddNodeEvent::new(new_node(1, [4.0, 0.0, 0.0])), &integrate);
    assert_eq!(Response::DuplicateNode(Id(1)), response);
    assert_eq!(1, simulation.nodes.len());
}

#[test]
fn updates_nodes_each_step() {
    let mut simulation: TestSimulation = Simulation::new(-1.0);
    let position_a = [0.0, 0.0, 0.0];
    let position_b = [1.0, 0.0, 0.0];
    simulation.add_node(new_node(1, position_a));
    simulation.add_node(new_node(2, position_b));

    simulation.step(&integrate);

    assert_ne!(position_a, node_with_id(&simulation, 1).position);
    assert_ne!(position_b, node_with_id(&simulation, 2).position);
}

#[test]
pub fn can_handle_step_event() {
    let mut simulation: TestSimulation = Simulation::new(-1.0);
    simulation.set_target_tps(0);
    let node_a = Node {
        id: Id(1),
        position: [0.0, 0.0, 0.0],
        velocity: [1.0, 0.0, 0.0],
        mass: 1.0,
        gravitational_constant_override: None,
        dampen_rate: 0.0,
        freeze: false,
    };
    simulation.add_node(node_a);
    assert_eq!([0.0, 0.0, 0.0], node_with_id(&simulation, 1).position);

    let response = simulation.handle_event(Event::Step(StepEvent { steps: 1 }), &integrate);

    assert_eq!(Response::Done, response);
    assert_ne!([0.0, 0.0, 0.0], node_with_id(&simulation, 1).position);
}

#[test]
fn does_not_move_if_frozen() {
    let mut node = new_node(1, [0.0, 0.0, 0.0]);
    node.freeze = true;
    let motion = motion_under(&node, [1.0, 0.0, 0.0]);
    let node = node.advance(motion);
    assert!(length(node.velocity) > 0.0, "Node velocity is still updated...");
    assert!([0.0, 0.0, 0.0] == node.position, "...but its position is not!");
}

#[test]
fn frozen_node_keeps_its_position_through_set_and_tick() {
    let mut simulation: TestSimulation = Simulation::new(1.0);
    simulation.handle_event(AddNodeEvent::new(new_node(1, [0.0, 0.0, 0.0])), &integrate);
    let set = SetNodeEvent {
        id: Id(1),
        position: None,
        velocity: None,
        mass: None,
        gravitational_constant_override: None,
        dampen_rate: None,
        freeze: Some(true),
    };
    assert_eq!(Response::Done, simulation.handle_event(Event::SetNode(set), &integrate));

    let push = |nodes: &NodeCollection<f32, V3>, i: usize, _g: &f32| {
        motion_under(nodes.get(i), [1.0, 0.0, 0.0])
    };
    simulation.step(&push);

    let node = node_with_id(&simulation, 1);
    assert!(length(node.velocity) > 0.0);
    assert_eq!([0.0, 0.0, 0.0], node.position);
}

#[test]
fn set_node_overwrites_only_given_fields() {
    let mut simulation: TestSimulation = Simulation::new(1.0);
    simulation.add_node(new_node(7, [1.0, 2.0, 3.0]));
    let set = SetNodeEvent {
        id: Id(7),
        position: None,
        velocity: Some([0.5, 0.0, 0.0]),
        mass: Some(2.0),
        gravitational_constant_override: Some(3.0),
        dampen_rate: None,
        freeze: None,
    };
    simulation.handle_event(Event::SetNode(set), &integrate);
    let node = node_with_id(&simulation, 7);
    assert_eq!([1.0, 2.0, 3.0], node.position);
    assert_eq!([0.5, 0.0, 0.0], node.velocity);
    assert_eq!(2.0, node.mass);
    assert_eq!(Some(3.0), node.gravitational_constant_override);
    assert_eq!(0.1, node.dampen_rate);
    assert!(!node.freeze);
}

#[test]
fn set_node_on_unknown_id_reports_it() {
    let mut simulation: TestSimulation = Simulation::new(1.0);
    simulation.add_node(new_node(1, [0.0, 0.0, 0.0]));
    let set = SetNodeEvent {
        id: Id(9),
        position: Some([5.0, 5.0, 5.0]),
        velocity: None,
        mass: None,
        gravitational_constant_override: None,
        dampen_rate: None,
        freeze: None,
    };
    let response = simulation.handle_event(Event::SetNode(set), &integrate);
    assert_eq!(Response::NodeNotFound(Id(9)), response);
    assert_eq!([0.0, 0.0, 0.0], simulation.nodes.get(0).position);
}

#[test]
fn get_node_without_flags_shows_every_field() {
    let mut simulation: TestSimulation = Simulation::new(1.0);
    simulation.add_node(new_node(1, [0.0, 0.0, 0.0]));
    simulation.add_node(new_node(2, [1.0, 2.0, 3.0]));
    let args = NodeArgs {
        id: 2,
        position: false,
        velocity: false,
        mass: false,
        gravitational_constant_override: false,
        dampen_rate: false,
        freeze: false,
    };
    let response = simulation.handle_event(Event::Get(GetEvent::Node(args)), &integrate);
    assert_eq!(
        Response::NodeInfo {
            index: 1,
            fields: vec![
                NodeField::Position,
                NodeField::Velocity,
                NodeField::Mass,
                NodeField::GravitationalConstantOverride,
                NodeField::DampenRate,
                NodeField::Freeze,
            ],
        },
        response
    );
}

#[test]
fn get_node_with_flags_shows_those_fields_in_order() {
    let mut simulation: TestSimulation = Simulation::new(1.0);
    simulation.add_node(new_node(1, [1.0, 2.0, 3.0]));
    let args = NodeArgs {
        id: 1,
        position: false,
        velocity: false,
        mass: false,
        gravitational_constant_override: false,
        dampen_rate: true,
        freeze: true,
    };
    assert_eq!(vec![NodeField::DampenRate, NodeField::Freeze], args.selected_fields());
    let args = NodeArgs { position: true, ..args };
    let response = simulation.handle_event(Event::Get(GetEvent::Node(args)), &integrate);
    assert_eq!(
        Response::NodeInfo {
            index: 0,
            fields: vec![NodeField::Position, NodeField::DampenRate, NodeField::Freeze],
        },
        response
    );
}

#[test]
fn get_unknown_node_reports_it() {
    let mut simulation: TestSimulation = Simulation::new(1.0);
    let args = NodeArgs {
        id: 1,
        position: true,
        velocity: false,
        mass: false,
        gravitational_constant_override: false,
        dampen_rate: false,
        freeze: false,
    };
    let response = simulation.handle_event(Event::Get(GetEvent::Node(args)), &integrate);
    assert_eq!(Response::NodeNotFound(Id(1)), response);
}

#[test]
fn tps_can_be_set_and_queried() {
    let mut simulation: TestSimulation = Simulation::new(1.0);
    assert_eq!(Response::TargetTps(60), simulation.handle_event(Event::Get(GetEvent::Tps), &integrate));
    assert_eq!(Response::Done, simulation.handle_event(SetTargetTpsEvent::new(Some(30)), &integrate));
    assert_eq!(30, simulation.target_tps());
    assert_eq!(Response::TargetTps(30), simulation.handle_event(SetTargetTpsEvent::new(None), &integrate));
    assert_eq!(30, simulation.target_tps());
}

#[test]
fn remove_node_event_removes_the_node() {
    let mut simulation: TestSimulation = Simulation::new(1.0);
    simulation.add_node(new_node(1, [0.0, 0.0, 0.0]));
    simulation.add_node(new_node(2, [1.0, 0.0, 0.0]));
    simulation.add_node(new_node(3, [2.0, 0.0, 0.0]));
    assert_eq!(Response::Done, simulation.handle_event(RemoveNodeEvent::new(Id(2)), &integrate));
    assert_eq!(2, simulation.nodes.len());
    assert_eq!(Id(1), simulation.nodes.get(0).id);
    assert_eq!(Id(3), simulation.nodes.get(1).id);
    assert_eq!(None, simulation.nodes.find(Id(2)));
}

#[test]
fn step_event_while_paused_equals_single_ticks() {
    let mut stepped: TestSimulation = Simulation::new(1.0);
    let mut manual: TestSimulation = Simulation::new(1.0);
    for simulation in [&mut stepped, &mut manual] {
        simulation.add_node(new_node(1, [0.0, 0.0, 0.0]));
        simulation.add_node(new_node(2, [1.0, 0.0, 0.0]));
        simulation.add_node(new_node(3, [0.0, 2.0, 0.0]));
    }

    stepped.handle_event(SetTargetTpsEvent::new(Some(0)), &integrate);
    stepped.handle_event(Event::Step(StepEvent { steps: 5 }), &integrate);
    for _ in 0..5 {
        manual.step(&integrate);
    }

    assert_eq!(0, stepped.target_tps());
    for index in 0..3 {
        assert_eq!(manual.nodes.get(index), stepped.nodes.get(index));
    }
    let mut once_more = manual;
    once_more.step(&integrate);
    assert_ne!(once_more.nodes.get(0), stepped.nodes.get(0));
}

#[test]
fn step_event_twice_from_one_state_agrees() {
    let build = || {
        let mut simulation: TestSimulation = Simulation::new(-1.0);
        simulation.add_node(new_node(1, [0.0, 0.0, 0.0]));
        simulation.add_node(new_node(2, [1.5, 0.5, 0.0]));
        simulation
    };
    let mut first = build();
    let mut second = build();
    first.handle_event(Event::Step(StepEvent { steps: 4 }), &integrate);
    second.handle_event(Event::Step(StepEvent { steps: 4 }), &integrate);
    for index in 0..2 {
        assert_eq!(first.nodes.get(index), second.nodes.get(index));
    }
}

#[test]
fn step_of_zero_ticks_changes_nothing() {
    let mut simulation: TestSimulation = Simulation::new(1.0);
    simulation.add_node(new_node(1, [0.0, 0.0, 0.0]));
    simulation.add_node(new_node(2, [1.0, 0.0, 0.0]));
    simulation.handle_event(Event::Step(StepEvent { steps: 0 }), &integrate);
    assert_eq!([0.0, 0.0, 0.0], simulation.nodes.get(0).position);
    assert_eq!([1.0, 0.0, 0.0], simulation.nodes.get(1).position);
}

#[test]
fn tick_reads_one_snapshot() {
    // Each node moves by the position of the node before it, read before
    // the tick: the result must not depend on visiting order.
    let mut simulation: TestSimulation = Simulation::new(1.0);
    simulation.add_node(new_node(1, [1.0, 0.0, 0.0]));
    simulation.add_node(new_node(2, [2.0, 0.0, 0.0]));
    let shift = |nodes: &NodeCollection<f32, V3>, i: usize, _g: &f32| {
        let node = nodes.get(i);
        let source = nodes.get((i + 1) % nodes.len());
        Motion { position: add(node.position, source.position), velocity: node.velocity }
    };
    simulation.step(&shift);
    assert_eq!([3.0, 0.0, 0.0], simulation.nodes.get(0).position);
    assert_eq!([3.0, 0.0, 0.0], simulation.nodes.get(1).position);
}

#[test]
fn override_replaces_the_default_constant() {
    let mut node = new_node(1, [0.0, 0.0, 0.0]);
    assert_eq!(-1.0, node.gravitational_constant_or(-1.0));
    node.gravitational_constant_override = Some(2.5);
    assert_eq!(2.5, node.gravitational_constant_or(-1.0));
}

#[test]
fn override_scales_the_force_on_other_nodes() {
    let mut simulation: TestSimulation = Simulation::new(1.0);
    simulation.add_node(new_node(1, [0.0, 0.0, 0.0]));
    let mut heavy = new_node(2, [1.0, 0.0, 0.0]);
    heavy.gravitational_constant_override = Some(3.0);
    simulation.add_node(heavy);
    assert_eq!([-3.0, 0.0, 0.0], incoming_force(&simulation.nodes, 0, simulation.gravitational_constant));
    assert_eq!([1.0, 0.0, 0.0], incoming_force(&simulation.nodes, 1, simulation.gravitational_constant));
}
