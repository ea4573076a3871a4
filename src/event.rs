use vstd::prelude::*;

use crate::id::Id;
use crate::node::{given_or, Node};

verus! {

/// A command to the simulation. One is applied per loop iteration, before
/// integration.
pub enum Event<S, V> {
    AddNode(AddNodeEvent<S, V>),
    RemoveNode(RemoveNodeEvent),
    SetNode(SetNodeEvent<S, V>),
    Get(GetEvent),
    SetTargetTps(SetTargetTpsEvent),
    Step(StepEvent),
}

/// Inserts a node, unless its id is taken.
pub struct AddNodeEvent<S, V> {
    pub node: Node<S, V>,
}

/// Removes the node with the given id; a no-op if there is none.
pub struct RemoveNodeEvent {
    pub node_id: Id,
}

/// Overwrites the fields that are given, on the node with the given id.
#[derive(Clone, Copy, Debug, PartialEq)]
pub struct SetNodeEvent<S, V> {
    pub id: Id,
    pub position: Option<V>,
    pub velocity: Option<V>,
    pub mass: Option<S>,
    pub gravitational_constant_override: Option<S>,
    pub dampen_rate: Option<S>,
    pub freeze: Option<bool>,
}

/// A read-only query.
pub enum GetEvent {
    Node(NodeArgs),
    Tps,
}

/// Which fields of a node a query shows; with no flag set, it shows all.
#[derive(Clone, Copy, Debug, PartialEq, Eq, Structural)]
pub struct NodeArgs {
    pub id: u32,
    pub position: bool,
    pub velocity: bool,
    pub mass: bool,
    pub gravitational_constant_override: bool,
    pub dampen_rate: bool,
    pub freeze: bool,
}

/// Sets the target tick rate; `None` asks for the current one.
pub struct SetTargetTpsEvent {
    pub target_tps: Option<u32>,
}

/// Runs this many ticks at once, whether or not the loop is paused.
pub struct StepEvent {
    pub steps: u32,
}

/// A field of a node, as a query names it.
#[derive(Clone, Copy, Debug, PartialEq, Eq, Structural)]
pub enum NodeField {
    Position,
    Velocity,
    Mass,
    GravitationalConstantOverride,
    DampenRate,
    Freeze,
}

impl<S: Copy, V: Copy> AddNodeEvent<S, V> {
    pub fn new(node: Node<S, V>) -> (r: Event<S, V>)
        ensures
            r == Event::AddNode(AddNodeEvent { node }),
    {
        Event::AddNode(AddNodeEvent { node })
    }
}

impl RemoveNodeEvent {
    pub fn new<S, V>(id: Id) -> (r: Event<S, V>)
        ensures
            r == Event::<S, V>::RemoveNode(RemoveNodeEvent { node_id: id }),
    {
        Event::RemoveNode(RemoveNodeEvent { node_id: id })
    }
}

impl SetTargetTpsEvent {
    pub fn new<S, V>(target_tps: Option<u32>) -> (r: Event<S, V>)
        ensures
            r == Event::<S, V>::SetTargetTps(SetTargetTpsEvent { target_tps }),
    {
        Event::SetTargetTps(SetTargetTpsEvent { target_tps })
    }
}

impl<S, V> SetNodeEvent<S, V> {
    /// `node` with the fields that this event gives overwritten. An override
    /// that is not given is kept: the event cannot clear one.
    pub open spec fn patched(self, node: Node<S, V>) -> Node<S, V> {
        Node {
            id: node.id,
            position: given_or(self.position, node.position),
            velocity: given_or(self.velocity, node.velocity),
            mass: given_or(self.mass, node.mass),
            gravitational_constant_override: match self.gravitational_constant_override {
                Some(g) => Some(g),
                None => node.gravitational_constant_override,
            },
            dampen_rate: given_or(self.dampen_rate, node.dampen_rate),
            freeze: given_or(self.freeze, node.freeze),
        }
    }
}

fn pick<T: Copy>(value: Option<T>, current: T) -> (r: T)
    ensures
        r == given_or(value, current),
{
    match value {
        Some(v) => v,
        None => current,
    }
}

impl<S: Copy, V: Copy> SetNodeEvent<S, V> {
    /// Applies this event's fields to `node`.
    pub fn apply(&self, node: &Node<S, V>) -> (r: Node<S, V>)
        ensures
            r == self.patched(*node),
    {
        let gravitational_constant_override = match self.gravitational_constant_override {
            Some(g) => Some(g),
            None => node.gravitational_constant_override,
        };
        Node {
            id: node.id,
            position: pick(self.position, node.position),
            velocity: pick(self.velocity, node.velocity),
            mass: pick(self.mass, node.mass),
            gravitational_constant_override,
            dampen_rate: pick(self.dampen_rate, node.dampen_rate),
            freeze: pick(self.freeze, node.freeze),
        }
    }
}

/// `seq![field]` when `shown`, else nothing.
pub open spec fn shown_if(shown: bool, field: NodeField) -> Seq<NodeField> {
    if shown {
        seq![field]
    } else {
        Seq::empty()
    }
}

impl NodeArgs {
    pub open spec fn no_flags(self) -> bool {
        !(self.position || self.velocity || self.mass || self.gravitational_constant_override
            || self.dampen_rate || self.freeze)
    }

    /// The fields a query shows, in display order.
    pub open spec fn shown_fields(self) -> Seq<NodeField> {
        let all = self.no_flags();
        shown_if(self.position || all, NodeField::Position) + shown_if(
            self.velocity || all,
            NodeField::Velocity,
        ) + shown_if(self.mass || all, NodeField::Mass) + shown_if(
            self.gravitational_constant_override || all,
            NodeField::GravitationalConstantOverride,
        ) + shown_if(self.dampen_rate || all, NodeField::DampenRate) + shown_if(
            self.freeze || all,
            NodeField::Freeze,
        )
    }

    /// The fields this query shows, in display order: those whose flag is
    /// set, or all of them when no flag is set.
    pub fn selected_fields(&self) -> (r: Vec<NodeField>)
        ensures
            r@ == self.shown_fields(),
    {
        let all = !(self.position || self.velocity || self.mass
            || self.gravitational_constant_override || self.dampen_rate || self.freeze);
        let mut fields: Vec<NodeField> = Vec::new();
        if self.position || all {
            fields.push(NodeField::Position);
        }
        assert(fields@ =~= shown_if(self.position || all, NodeField::Position));
        let ghost f1 = fields@;
        if self.velocity || all {
            fields.push(NodeField::Velocity);
        }
        assert(fields@ =~= f1 + shown_if(self.velocity || all, NodeField::Velocity));
        let ghost f2 = fields@;
        if self.mass || all {
            fields.push(NodeField::Mass);
        }
        assert(fields@ =~= f2 + shown_if(self.mass || all, NodeField::Mass));
        let ghost f3 = fields@;
        if self.gravitational_constant_override || all {
            fields.push(NodeField::GravitationalConstantOverride);
        }
        assert(fields@ =~= f3 + shown_if(
            self.gravitational_constant_override || all,
            NodeField::GravitationalConstantOverride,
        ));
        let ghost f4 = fields@;
        if self.dampen_rate || all {
            fields.push(NodeField::DampenRate);
        }
        assert(fields@ =~= f4 + shown_if(self.dampen_rate || all, NodeField::DampenRate));
        let ghost f5 = fields@;
        if self.freeze || all {
            fields.push(NodeField::Freeze);
        }
        assert(fields@ =~= f5 + shown_if(self.freeze || all, NodeField::Freeze));
        fields
    }
}

} // verus!
