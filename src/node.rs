use vstd::prelude::*;

use crate::id::Id;

verus! {

/// A point mass.
///
/// `S` is the scalar type (mass, constants, rates) and `V` the vector type
/// (position, velocity). The engine never computes with either: it copies
/// them, chooses between them and hands them to the caller's integrator.
#[derive(Clone, Copy, Debug, PartialEq)]
pub struct Node<S, V> {
    pub id: Id,
    pub position: V,
    pub velocity: V,
    pub mass: S,
    /// When present, replaces the simulation-wide constant as seen by the
    /// nodes that this one attracts.
    pub gravitational_constant_override: Option<S>,
    /// Fraction of velocity removed each tick: 0 keeps it all, 1 stops the
    /// node at once.
    pub dampen_rate: S,
    /// A frozen node keeps its position while its velocity still changes;
    /// it still exerts and receives force.
    pub freeze: bool,
}

/// What the integrator computes for one node in one tick: the velocity the
/// node leaves the tick with, and the position it reaches if it is free to
/// move.
#[derive(Clone, Copy, Debug, PartialEq)]
pub struct Motion<V> {
    pub position: V,
    pub velocity: V,
}

/// `value` if given, else `current`.
pub open spec fn given_or<T>(value: Option<T>, current: T) -> T {
    match value {
        Some(v) => v,
        None => current,
    }
}

impl<S, V> Node<S, V> {
    /// The node after a tick in which the integrator computed `motion`:
    /// it takes the new velocity, moves unless frozen, and keeps every
    /// other field.
    pub open spec fn advanced(self, motion: Motion<V>) -> Node<S, V> {
        Node {
            position: if self.freeze {
                self.position
            } else {
                motion.position
            },
            velocity: motion.velocity,
            ..self
        }
    }
}

impl<S: Copy, V: Copy> Node<S, V> {
    /// A node with no constant override, not frozen.
    pub fn new(id: Id, position: V, velocity: V, mass: S, dampen_rate: S) -> (r: Node<S, V>)
        ensures
            r.id == id,
            r.position == position,
            r.velocity == velocity,
            r.mass == mass,
            r.gravitational_constant_override is None,
            r.dampen_rate == dampen_rate,
            !r.freeze,
    {
        Node {
            id,
            position,
            velocity,
            mass,
            gravitational_constant_override: None,
            dampen_rate,
            freeze: false,
        }
    }

    /// The gravitational constant of this node's pull on others: its
    /// override if it has one, else the simulation's `default`.
    pub fn gravitational_constant_or(&self, default: S) -> (r: S)
        ensures
            r == given_or(self.gravitational_constant_override, default),
    {
        match self.gravitational_constant_override {
            Some(g) => g,
            None => default,
        }
    }

    /// Applies one tick's motion to this node (see `advanced`).
    pub fn advance(&self, motion: Motion<V>) -> (r: Node<S, V>)
        ensures
            r == self.advanced(motion),
    {
        let position = if self.freeze {
            self.position
        } else {
            motion.position
        };
        Node {
            id: self.id,
            position,
            velocity: motion.velocity,
            mass: self.mass,
            gravitational_constant_override: self.gravitational_constant_override,
            dampen_rate: self.dampen_rate,
            freeze: self.freeze,
        }
    }
}

} // verus!
