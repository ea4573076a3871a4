//! A particle-simulation engine: a registry of point masses, the commands
//! that mutate it, and the decisions of the loop that drives it.
//!
//! The engine is generic over its scalar type `S` and its vector type `V`;
//! the arithmetic of the force law and of integration is supplied by the
//! caller as an integrator, so the engine itself only sequences and
//! selects.
pub mod clock;
pub mod event;
pub mod id;
pub mod instances;
pub mod laws;
pub mod models;
pub mod node;
pub mod node_collection;
pub mod scene;
pub mod script;
pub mod simulation;

