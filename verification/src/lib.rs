//! The decision logic of the event visualizer of a hex-grid strategy game:
//! which map texts an event produces, how a unit's scene node is laid out,
//! which scene changes an event asks for, and the shell state of an attack.
//! Positions in world space, timing and everything else that needs floating
//! point is resolved by the caller from the plain values this crate returns.

pub mod ids;
pub mod text;
pub mod nodes;
pub mod passenger;
pub mod effects;
pub mod attack;
pub mod events;
pub mod actions;
