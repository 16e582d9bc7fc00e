//! Core logic of a single-paddle arcade ball game.
//!
//! The playfield geometry, the entities' initial physical properties, the
//! per-tick paddle motion, the collision-driven velocity response and the
//! timed progressive speed-up are all implemented and verified here, over
//! integer state: lengths are held in milli-units (thousandths of a world
//! unit), time in milliseconds, and velocities in milli-units per second.
//! The host process supplies the surface size, the input flags, the tick
//! deltas and the collision-start events, and carries the resulting state
//! to its physics and rendering collaborators.

pub mod collision;
pub mod entities;
pub mod geometry;
pub mod paddle;
pub mod sim;
pub mod timer;
pub mod velocity;
