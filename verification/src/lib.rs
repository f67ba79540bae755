//! Deterministic fixed-point simulation core for a 2D platformer's movement
//! and combat layer.
//!
//! The crate turns per-frame input snapshots into character motion, aiming,
//! weapon fire and projectile flight, all in integer arithmetic so that every
//! frame transition is exact and provable.  Dimensionless factors (axis
//! deflections, damping, cosines) are carried in thousandths (per-mille),
//! velocities in micro-units per second, positions in nano-units and time in
//! milliseconds; see [`units`] for the conventions.

pub mod action;
pub mod character;
pub mod grounded;
pub mod input;
pub mod math;
pub mod movement;
pub mod pipeline;
pub mod units;
pub mod weapons;
pub mod world;
