//! A first-person character controller: pointer deltas become a clamped
//! yaw/pitch camera orientation, movement keys become horizontal velocity,
//! gravity, jumping and friction are integrated each tick, and ground
//! contact is resolved either against a flat ground height or against an
//! external collision-aware mover.
//!
//! All quantities are fixed-point integers: positions and velocities in
//! micro-units, angles in micro-radians, elapsed time in micro-seconds.

pub mod fx;
pub mod input;
pub mod motion;
pub mod orientation;
pub mod sim;
pub mod vec3;
