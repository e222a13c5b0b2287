//! A bouncing ball in a rectangular arena: motion, wall collisions with
//! reflection, and a color change on every bounce.
//!
//! Positions are integers in arena units, velocities are in units per second,
//! and elapsed time is given in milliseconds.

pub mod geometry;
pub mod color;
pub mod ball;
pub mod game;
