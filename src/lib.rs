//! A two-paddle ball game simulated on a fixed-size pixel playfield.
//!
//! The ball's direction and speed are held in fixed point: one pixel is
//! `UNIT` micro-units, so every rule of the simulation is integer arithmetic.

pub mod constants;
pub mod fixed;
pub mod frame;
pub mod objects;
pub mod physics;
mod random;
pub mod render;
