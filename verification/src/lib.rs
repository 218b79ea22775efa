//! Animated-primitive generator: bouncing points, a drifting color blend and a
//! fixed-capacity ring buffer of drawable primitives, verified end to end.
//!
//! The library owns the state machine only; a thin shell around it supplies a
//! timer, a drawing surface and a window.

pub mod color;
pub mod fixed;
pub mod generator;
pub mod history;
pub mod mode;
pub mod point;
mod rng;
