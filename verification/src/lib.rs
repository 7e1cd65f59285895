//! Scene sequencing for a small animated planetary system.
//!
//! Everything here is exact integer arithmetic: simulated time is counted in
//! nanoseconds, angles in picoradians, lengths in thousandths of a world unit.
//! The floating-point evaluation of poses and matrices is left to the caller.

pub mod geometry;
pub mod input;
pub mod planets;
pub mod renderer;
pub mod ship;
pub mod skybox;
pub mod state;
pub mod warp;
