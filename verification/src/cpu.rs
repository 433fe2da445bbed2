//! The CPU rendering path.
pub mod integrator;
