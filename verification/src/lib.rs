//! Interactive Mandelbrot viewer core: the viewport state machine, the
//! surface configuration rules, the size-dependent GPU resource model and
//! the per-frame compute/render planning logic.
//!
//! The crate is deliberately free of any GPU or windowing dependency: view
//! coordinates are exact rationals, GPU objects are tracked by identity and
//! dimensions, and a thin unverified shell performs the actual device work
//! that the planner here decides on.

pub mod canvas;
pub mod frac;
pub mod input;
pub mod pipeline;
pub mod surface;
pub mod viewport;
