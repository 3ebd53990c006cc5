//! A verified micro-core for a 2D particle sandbox.
//!
//! The simulation advances a single particle inside a rectangular bounding
//! box: an integrator moves the particle along its velocity, a gravity
//! accumulator pulls the velocity downward, and a wall reflector bounces the
//! particle off the lower boundary.  A separate geometry component keeps the
//! four drawn walls in sync with the runtime configuration.
//!
//! All quantities are fixed-point integers in milli-units (one thousandth of
//! a world unit); time steps are given in milliseconds.  A host program owns
//! windowing and rendering and feeds this core time steps and configuration
//! values.

pub mod config;
pub mod math;
pub mod particle;
pub mod walls;
