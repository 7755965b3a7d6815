//! The integer core of a Monte Carlo path tracer: image geometry and its
//! configuration checks, the bounce state machine that drives each light path,
//! the reassembly of pixel results computed out of order, and the plain-text
//! pixel format that a finished image is written in.

pub mod image;
pub mod render;
pub mod trace;
pub mod camera;
