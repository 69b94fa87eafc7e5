//! Verified core of an interactive Mandelbrot-set visualizer.
//!
//! The library holds the parts of the renderer that are pure logic: the
//! parameter record shared between host and device together with its
//! fixed binary layout, exact bit-level halving and doubling of the
//! 64-bit zoom factor, the input-driven navigation state machine, and
//! the escape-time bookkeeping of the fragment kernel.  Window and GPU
//! plumbing live outside the library and drive it through plain values.

pub mod binary64;
pub mod kernel;
pub mod nav;
pub mod params;
pub mod pipeline;
