//! Verified core of a stochastic ray-sampling renderer.
//!
//! The engine's floating-point numerics (vector algebra, intersection tests,
//! shading) live outside the verified boundary; this crate holds the discrete
//! skeleton that the renderer is organised around and proves it correct:
//! how the image is split into row bands for worker threads, how band results
//! are laid out in the flat pixel buffer, the shape of the bounding-volume
//! hierarchy built over a primitive range, and the depth-bounded decision
//! structure of the recursive radiance estimator.

pub mod bands;
pub mod buffer;
pub mod bvh;
pub mod integrator;
