//! Geometric core of a small software 3D renderer.
//!
//! Scalars are fixed-point numbers: an `i64` counts units of `1/SCALE`.
//! All arithmetic saturates at the `i64` range, so every operation is total
//! and its result is stated exactly in the contracts.

pub mod fixed;
pub mod color;
pub mod math;
pub mod camera;
pub mod object;
pub mod scene;
pub mod triangle;

pub use fixed::SCALE;
