//! Vector, matrix and plane types of the renderer.

pub mod angle;
pub mod matrix4x4;
pub mod plane;
pub mod vec_3d;
pub mod vec_4d;
