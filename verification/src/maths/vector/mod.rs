//! Vectors of two, three and four components.

pub mod vector2d;
pub mod vector3d;
pub mod vector4d;
