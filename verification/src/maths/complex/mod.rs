//! Complex numbers and quaternions.

pub mod complex;
pub mod quaternion;
