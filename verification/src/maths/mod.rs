//! The numeric kernel.

pub mod complex;
pub mod exact;
pub mod integer;
pub mod matrix;
pub mod scalar;
pub mod vector;

pub use complex::complex::Complex;
pub use complex::quaternion::Quaternion;
pub use exact::Exact;
pub use matrix::matrix2x2::Matrix2x2;
pub use matrix::matrix3x3::Matrix3x3;
pub use matrix::matrix4x4::Matrix4x4;
pub use matrix::InverseMatrixError;
pub use scalar::Scalar;
pub use vector::vector2d::Vector2D;
pub use vector::vector3d::Vector3D;
pub use vector::vector4d::Vector4D;
