//! A small linear-algebra kernel for real-time graphics: vectors of two,
//! three and four components, square matrices of the same sizes, complex
//! numbers and quaternions.
//!
//! Every type is a plain value over a scalar type that the caller chooses,
//! an implementation of [`maths::Scalar`]. The contracts of the kernel say
//! which operations of the scalar type make up each result, and in what
//! order; they hold whatever the scalar type is. The laws of the kernel,
//! such as `m * identity == m`, are proved for the scalar types whose
//! arithmetic is exact, the implementations of [`maths::Exact`], of which
//! `i64` with wrapping arithmetic is one. A scalar type that rounds, such as
//! a wrapper of `f32`, is defined by the caller.

pub mod input;
pub mod maths;
