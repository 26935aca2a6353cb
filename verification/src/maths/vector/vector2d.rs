//! Vectors of two components.

use vstd::prelude::*;
use vstd::std_specs::cmp::PartialEqSpecImpl;
use vstd::std_specs::convert::FromSpecImpl;
use vstd::std_specs::ops::{AddSpecImpl, DivSpecImpl, MulSpecImpl, SubSpecImpl};
use std::ops::{Add, Div, Mul, Sub};
use crate::maths::exact::{lemma_exact, Exact};
use crate::maths::scalar::Scalar;

verus! {

/// A vector of two components.
#[derive(Debug)]
pub struct Vector2D<T> {
    pub x: T,
    pub y: T,
}

impl<T: Copy> Copy for Vector2D<T> {
}

impl<T: Copy> Clone for Vector2D<T> {
    fn clone(&self) -> (r: Self)
        ensures
            r == *self,
    {
        *self
    }
}

impl<T: Scalar> Vector2D<T> {
    /// The sum of the squares of the components, `x * x + y * y`.
    pub open spec fn norm_squared_spec(self) -> T {
        self.x.times(self.x).plus(self.y.times(self.y))
    }

    /// The Euclidean length: the root of the sum of the squares.
    pub open spec fn norm_spec(self) -> T {
        self.norm_squared_spec().root()
    }

    /// The sum of the components, `x + y`.
    pub open spec fn sum_spec(self) -> T {
        self.x.plus(self.y)
    }

    /// The inner product, `x * x' + y * y'`.
    pub open spec fn dot_spec(self, rhs: Self) -> T {
        self.x.times(rhs.x).plus(self.y.times(rhs.y))
    }

    /// Each component multiplied by `s`, the scalar on the right.
    pub open spec fn scale_spec(self, s: T) -> Self {
        Vector2D { x: self.x.times(s), y: self.y.times(s) }
    }

    /// Each component multiplied by `s`, the scalar on the left.
    pub open spec fn scale_left_spec(s: T, v: Self) -> Self {
        Vector2D { x: s.times(v.x), y: s.times(v.y) }
    }

    /// The component-wise sum.
    pub open spec fn add_spec(self, rhs: Self) -> Self {
        Vector2D { x: self.x.plus(rhs.x), y: self.y.plus(rhs.y) }
    }

    /// The component-wise difference.
    pub open spec fn sub_spec(self, rhs: Self) -> Self {
        Vector2D { x: self.x.minus(rhs.x), y: self.y.minus(rhs.y) }
    }

    /// Whether each pair of components compares equal.
    pub open spec fn eq_spec(self, rhs: Self) -> bool {
        self.x.equals(rhs.x) && self.y.equals(rhs.y)
    }

    /// Each component divided by `s`.
    pub open spec fn div_spec(self, s: T) -> Self {
        Vector2D { x: self.x.over(s), y: self.y.over(s) }
    }

    /// The Euclidean length.
    pub fn norm(&self) -> (r: T)
        ensures
            r == self.norm_spec(),
    {
        self.x.mul(self.x).add(self.y.mul(self.y)).sqrt()
    }

    /// The sum of the components.
    pub fn sum(&self) -> (r: T)
        ensures
            r == self.sum_spec(),
    {
        self.x.add(self.y)
    }

    /// The first component.
    pub fn x(&self) -> (r: T)
        ensures
            r == self.x,
    {
        self.x
    }

    /// The second component.
    pub fn y(&self) -> (r: T)
        ensures
            r == self.y,
    {
        self.y
    }

    /// Both components.
    pub fn xy(&self) -> (r: (T, T))
        ensures
            r == (self.x, self.y),
    {
        (self.x, self.y)
    }

    /// The product `s * v` with the scalar on the left.
    pub fn scale_left(s: T, v: Self) -> (r: Self)
        ensures
            r == Self::scale_left_spec(s, v),
    {
        Vector2D { x: s.mul(v.x), y: s.mul(v.y) }
    }
}

impl<T: Scalar> AddSpecImpl for Vector2D<T> {
    open spec fn obeys_add_spec() -> bool {
        true
    }

    open spec fn add_req(self, rhs: Self) -> bool {
        true
    }

    open spec fn add_spec(self, rhs: Self) -> Self {
        Vector2D::add_spec(self, rhs)
    }
}

impl<T: Scalar> Add for Vector2D<T> {
    type Output = Self;

    /// The component-wise sum.
    fn add(self, rhs: Self) -> (r: Self)
        ensures
            r == self.add_spec(rhs),
    {
        Vector2D { x: self.x.add(rhs.x), y: self.y.add(rhs.y) }
    }
}

impl<T: Scalar> SubSpecImpl for Vector2D<T> {
    open spec fn obeys_sub_spec() -> bool {
        true
    }

    open spec fn sub_req(self, rhs: Self) -> bool {
        true
    }

    open spec fn sub_spec(self, rhs: Self) -> Self {
        Vector2D::sub_spec(self, rhs)
    }
}

impl<T: Scalar> Sub for Vector2D<T> {
    type Output = Self;

    /// The component-wise difference.
    fn sub(self, rhs: Self) -> (r: Self)
        ensures
            r == self.sub_spec(rhs),
    {
        Vector2D { x: self.x.sub(rhs.x), y: self.y.sub(rhs.y) }
    }
}

impl<T: Scalar> MulSpecImpl<Vector2D<T>> for Vector2D<T> {
    open spec fn obeys_mul_spec() -> bool {
        true
    }

    open spec fn mul_req(self, rhs: Self) -> bool {
        true
    }

    open spec fn mul_spec(self, rhs: Self) -> T {
        self.dot_spec(rhs)
    }
}

impl<T: Scalar> Mul<Vector2D<T>> for Vector2D<T> {
    type Output = T;

    /// The inner product.
    fn mul(self, rhs: Self) -> (r: T)
        ensures
            r == self.dot_spec(rhs),
    {
        self.x.mul(rhs.x).add(self.y.mul(rhs.y))
    }
}

impl<T: Scalar> MulSpecImpl<T> for Vector2D<T> {
    open spec fn obeys_mul_spec() -> bool {
        true
    }

    open spec fn mul_req(self, rhs: T) -> bool {
        true
    }

    open spec fn mul_spec(self, rhs: T) -> Self {
        self.scale_spec(rhs)
    }
}

impl<T: Scalar> Mul<T> for Vector2D<T> {
    type Output = Self;

    /// The product `v * s` with the scalar on the right.
    fn mul(self, rhs: T) -> (r: Self)
        ensures
            r == self.scale_spec(rhs),
    {
        Vector2D { x: self.x.mul(rhs), y: self.y.mul(rhs) }
    }
}

impl<T: Scalar> DivSpecImpl<T> for Vector2D<T> {
    open spec fn obeys_div_spec() -> bool {
        true
    }

    open spec fn div_req(self, rhs: T) -> bool {
        true
    }

    open spec fn div_spec(self, rhs: T) -> Self {
        Vector2D::div_spec(self, rhs)
    }
}

impl<T: Scalar> Div<T> for Vector2D<T> {
    type Output = Self;

    /// The quotient `v / s`, component by component.
    fn div(self, rhs: T) -> (r: Self)
        ensures
            r == self.div_spec(rhs),
    {
        Vector2D { x: self.x.div(rhs), y: self.y.div(rhs) }
    }
}

impl<T: Scalar> PartialEqSpecImpl for Vector2D<T> {
    open spec fn obeys_eq_spec() -> bool {
        true
    }

    open spec fn eq_spec(&self, rhs: &Self) -> bool {
        Vector2D::eq_spec(*self, *rhs)
    }
}

impl<T: Scalar> PartialEq for Vector2D<T> {
    /// Whether each pair of components compares equal.
    fn eq(&self, rhs: &Self) -> (r: bool)
        ensures
            r == Vector2D::eq_spec(*self, *rhs),
    {
        self.x.eq(rhs.x) && self.y.eq(rhs.y)
    }
}

impl<T: Scalar> FromSpecImpl<(T, T)> for Vector2D<T> {
    open spec fn obeys_from_spec() -> bool {
        true
    }

    open spec fn from_spec(point: (T, T)) -> Self {
        Vector2D { x: point.0, y: point.1 }
    }
}

impl<T: Scalar> From<(T, T)> for Vector2D<T> {
    /// The vector with the components of `point`.
    fn from(point: (T, T)) -> (r: Self)
        ensures
            r == (Vector2D { x: point.0, y: point.1 }),
    {
        Vector2D { x: point.0, y: point.1 }
    }
}

/// Each component of a vector stands for its value.
pub proof fn lemma_components<T: Exact>(u: Vector2D<T>)
    ensures
        u.x == T::from_int(u.x.value()),
        u.y == T::from_int(u.y.value()),
{
    lemma_exact::<T>();
}

/// Addition of vectors commutes: `u + v == v + u`.
pub proof fn lemma_add_commutes<T: Exact>(u: Vector2D<T>, v: Vector2D<T>)
    ensures
        u.add_spec(v) == v.add_spec(u),
{
    lemma_exact::<T>();
    lemma_components(u);
    lemma_components(v);
}

/// A scalar multiplies a vector alike from the left and from the right:
/// `s * u == u * s`.
pub proof fn lemma_scale_commutes<T: Exact>(s: T, u: Vector2D<T>)
    ensures
        Vector2D::scale_left_spec(s, u) == u.scale_spec(s),
{
    lemma_exact::<T>();
    assert(s.value() * u.x.value() == u.x.value() * s.value()) by (nonlinear_arith);
    assert(s.value() * u.y.value() == u.y.value() * s.value()) by (nonlinear_arith);
}

/// Subtraction undoes addition: `(u + v) - v == u`.
pub proof fn lemma_add_sub_cancels<T: Exact>(u: Vector2D<T>, v: Vector2D<T>)
    ensures
        u.add_spec(v).sub_spec(v) == u,
{
    lemma_exact::<T>();
    lemma_components(u);
    lemma_components(v);
}

/// In exact arithmetic two vectors compare equal exactly when they are the
/// same.
pub proof fn lemma_eq<T: Exact>(a: Vector2D<T>, b: Vector2D<T>)
    ensures
        a.eq_spec(b) <==> a == b,
{
    T::lemma_equals(a.x, b.x);
    T::lemma_equals(a.y, b.y);
}

} // verus!
