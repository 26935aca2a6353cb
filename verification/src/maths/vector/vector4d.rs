//! Vectors of four components.

use vstd::prelude::*;
use vstd::std_specs::cmp::PartialEqSpecImpl;
use vstd::std_specs::convert::FromSpecImpl;
use vstd::std_specs::ops::{AddSpecImpl, DivSpecImpl, MulSpecImpl, SubSpecImpl};
use std::ops::{Add, Div, Mul, Sub};
use crate::maths::exact::{lemma_exact, Exact};
use crate::maths::scalar::Scalar;

verus! {

/// A vector of four components.
#[derive(Debug)]
pub struct Vector4D<T> {
    pub x: T,
    pub y: T,
    pub z: T,
    pub w: T,
}

impl<T: Copy> Copy for Vector4D<T> {
}

impl<T: Copy> Clone for Vector4D<T> {
    fn clone(&self) -> (r: Self)
        ensures
            r == *self,
    {
        *self
    }
}

impl<T: Scalar> Vector4D<T> {
    /// The sum of the squares of the components,
    /// `x * x + y * y + z * z + w * w`, added from the left.
    pub open spec fn norm_squared_spec(self) -> T {
        self.x.times(self.x).plus(self.y.times(self.y)).plus(self.z.times(self.z)).plus(
            self.w.times(self.w),
        )
    }

    /// The Euclidean length: the root of the sum of the squares.
    pub open spec fn norm_spec(self) -> T {
        self.norm_squared_spec().root()
    }

    /// The sum of the components, `x + y + z + w`, added from the left.
    pub open spec fn sum_spec(self) -> T {
        self.x.plus(self.y).plus(self.z).plus(self.w)
    }

    /// The component-wise sum.
    pub open spec fn add_spec(self, rhs: Self) -> Self {
        Vector4D {
            x: self.x.plus(rhs.x),
            y: self.y.plus(rhs.y),
            z: self.z.plus(rhs.z),
            w: self.w.plus(rhs.w),
        }
    }

    /// The component-wise difference.
    pub open spec fn sub_spec(self, rhs: Self) -> Self {
        Vector4D {
            x: self.x.minus(rhs.x),
            y: self.y.minus(rhs.y),
            z: self.z.minus(rhs.z),
            w: self.w.minus(rhs.w),
        }
    }

    /// The inner product, `x * x' + y * y' + z * z' + w * w'`, added from
    /// the left.
    pub open spec fn dot_spec(self, rhs: Self) -> T {
        self.x.times(rhs.x).plus(self.y.times(rhs.y)).plus(self.z.times(rhs.z)).plus(
            self.w.times(rhs.w),
        )
    }

    /// Each component multiplied by `s`, the scalar on the right.
    pub open spec fn scale_spec(self, s: T) -> Self {
        Vector4D {
            x: self.x.times(s),
            y: self.y.times(s),
            z: self.z.times(s),
            w: self.w.times(s),
        }
    }

    /// Each component multiplied by `s`, the scalar on the left.
    pub open spec fn scale_left_spec(s: T, v: Self) -> Self {
        Vector4D { x: s.times(v.x), y: s.times(v.y), z: s.times(v.z), w: s.times(v.w) }
    }

    /// Each component divided by `s`.
    pub open spec fn div_spec(self, s: T) -> Self {
        Vector4D { x: self.x.over(s), y: self.y.over(s), z: self.z.over(s), w: self.w.over(s) }
    }

    /// Whether each pair of components compares equal.
    pub open spec fn eq_spec(self, rhs: Self) -> bool {
        self.x.equals(rhs.x) && self.y.equals(rhs.y) && self.z.equals(rhs.z) && self.w.equals(
            rhs.w,
        )
    }

    /// The Euclidean length.
    pub fn norm(&self) -> (r: T)
        ensures
            r == self.norm_spec(),
    {
        self.x.mul(self.x).add(self.y.mul(self.y)).add(self.z.mul(self.z)).add(
            self.w.mul(self.w),
        ).sqrt()
    }

    /// The sum of the components.
    pub fn sum(&self) -> (r: T)
        ensures
            r == self.sum_spec(),
    {
        self.x.add(self.y).add(self.z).add(self.w)
    }

    /// The first component.
    pub fn x(&self) -> (r: T)
        ensures
            r == self.x,
    {
        self.x
    }

    /// The second component.
    pub fn y(&self) -> (r: T)
        ensures
            r == self.y,
    {
        self.y
    }

    /// The third component.
    pub fn z(&self) -> (r: T)
        ensures
            r == self.z,
    {
        self.z
    }

    /// The fourth component.
    pub fn w(&self) -> (r: T)
        ensures
            r == self.w,
    {
        self.w
    }

    /// The first and second components.
    pub fn xy(&self) -> (r: (T, T))
        ensures
            r == (self.x, self.y),
    {
        (self.x, self.y)
    }

    /// The first and third components.
    pub fn xz(&self) -> (r: (T, T))
        ensures
            r == (self.x, self.z),
    {
        (self.x, self.z)
    }

    /// The first and fourth components.
    pub fn xw(&self) -> (r: (T, T))
        ensures
            r == (self.x, self.w),
    {
        (self.x, self.w)
    }

    /// The second and third components.
    pub fn yz(&self) -> (r: (T, T))
        ensures
            r == (self.y, self.z),
    {
        (self.y, self.z)
    }

    /// The second and fourth components.
    pub fn yw(&self) -> (r: (T, T))
        ensures
            r == (self.y, self.w),
    {
        (self.y, self.w)
    }

    /// The third and fourth components.
    pub fn zw(&self) -> (r: (T, T))
        ensures
            r == (self.z, self.w),
    {
        (self.z, self.w)
    }

    /// The first, second and third components.
    pub fn xyz(&self) -> (r: (T, T, T))
        ensures
            r == (self.x, self.y, self.z),
    {
        (self.x, self.y, self.z)
    }

    /// The first, second and fourth components.
    pub fn xyw(&self) -> (r: (T, T, T))
        ensures
            r == (self.x, self.y, self.w),
    {
        (self.x, self.y, self.w)
    }

    /// The first, third and fourth components.
    pub fn xzw(&self) -> (r: (T, T, T))
        ensures
            r == (self.x, self.z, self.w),
    {
        (self.x, self.z, self.w)
    }

    /// The second, third and fourth components.
    pub fn yzw(&self) -> (r: (T, T, T))
        ensures
            r == (self.y, self.z, self.w),
    {
        (self.y, self.z, self.w)
    }

    /// All four components.
    pub fn xyzw(&self) -> (r: (T, T, T, T))
        ensures
            r == (self.x, self.y, self.z, self.w),
    {
        (self.x, self.y, self.z, self.w)
    }

    /// The product `s * v` with the scalar on the left.
    pub fn scale_left(s: T, v: Self) -> (r: Self)
        ensures
            r == Self::scale_left_spec(s, v),
    {
        Vector4D { x: s.mul(v.x), y: s.mul(v.y), z: s.mul(v.z), w: s.mul(v.w) }
    }
}

impl<T: Scalar> AddSpecImpl for Vector4D<T> {
    open spec fn obeys_add_spec() -> bool {
        true
    }

    open spec fn add_req(self, rhs: Self) -> bool {
        true
    }

    open spec fn add_spec(self, rhs: Self) -> Self {
        Vector4D::add_spec(self, rhs)
    }
}

impl<T: Scalar> Add for Vector4D<T> {
    type Output = Self;

    /// The component-wise sum.
    fn add(self, rhs: Self) -> (r: Self)
        ensures
            r == self.add_spec(rhs),
    {
        Vector4D {
            x: self.x.add(rhs.x),
            y: self.y.add(rhs.y),
            z: self.z.add(rhs.z),
            w: self.w.add(rhs.w),
        }
    }
}

impl<T: Scalar> SubSpecImpl for Vector4D<T> {
    open spec fn obeys_sub_spec() -> bool {
        true
    }

    open spec fn sub_req(self, rhs: Self) -> bool {
        true
    }

    open spec fn sub_spec(self, rhs: Self) -> Self {
        Vector4D::sub_spec(self, rhs)
    }
}

impl<T: Scalar> Sub for Vector4D<T> {
    type Output = Self;

    /// The component-wise difference.
    fn sub(self, rhs: Self) -> (r: Self)
        ensures
            r == self.sub_spec(rhs),
    {
        Vector4D {
            x: self.x.sub(rhs.x),
            y: self.y.sub(rhs.y),
            z: self.z.sub(rhs.z),
            w: self.w.sub(rhs.w),
        }
    }
}

impl<T: Scalar> MulSpecImpl<Vector4D<T>> for Vector4D<T> {
    open spec fn obeys_mul_spec() -> bool {
        true
    }

    open spec fn mul_req(self, rhs: Self) -> bool {
        true
    }

    open spec fn mul_spec(self, rhs: Self) -> T {
        self.dot_spec(rhs)
    }
}

impl<T: Scalar> Mul<Vector4D<T>> for Vector4D<T> {
    type Output = T;

    /// The inner product.
    fn mul(self, rhs: Self) -> (r: T)
        ensures
            r == self.dot_spec(rhs),
    {
        self.x.mul(rhs.x).add(self.y.mul(rhs.y)).add(self.z.mul(rhs.z)).add(self.w.mul(rhs.w))
    }
}

impl<T: Scalar> MulSpecImpl<T> for Vector4D<T> {
    open spec fn obeys_mul_spec() -> bool {
        true
    }

    open spec fn mul_req(self, rhs: T) -> bool {
        true
    }

    open spec fn mul_spec(self, rhs: T) -> Self {
        self.scale_spec(rhs)
    }
}

impl<T: Scalar> Mul<T> for Vector4D<T> {
    type Output = Self;

    /// The product `v * s` with the scalar on the right.
    fn mul(self, rhs: T) -> (r: Self)
        ensures
            r == self.scale_spec(rhs),
    {
        Vector4D::from((self.x.mul(rhs), self.y.mul(rhs), self.z.mul(rhs), self.w.mul(rhs)))
    }
}

impl<T: Scalar> DivSpecImpl<T> for Vector4D<T> {
    open spec fn obeys_div_spec() -> bool {
        true
    }

    open spec fn div_req(self, rhs: T) -> bool {
        true
    }

    open spec fn div_spec(self, rhs: T) -> Self {
        Vector4D::div_spec(self, rhs)
    }
}

impl<T: Scalar> Div<T> for Vector4D<T> {
    type Output = Self;

    /// The quotient `v / s`, component by component.
    fn div(self, rhs: T) -> (r: Self)
        ensures
            r == self.div_spec(rhs),
    {
        Vector4D::from((self.x.div(rhs), self.y.div(rhs), self.z.div(rhs), self.w.div(rhs)))
    }
}

impl<T: Scalar> PartialEqSpecImpl for Vector4D<T> {
    open spec fn obeys_eq_spec() -> bool {
        true
    }

    open spec fn eq_spec(&self, rhs: &Self) -> bool {
        Vector4D::eq_spec(*self, *rhs)
    }
}

impl<T: Scalar> PartialEq for Vector4D<T> {
    /// Whether each pair of components compares equal.
    fn eq(&self, rhs: &Self) -> (r: bool)
        ensures
            r == Vector4D::eq_spec(*self, *rhs),
    {
        self.x.eq(rhs.x) && self.y.eq(rhs.y) && self.z.eq(rhs.z) && self.w.eq(rhs.w)
    }
}

impl<T: Scalar> FromSpecImpl<(T, T, T, T)> for Vector4D<T> {
    open spec fn obeys_from_spec() -> bool {
        true
    }

    open spec fn from_spec(point: (T, T, T, T)) -> Self {
        Vector4D { x: point.0, y: point.1, z: point.2, w: point.3 }
    }
}

impl<T: Scalar> From<(T, T, T, T)> for Vector4D<T> {
    /// The vector with the components of `point`.
    fn from(point: (T, T, T, T)) -> (r: Self)
        ensures
            r == (Vector4D { x: point.0, y: point.1, z: point.2, w: point.3 }),
    {
        Vector4D { x: point.0, y: point.1, z: point.2, w: point.3 }
    }
}

/// Each component of a vector stands for its value.
pub proof fn lemma_components<T: Exact>(u: Vector4D<T>)
    ensures
        u.x == T::from_int(u.x.value()),
        u.y == T::from_int(u.y.value()),
        u.z == T::from_int(u.z.value()),
        u.w == T::from_int(u.w.value()),
{
    lemma_exact::<T>();
}

/// Addition of vectors commutes: `u + v == v + u`.
pub proof fn lemma_add_commutes<T: Exact>(u: Vector4D<T>, v: Vector4D<T>)
    ensures
        u.add_spec(v) == v.add_spec(u),
{
    lemma_exact::<T>();
    lemma_components(u);
    lemma_components(v);
}

/// A scalar multiplies a vector alike from the left and from the right:
/// `s * u == u * s`.
pub proof fn lemma_scale_commutes<T: Exact>(s: T, u: Vector4D<T>)
    ensures
        Vector4D::scale_left_spec(s, u) == u.scale_spec(s),
{
    lemma_exact::<T>();
    assert(s.value() * u.x.value() == u.x.value() * s.value()) by (nonlinear_arith);
    assert(s.value() * u.y.value() == u.y.value() * s.value()) by (nonlinear_arith);
    assert(s.value() * u.z.value() == u.z.value() * s.value()) by (nonlinear_arith);
    assert(s.value() * u.w.value() == u.w.value() * s.value()) by (nonlinear_arith);
}

/// Subtraction undoes addition: `(u + v) - v == u`.
pub proof fn lemma_add_sub_cancels<T: Exact>(u: Vector4D<T>, v: Vector4D<T>)
    ensures
        u.add_spec(v).sub_spec(v) == u,
{
    lemma_exact::<T>();
    lemma_components(u);
    lemma_components(v);
}

/// In exact arithmetic two vectors compare equal exactly when they are the
/// same.
pub proof fn lemma_eq<T: Exact>(a: Vector4D<T>, b: Vector4D<T>)
    ensures
        a.eq_spec(b) <==> a == b,
{
    T::lemma_equals(a.x, b.x);
    T::lemma_equals(a.y, b.y);
    T::lemma_equals(a.z, b.z);
    T::lemma_equals(a.w, b.w);
}

} // verus!
