//! Vectors of three components.

use vstd::prelude::*;
use vstd::std_specs::cmp::PartialEqSpecImpl;
use vstd::std_specs::convert::FromSpecImpl;
use vstd::std_specs::ops::{AddSpecImpl, DivSpecImpl, MulSpecImpl, RemSpecImpl, SubSpecImpl};
use std::ops::{Add, Div, Mul, Rem, Sub};
use crate::maths::exact::{lemma_exact, Exact};
use crate::maths::scalar::Scalar;

verus! {

/// A vector of three components.
#[derive(Debug)]
pub struct Vector3D<T> {
    pub x: T,
    pub y: T,
    pub z: T,
}

impl<T: Copy> Copy for Vector3D<T> {
}

impl<T: Copy> Clone for Vector3D<T> {
    fn clone(&self) -> (r: Self)
        ensures
            r == *self,
    {
        *self
    }
}

impl<T: Scalar> Vector3D<T> {
    /// The sum of the squares of the components, `x * x + y * y + z * z`,
    /// added from the left.
    pub open spec fn norm_squared_spec(self) -> T {
        self.x.times(self.x).plus(self.y.times(self.y)).plus(self.z.times(self.z))
    }

    /// The Euclidean length: the root of the sum of the squares.
    pub open spec fn norm_spec(self) -> T {
        self.norm_squared_spec().root()
    }

    /// The cross product
    /// `(y * z' - z * y', z * x' - x * z', x * y' - y * x')`.
    pub open spec fn cross_spec(self, rhs: Self) -> Self {
        Vector3D {
            x: self.y.times(rhs.z).minus(self.z.times(rhs.y)),
            y: self.z.times(rhs.x).minus(self.x.times(rhs.z)),
            z: self.x.times(rhs.y).minus(self.y.times(rhs.x)),
        }
    }

    /// The sum of the components, `x + y + z`, added from the left.
    pub open spec fn sum_spec(self) -> T {
        self.x.plus(self.y).plus(self.z)
    }

    /// The component-wise sum.
    pub open spec fn add_spec(self, rhs: Self) -> Self {
        Vector3D { x: self.x.plus(rhs.x), y: self.y.plus(rhs.y), z: self.z.plus(rhs.z) }
    }

    /// The component-wise difference.
    pub open spec fn sub_spec(self, rhs: Self) -> Self {
        Vector3D { x: self.x.minus(rhs.x), y: self.y.minus(rhs.y), z: self.z.minus(rhs.z) }
    }

    /// Each component with the opposite sign.
    pub open spec fn neg_spec(self) -> Self {
        Vector3D { x: self.x.negated(), y: self.y.negated(), z: self.z.negated() }
    }

    /// The inner product, `x * x' + y * y' + z * z'`, added from the left.
    pub open spec fn dot_spec(self, rhs: Self) -> T {
        self.x.times(rhs.x).plus(self.y.times(rhs.y)).plus(self.z.times(rhs.z))
    }

    /// Each component multiplied by `s`, the scalar on the right.
    pub open spec fn scale_spec(self, s: T) -> Self {
        Vector3D { x: self.x.times(s), y: self.y.times(s), z: self.z.times(s) }
    }

    /// Each component multiplied by `s`, the scalar on the left.
    pub open spec fn scale_left_spec(s: T, v: Self) -> Self {
        Vector3D { x: s.times(v.x), y: s.times(v.y), z: s.times(v.z) }
    }

    /// Each component divided by `s`.
    pub open spec fn div_spec(self, s: T) -> Self {
        Vector3D { x: self.x.over(s), y: self.y.over(s), z: self.z.over(s) }
    }

    /// Whether each pair of components compares equal.
    pub open spec fn eq_spec(self, rhs: Self) -> bool {
        self.x.equals(rhs.x) && self.y.equals(rhs.y) && self.z.equals(rhs.z)
    }

    /// The Euclidean length.
    pub fn norm(&self) -> (r: T)
        ensures
            r == self.norm_spec(),
    {
        self.x.mul(self.x).add(self.y.mul(self.y)).add(self.z.mul(self.z)).sqrt()
    }

    /// The cross product.
    pub fn cross(&self, rhs: Vector3D<T>) -> (r: Vector3D<T>)
        ensures
            r == self.cross_spec(rhs),
    {
        Vector3D::from(
            (
                self.y().mul(rhs.z()).sub(self.z().mul(rhs.y())),
                self.z().mul(rhs.x()).sub(self.x().mul(rhs.z())),
                self.x().mul(rhs.y()).sub(self.y().mul(rhs.x())),
            ),
        )
    }

    /// The sum of the components.
    pub fn sum(&self) -> (r: T)
        ensures
            r == self.sum_spec(),
    {
        self.x.add(self.y).add(self.z)
    }

    /// The first component.
    pub fn x(&self) -> (r: T)
        ensures
            r == self.x,
    {
        self.x
    }

    /// The second component.
    pub fn y(&self) -> (r: T)
        ensures
            r == self.y,
    {
        self.y
    }

    /// The third component.
    pub fn z(&self) -> (r: T)
        ensures
            r == self.z,
    {
        self.z
    }

    /// The first and second components.
    pub fn xy(&self) -> (r: (T, T))
        ensures
            r == (self.x, self.y),
    {
        (self.x, self.y)
    }

    /// The first and third components.
    pub fn xz(&self) -> (r: (T, T))
        ensures
            r == (self.x, self.z),
    {
        (self.x, self.z)
    }

    /// The second and third components.
    pub fn yz(&self) -> (r: (T, T))
        ensures
            r == (self.y, self.z),
    {
        (self.y, self.z)
    }

    /// All three components.
    pub fn xyz(&self) -> (r: (T, T, T))
        ensures
            r == (self.x, self.y, self.z),
    {
        (self.x, self.y, self.z)
    }

    /// The product `s * v` with the scalar on the left.
    pub fn scale_left(s: T, v: Self) -> (r: Self)
        ensures
            r == Self::scale_left_spec(s, v),
    {
        Vector3D { x: s.mul(v.x), y: s.mul(v.y), z: s.mul(v.z) }
    }
}

impl<T: Scalar> AddSpecImpl for Vector3D<T> {
    open spec fn obeys_add_spec() -> bool {
        true
    }

    open spec fn add_req(self, rhs: Self) -> bool {
        true
    }

    open spec fn add_spec(self, rhs: Self) -> Self {
        Vector3D::add_spec(self, rhs)
    }
}

impl<T: Scalar> Add for Vector3D<T> {
    type Output = Self;

    /// The component-wise sum.
    fn add(self, rhs: Self) -> (r: Self)
        ensures
            r == self.add_spec(rhs),
    {
        Vector3D { x: self.x.add(rhs.x), y: self.y.add(rhs.y), z: self.z.add(rhs.z) }
    }
}

impl<T: Scalar> SubSpecImpl for Vector3D<T> {
    open spec fn obeys_sub_spec() -> bool {
        true
    }

    open spec fn sub_req(self, rhs: Self) -> bool {
        true
    }

    open spec fn sub_spec(self, rhs: Self) -> Self {
        Vector3D::sub_spec(self, rhs)
    }
}

impl<T: Scalar> Sub for Vector3D<T> {
    type Output = Self;

    /// The component-wise difference.
    fn sub(self, rhs: Self) -> (r: Self)
        ensures
            r == self.sub_spec(rhs),
    {
        Vector3D { x: self.x.sub(rhs.x), y: self.y.sub(rhs.y), z: self.z.sub(rhs.z) }
    }
}

impl<T: Scalar> MulSpecImpl<Vector3D<T>> for Vector3D<T> {
    open spec fn obeys_mul_spec() -> bool {
        true
    }

    open spec fn mul_req(self, rhs: Self) -> bool {
        true
    }

    open spec fn mul_spec(self, rhs: Self) -> T {
        self.dot_spec(rhs)
    }
}

impl<T: Scalar> Mul<Vector3D<T>> for Vector3D<T> {
    type Output = T;

    /// The inner product.
    fn mul(self, rhs: Self) -> (r: T)
        ensures
            r == self.dot_spec(rhs),
    {
        self.x.mul(rhs.x).add(self.y.mul(rhs.y)).add(self.z.mul(rhs.z))
    }
}

impl<T: Scalar> MulSpecImpl<T> for Vector3D<T> {
    open spec fn obeys_mul_spec() -> bool {
        true
    }

    open spec fn mul_req(self, rhs: T) -> bool {
        true
    }

    open spec fn mul_spec(self, rhs: T) -> Self {
        self.scale_spec(rhs)
    }
}

impl<T: Scalar> Mul<T> for Vector3D<T> {
    type Output = Self;

    /// The product `v * s` with the scalar on the right.
    fn mul(self, rhs: T) -> (r: Self)
        ensures
            r == self.scale_spec(rhs),
    {
        Vector3D::from((self.x.mul(rhs), self.y.mul(rhs), self.z.mul(rhs)))
    }
}

impl<T: Scalar> MulSpecImpl<Vector3D<T>> for i32 {
    open spec fn obeys_mul_spec() -> bool {
        true
    }

    open spec fn mul_req(self, rhs: Vector3D<T>) -> bool {
        true
    }

    open spec fn mul_spec(self, rhs: Vector3D<T>) -> Vector3D<T> {
        Vector3D::scale_left_spec(T::of(self), rhs)
    }
}

impl<T: Scalar> Mul<Vector3D<T>> for i32 {
    type Output = Vector3D<T>;

    /// The product `n * v` with an integer on the left, taken as a scalar.
    fn mul(self, rhs: Vector3D<T>) -> (r: Vector3D<T>)
        ensures
            r == Vector3D::scale_left_spec(T::of(self), rhs),
    {
        Vector3D::scale_left(T::from_i32(self), rhs)
    }
}

impl<T: Scalar> DivSpecImpl<T> for Vector3D<T> {
    open spec fn obeys_div_spec() -> bool {
        true
    }

    open spec fn div_req(self, rhs: T) -> bool {
        true
    }

    open spec fn div_spec(self, rhs: T) -> Self {
        Vector3D::div_spec(self, rhs)
    }
}

impl<T: Scalar> Div<T> for Vector3D<T> {
    type Output = Self;

    /// The quotient `v / s`, component by component.
    fn div(self, rhs: T) -> (r: Self)
        ensures
            r == self.div_spec(rhs),
    {
        Vector3D::from((self.x.div(rhs), self.y.div(rhs), self.z.div(rhs)))
    }
}

impl<T: Scalar> RemSpecImpl for Vector3D<T> {
    open spec fn obeys_rem_spec() -> bool {
        true
    }

    open spec fn rem_req(self, rhs: Self) -> bool {
        true
    }

    open spec fn rem_spec(self, rhs: Self) -> Self {
        self.cross_spec(rhs)
    }
}

impl<T: Scalar> Rem for Vector3D<T> {
    type Output = Self;

    /// The cross product, under the operator `%`.
    fn rem(self, rhs: Vector3D<T>) -> (r: Self)
        ensures
            r == self.cross_spec(rhs),
    {
        self.cross(rhs)
    }
}

impl<T: Scalar> PartialEqSpecImpl for Vector3D<T> {
    open spec fn obeys_eq_spec() -> bool {
        true
    }

    open spec fn eq_spec(&self, rhs: &Self) -> bool {
        Vector3D::eq_spec(*self, *rhs)
    }
}

impl<T: Scalar> PartialEq for Vector3D<T> {
    /// Whether each pair of components compares equal.
    fn eq(&self, rhs: &Self) -> (r: bool)
        ensures
            r == Vector3D::eq_spec(*self, *rhs),
    {
        self.x.eq(rhs.x) && self.y.eq(rhs.y) && self.z.eq(rhs.z)
    }
}

impl<T: Scalar> FromSpecImpl<(T, T, T)> for Vector3D<T> {
    open spec fn obeys_from_spec() -> bool {
        true
    }

    open spec fn from_spec(point: (T, T, T)) -> Self {
        Vector3D { x: point.0, y: point.1, z: point.2 }
    }
}

impl<T: Scalar> From<(T, T, T)> for Vector3D<T> {
    /// The vector with the components of `point`.
    fn from(point: (T, T, T)) -> (r: Self)
        ensures
            r == (Vector3D { x: point.0, y: point.1, z: point.2 }),
    {
        Vector3D { x: point.0, y: point.1, z: point.2 }
    }
}

/// Each component of a vector stands for its value.
pub proof fn lemma_components<T: Exact>(u: Vector3D<T>)
    ensures
        u.x == T::from_int(u.x.value()),
        u.y == T::from_int(u.y.value()),
        u.z == T::from_int(u.z.value()),
{
    lemma_exact::<T>();
}

/// Addition of vectors commutes: `u + v == v + u`.
pub proof fn lemma_add_commutes<T: Exact>(u: Vector3D<T>, v: Vector3D<T>)
    ensures
        u.add_spec(v) == v.add_spec(u),
{
    lemma_exact::<T>();
    lemma_components(u);
    lemma_components(v);
}

/// A scalar multiplies a vector alike from the left and from the right:
/// `s * u == u * s`.
pub proof fn lemma_scale_commutes<T: Exact>(s: T, u: Vector3D<T>)
    ensures
        Vector3D::scale_left_spec(s, u) == u.scale_spec(s),
{
    lemma_exact::<T>();
    assert(s.value() * u.x.value() == u.x.value() * s.value()) by (nonlinear_arith);
    assert(s.value() * u.y.value() == u.y.value() * s.value()) by (nonlinear_arith);
    assert(s.value() * u.z.value() == u.z.value() * s.value()) by (nonlinear_arith);
}

/// Subtraction undoes addition: `(u + v) - v == u`.
pub proof fn lemma_add_sub_cancels<T: Exact>(u: Vector3D<T>, v: Vector3D<T>)
    ensures
        u.add_spec(v).sub_spec(v) == u,
{
    lemma_exact::<T>();
    lemma_components(u);
    lemma_components(v);
}

/// The cross product is anti-commutative: `a.cross(b)` is `b.cross(a)` with
/// the sign of each component changed.
pub proof fn lemma_cross_anticommutes<T: Exact>(a: Vector3D<T>, b: Vector3D<T>)
    ensures
        a.cross_spec(b) == b.cross_spec(a).neg_spec(),
{
    lemma_exact::<T>();
    lemma_components(a);
    lemma_components(b);
    let (ax, ay, az) = (a.x.value(), a.y.value(), a.z.value());
    let (bx, by, bz) = (b.x.value(), b.y.value(), b.z.value());
    assert(ay * bz - az * by == -(by * az - bz * ay)) by (nonlinear_arith);
    assert(az * bx - ax * bz == -(bz * ax - bx * az)) by (nonlinear_arith);
    assert(ax * by - ay * bx == -(bx * ay - by * ax)) by (nonlinear_arith);
}

/// In exact arithmetic two vectors compare equal exactly when they are the
/// same.
pub proof fn lemma_eq<T: Exact>(a: Vector3D<T>, b: Vector3D<T>)
    ensures
        a.eq_spec(b) <==> a == b,
{
    T::lemma_equals(a.x, b.x);
    T::lemma_equals(a.y, b.y);
    T::lemma_equals(a.z, b.z);
}

} // verus!
