//! Quaternions.

use vstd::prelude::*;
use vstd::std_specs::cmp::PartialEqSpecImpl;
use vstd::std_specs::convert::FromSpecImpl;
use vstd::std_specs::ops::{AddSpecImpl, DivSpecImpl, MulSpecImpl, SubSpecImpl};
use std::ops::{Add, Div, Mul, Sub};
use crate::maths::exact::{lemma_exact, Exact};
use crate::maths::scalar::Scalar;
use crate::maths::vector::vector3d::Vector3D;

verus! {

/// A quaternion `r + i * I + j * J + k * K`: a scalar part `r` and a vector
/// part `(i, j, k)`.
#[derive(Debug)]
pub struct Quaternion<T> {
    pub r: T,
    pub i: T,
    pub j: T,
    pub k: T,
}

impl<T: Copy> Copy for Quaternion<T> {
}

impl<T: Copy> Clone for Quaternion<T> {
    fn clone(&self) -> (r: Self)
        ensures
            r == *self,
    {
        *self
    }
}

impl<T: Scalar> Quaternion<T> {
    /// The sum of the squares of the four parts,
    /// `r * r + i * i + j * j + k * k`, added from the left.
    pub open spec fn norm_squared_spec(self) -> T {
        self.r.times(self.r).plus(self.i.times(self.i)).plus(self.j.times(self.j)).plus(
            self.k.times(self.k),
        )
    }

    /// The norm: the root of the sum of the squares.
    pub open spec fn norm_spec(self) -> T {
        self.norm_squared_spec().root()
    }

    /// The conjugate, `(r, -i, -j, -k)`.
    pub open spec fn conjugate_spec(self) -> Self {
        Quaternion { r: self.r, i: self.i.negated(), j: self.j.negated(), k: self.k.negated() }
    }

    /// Each part divided by `s`.
    pub open spec fn div_spec(self, s: T) -> Self {
        Quaternion { r: self.r.over(s), i: self.i.over(s), j: self.j.over(s), k: self.k.over(s) }
    }

    /// The inverse: the conjugate divided by the square of the norm.
    pub open spec fn inverse_spec(self) -> Self {
        self.conjugate_spec().div_spec(self.norm_spec().times(self.norm_spec()))
    }

    /// The part-wise sum.
    pub open spec fn add_spec(self, rhs: Self) -> Self {
        Quaternion {
            r: self.r.plus(rhs.r),
            i: self.i.plus(rhs.i),
            j: self.j.plus(rhs.j),
            k: self.k.plus(rhs.k),
        }
    }

    /// The part-wise difference.
    pub open spec fn sub_spec(self, rhs: Self) -> Self {
        Quaternion {
            r: self.r.minus(rhs.r),
            i: self.i.minus(rhs.i),
            j: self.j.minus(rhs.j),
            k: self.k.minus(rhs.k),
        }
    }

    /// The Hamilton product. With `(r1, i1, j1, k1)` on the left and
    /// `(r2, i2, j2, k2)` on the right its parts are, each evaluated from
    /// the left,
    /// `r1 r2 - i1 i2 - j1 j2 - k1 k2`,
    /// `r1 i2 + i1 r2 + j1 k2 - k1 j2`,
    /// `r1 j2 - i1 k2 + j1 r2 + k1 i2` and
    /// `r1 k2 + i1 j2 - j1 i2 + k1 r2`.
    pub open spec fn mul_spec(self, rhs: Self) -> Self {
        Quaternion {
            r: self.r.times(rhs.r).minus(self.i.times(rhs.i)).minus(self.j.times(rhs.j)).minus(
                self.k.times(rhs.k),
            ),
            i: self.r.times(rhs.i).plus(self.i.times(rhs.r)).plus(self.j.times(rhs.k)).minus(
                self.k.times(rhs.j),
            ),
            j: self.r.times(rhs.j).minus(self.i.times(rhs.k)).plus(self.j.times(rhs.r)).plus(
                self.k.times(rhs.i),
            ),
            k: self.r.times(rhs.k).plus(self.i.times(rhs.j)).minus(self.j.times(rhs.i)).plus(
                self.k.times(rhs.r),
            ),
        }
    }

    /// Each part multiplied by `s`, the scalar on the right.
    pub open spec fn scale_spec(self, s: T) -> Self {
        Quaternion {
            r: self.r.times(s),
            i: self.i.times(s),
            j: self.j.times(s),
            k: self.k.times(s),
        }
    }

    /// The quotient `p / q`: the Hamilton product of `p` with the inverse of
    /// `q`, the inverse on the right.
    pub open spec fn quotient_spec(self, rhs: Self) -> Self {
        self.mul_spec(rhs.inverse_spec())
    }

    /// Whether each pair of parts compares equal.
    pub open spec fn eq_spec(self, rhs: Self) -> bool {
        self.r.equals(rhs.r) && self.i.equals(rhs.i) && self.j.equals(rhs.j) && self.k.equals(
            rhs.k,
        )
    }

    /// The scalar part.
    pub fn r(&self) -> (r: T)
        ensures
            r == self.r,
    {
        self.r
    }

    /// The first part of the vector part.
    pub fn i(&self) -> (r: T)
        ensures
            r == self.i,
    {
        self.i
    }

    /// The second part of the vector part.
    pub fn j(&self) -> (r: T)
        ensures
            r == self.j,
    {
        self.j
    }

    /// The third part of the vector part.
    pub fn k(&self) -> (r: T)
        ensures
            r == self.k,
    {
        self.k
    }

    /// The norm.
    pub fn norm(&self) -> (r: T)
        ensures
            r == self.norm_spec(),
    {
        self.r.mul(self.r).add(self.i.mul(self.i)).add(self.j.mul(self.j)).add(
            self.k.mul(self.k),
        ).sqrt()
    }

    /// The conjugate.
    pub fn conjugate(&self) -> (r: Quaternion<T>)
        ensures
            r == self.conjugate_spec(),
    {
        Quaternion::from((self.r, self.i.neg(), self.j.neg(), self.k.neg()))
    }

    /// The inverse. Where the norm is zero the division is still carried
    /// out, with whatever the scalar type answers a zero divisor.
    pub fn inverse(&self) -> (r: Quaternion<T>)
        ensures
            r == self.inverse_spec(),
    {
        let norm = self.norm();
        self.conjugate() / norm.mul(norm)
    }
}

impl<T: Scalar> AddSpecImpl for Quaternion<T> {
    open spec fn obeys_add_spec() -> bool {
        true
    }

    open spec fn add_req(self, rhs: Self) -> bool {
        true
    }

    open spec fn add_spec(self, rhs: Self) -> Self {
        Quaternion::add_spec(self, rhs)
    }
}

impl<T: Scalar> Add for Quaternion<T> {
    type Output = Quaternion<T>;

    /// The part-wise sum.
    fn add(self, rhs: Quaternion<T>) -> (r: Quaternion<T>)
        ensures
            r == self.add_spec(rhs),
    {
        Quaternion::from(
            (self.r.add(rhs.r), self.i.add(rhs.i), self.j.add(rhs.j), self.k.add(rhs.k)),
        )
    }
}

impl<T: Scalar> SubSpecImpl for Quaternion<T> {
    open spec fn obeys_sub_spec() -> bool {
        true
    }

    open spec fn sub_req(self, rhs: Self) -> bool {
        true
    }

    open spec fn sub_spec(self, rhs: Self) -> Self {
        Quaternion::sub_spec(self, rhs)
    }
}

impl<T: Scalar> Sub for Quaternion<T> {
    type Output = Quaternion<T>;

    /// The part-wise difference.
    fn sub(self, rhs: Quaternion<T>) -> (r: Quaternion<T>)
        ensures
            r == self.sub_spec(rhs),
    {
        Quaternion::from(
            (self.r.sub(rhs.r), self.i.sub(rhs.i), self.j.sub(rhs.j), self.k.sub(rhs.k)),
        )
    }
}

impl<T: Scalar> MulSpecImpl<Quaternion<T>> for Quaternion<T> {
    open spec fn obeys_mul_spec() -> bool {
        true
    }

    open spec fn mul_req(self, rhs: Self) -> bool {
        true
    }

    open spec fn mul_spec(self, rhs: Self) -> Self {
        Quaternion::mul_spec(self, rhs)
    }
}

impl<T: Scalar> Mul<Quaternion<T>> for Quaternion<T> {
    type Output = Quaternion<T>;

    /// The Hamilton product, `self` on the left.
    fn mul(self, rhs: Quaternion<T>) -> (r: Quaternion<T>)
        ensures
            r == Quaternion::mul_spec(self, rhs),
    {
        Quaternion::from(
            (
                self.r.mul(rhs.r).sub(self.i.mul(rhs.i)).sub(self.j.mul(rhs.j)).sub(
                    self.k.mul(rhs.k),
                ),
                self.r.mul(rhs.i).add(self.i.mul(rhs.r)).add(self.j.mul(rhs.k)).sub(
                    self.k.mul(rhs.j),
                ),
                self.r.mul(rhs.j).sub(self.i.mul(rhs.k)).add(self.j.mul(rhs.r)).add(
                    self.k.mul(rhs.i),
                ),
                self.r.mul(rhs.k).add(self.i.mul(rhs.j)).sub(self.j.mul(rhs.i)).add(
                    self.k.mul(rhs.r),
                ),
            ),
        )
    }
}

impl<T: Scalar> MulSpecImpl<T> for Quaternion<T> {
    open spec fn obeys_mul_spec() -> bool {
        true
    }

    open spec fn mul_req(self, rhs: T) -> bool {
        true
    }

    open spec fn mul_spec(self, rhs: T) -> Self {
        self.scale_spec(rhs)
    }
}

impl<T: Scalar> Mul<T> for Quaternion<T> {
    type Output = Quaternion<T>;

    /// The product `q * s` with the scalar on the right.
    fn mul(self, rhs: T) -> (r: Quaternion<T>)
        ensures
            r == self.scale_spec(rhs),
    {
        Quaternion::from((self.r.mul(rhs), self.i.mul(rhs), self.j.mul(rhs), self.k.mul(rhs)))
    }
}

impl<T: Scalar> DivSpecImpl<Quaternion<T>> for Quaternion<T> {
    open spec fn obeys_div_spec() -> bool {
        true
    }

    open spec fn div_req(self, rhs: Self) -> bool {
        true
    }

    open spec fn div_spec(self, rhs: Self) -> Self {
        self.quotient_spec(rhs)
    }
}

impl<T: Scalar> Div<Quaternion<T>> for Quaternion<T> {
    type Output = Quaternion<T>;

    /// The quotient `p / q`, which is `p * q.inverse()`.
    fn div(self, rhs: Quaternion<T>) -> (r: Quaternion<T>)
        ensures
            r == self.quotient_spec(rhs),
    {
        self * rhs.inverse()
    }
}

impl<T: Scalar> DivSpecImpl<T> for Quaternion<T> {
    open spec fn obeys_div_spec() -> bool {
        true
    }

    open spec fn div_req(self, rhs: T) -> bool {
        true
    }

    open spec fn div_spec(self, rhs: T) -> Self {
        Quaternion::div_spec(self, rhs)
    }
}

impl<T: Scalar> Div<T> for Quaternion<T> {
    type Output = Quaternion<T>;

    /// The quotient `q / s`, part by part.
    fn div(self, rhs: T) -> (r: Quaternion<T>)
        ensures
            r == Quaternion::div_spec(self, rhs),
    {
        Quaternion::from((self.r.div(rhs), self.i.div(rhs), self.j.div(rhs), self.k.div(rhs)))
    }
}

impl<T: Scalar> PartialEqSpecImpl for Quaternion<T> {
    open spec fn obeys_eq_spec() -> bool {
        true
    }

    open spec fn eq_spec(&self, rhs: &Self) -> bool {
        Quaternion::eq_spec(*self, *rhs)
    }
}

impl<T: Scalar> PartialEq for Quaternion<T> {
    /// Whether each pair of parts compares equal.
    fn eq(&self, rhs: &Self) -> (r: bool)
        ensures
            r == Quaternion::eq_spec(*self, *rhs),
    {
        self.r.eq(rhs.r) && self.i.eq(rhs.i) && self.j.eq(rhs.j) && self.k.eq(rhs.k)
    }
}

impl<T: Scalar> FromSpecImpl<(T, T, T, T)> for Quaternion<T> {
    open spec fn obeys_from_spec() -> bool {
        true
    }

    open spec fn from_spec(data: (T, T, T, T)) -> Self {
        Quaternion { r: data.0, i: data.1, j: data.2, k: data.3 }
    }
}

impl<T: Scalar> From<(T, T, T, T)> for Quaternion<T> {
    /// The quaternion with the four parts of `data`, the scalar part first.
    fn from(data: (T, T, T, T)) -> (r: Self)
        ensures
            r == (Quaternion { r: data.0, i: data.1, j: data.2, k: data.3 }),
    {
        Quaternion { r: data.0, i: data.1, j: data.2, k: data.3 }
    }
}

impl<T: Scalar> FromSpecImpl<(T, Vector3D<T>)> for Quaternion<T> {
    open spec fn obeys_from_spec() -> bool {
        true
    }

    open spec fn from_spec(data: (T, Vector3D<T>)) -> Self {
        Quaternion { r: data.0, i: data.1.x, j: data.1.y, k: data.1.z }
    }
}

impl<T: Scalar> From<(T, Vector3D<T>)> for Quaternion<T> {
    /// The quaternion with scalar part `data.0` and vector part `data.1`.
    fn from(data: (T, Vector3D<T>)) -> (r: Self)
        ensures
            r == (Quaternion { r: data.0, i: data.1.x, j: data.1.y, k: data.1.z }),
    {
        Quaternion { r: data.0, i: data.1.x(), j: data.1.y(), k: data.1.z() }
    }
}

/// Each part of a quaternion stands for its value.
pub proof fn lemma_parts<T: Exact>(p: Quaternion<T>)
    ensures
        p.r == T::from_int(p.r.value()),
        p.i == T::from_int(p.i.value()),
        p.j == T::from_int(p.j.value()),
        p.k == T::from_int(p.k.value()),
{
    lemma_exact::<T>();
}

/// The product of a quaternion with its conjugate, on either side, is the
/// sum of the squares of its parts, with a vector part of zero:
/// `p * p.conjugate() == (r * r + i * i + j * j + k * k, 0, 0, 0)`. The sum
/// of the squares is what [`Quaternion::norm`] takes the root of.
pub proof fn lemma_conjugate_product<T: Exact>(p: Quaternion<T>)
    ensures
        p.mul_spec(p.conjugate_spec()) == (Quaternion {
            r: p.norm_squared_spec(),
            i: T::nil(),
            j: T::nil(),
            k: T::nil(),
        }),
        p.conjugate_spec().mul_spec(p) == p.mul_spec(p.conjugate_spec()),
{
    lemma_exact::<T>();
    lemma_parts(p);
    let (r, i, j, k) = (p.r.value(), p.i.value(), p.j.value(), p.k.value());
    assert(r * r - i * (-i) - j * (-j) - k * (-k) == r * r + i * i + j * j + k * k)
        by (nonlinear_arith);
    assert(r * (-i) + i * r + j * (-k) - k * (-j) == 0) by (nonlinear_arith);
    assert(r * (-j) - i * (-k) + j * r + k * (-i) == 0) by (nonlinear_arith);
    assert(r * (-k) + i * (-j) - j * (-i) + k * r == 0) by (nonlinear_arith);
    assert(r * r - (-i) * i - (-j) * j - (-k) * k == r * r + i * i + j * j + k * k)
        by (nonlinear_arith);
    assert(r * i + (-i) * r + (-j) * k - (-k) * j == 0) by (nonlinear_arith);
    assert(r * j - (-i) * k + (-j) * r + (-k) * i == 0) by (nonlinear_arith);
    assert(r * k + (-i) * j - (-j) * i + (-k) * r == 0) by (nonlinear_arith);
}

/// The Hamilton product depends on the order of its factors: the units `I`
/// and `J` have the products `I * J == K` and `J * I == -K`.
pub proof fn lemma_unit_products<T: Exact>()
    ensures
        ({
            let i = Quaternion { r: T::nil(), i: T::unit(), j: T::nil(), k: T::nil() };
            let j = Quaternion { r: T::nil(), i: T::nil(), j: T::unit(), k: T::nil() };
            let k = Quaternion { r: T::nil(), i: T::nil(), j: T::nil(), k: T::unit() };
            &&& i.mul_spec(j) == k
            &&& j.mul_spec(i) == k.conjugate_spec()
        }),
{
    lemma_exact::<T>();
}

/// In exact arithmetic two quaternions compare equal exactly when they are the
/// same.
pub proof fn lemma_eq<T: Exact>(a: Quaternion<T>, b: Quaternion<T>)
    ensures
        a.eq_spec(b) <==> a == b,
{
    T::lemma_equals(a.r, b.r);
    T::lemma_equals(a.i, b.i);
    T::lemma_equals(a.j, b.j);
    T::lemma_equals(a.k, b.k);
}

/// A quaternion whose parts have squares that add up to one has an inverse
/// in exact arithmetic: its product with what [`Quaternion::inverse`]
/// returns is the quaternion one, on either side.
pub proof fn lemma_inverse_of_unit_norm<T: Exact>(p: Quaternion<T>)
    requires
        p.norm_squared_spec() == T::unit(),
    ensures
        p.mul_spec(p.inverse_spec()) == (Quaternion {
            r: T::unit(),
            i: T::nil(),
            j: T::nil(),
            k: T::nil(),
        }),
        p.inverse_spec().mul_spec(p) == p.mul_spec(p.inverse_spec()),
{
    lemma_exact::<T>();
    lemma_conjugate_product(p);
    T::lemma_root_unit();
    let conjugate = p.conjugate_spec();
    T::lemma_over_unit(conjugate.r);
    T::lemma_over_unit(conjugate.i);
    T::lemma_over_unit(conjugate.j);
    T::lemma_over_unit(conjugate.k);
    assert(T::unit().times(T::unit()) == T::unit());
    assert(p.inverse_spec() == conjugate);
}

} // verus!
