//! Complex numbers in rectangular form.

use vstd::prelude::*;
use vstd::std_specs::cmp::PartialEqSpecImpl;
use vstd::std_specs::convert::FromSpecImpl;
use vstd::std_specs::ops::{AddSpecImpl, DivSpecImpl, MulSpecImpl, SubSpecImpl};
use std::ops::{Add, Div, Mul, Sub};
use crate::maths::exact::{lemma_exact, Exact};
use crate::maths::scalar::Scalar;

verus! {

/// A complex number `real + imaginary * i`.
#[derive(Debug)]
pub struct Complex<T> {
    pub real: T,
    pub imaginary: T,
}

impl<T: Copy> Copy for Complex<T> {
}

impl<T: Copy> Clone for Complex<T> {
    fn clone(&self) -> (r: Self)
        ensures
            r == *self,
    {
        *self
    }
}

impl<T: Scalar> Complex<T> {
    /// The sum of the squares of the two parts,
    /// `real * real + imaginary * imaginary`.
    pub open spec fn norm_squared_spec(self) -> T {
        self.real.times(self.real).plus(self.imaginary.times(self.imaginary))
    }

    /// The modulus: the root of the sum of the squares.
    pub open spec fn norm_spec(self) -> T {
        self.norm_squared_spec().root()
    }

    /// The conjugate, `(real, -imaginary)`.
    pub open spec fn conjugate_spec(self) -> Self {
        Complex { real: self.real, imaginary: self.imaginary.negated() }
    }

    /// The part-wise sum.
    pub open spec fn add_spec(self, rhs: Self) -> Self {
        Complex {
            real: self.real.plus(rhs.real),
            imaginary: self.imaginary.plus(rhs.imaginary),
        }
    }

    /// The part-wise difference.
    pub open spec fn sub_spec(self, rhs: Self) -> Self {
        Complex {
            real: self.real.minus(rhs.real),
            imaginary: self.imaginary.minus(rhs.imaginary),
        }
    }

    /// The product in rectangular form,
    /// `(a * c - b * d, a * d + b * c)` for `(a, b)` and `(c, d)`.
    pub open spec fn mul_spec(self, rhs: Self) -> Self {
        Complex {
            real: self.real.times(rhs.real).minus(self.imaginary.times(rhs.imaginary)),
            imaginary: self.real.times(rhs.imaginary).plus(self.imaginary.times(rhs.real)),
        }
    }

    /// Each part multiplied by `s`, the scalar on the right.
    pub open spec fn scale_spec(self, s: T) -> Self {
        Complex { real: self.real.times(s), imaginary: self.imaginary.times(s) }
    }

    /// Each part multiplied by `s`, the scalar on the left.
    pub open spec fn scale_left_spec(s: T, z: Self) -> Self {
        Complex { real: s.times(z.real), imaginary: s.times(z.imaginary) }
    }

    /// Each part divided by `s`.
    pub open spec fn div_spec(self, s: T) -> Self {
        Complex { real: self.real.over(s), imaginary: self.imaginary.over(s) }
    }

    /// The quotient in rectangular form: the product with the conjugate of
    /// the divisor, `(a * c + b * d, b * c - a * d)`, divided by the sum of
    /// the squares of the divisor's parts, `c * c + d * d`.
    pub open spec fn quotient_spec(self, rhs: Self) -> Self {
        (Complex {
            real: self.real.times(rhs.real).plus(self.imaginary.times(rhs.imaginary)),
            imaginary: self.imaginary.times(rhs.real).minus(self.real.times(rhs.imaginary)),
        }).div_spec(rhs.norm_squared_spec())
    }

    /// Whether both pairs of parts compare equal.
    pub open spec fn eq_spec(self, rhs: Self) -> bool {
        self.real.equals(rhs.real) && self.imaginary.equals(rhs.imaginary)
    }

    /// The real part.
    pub fn real_part(&self) -> (r: T)
        ensures
            r == self.real,
    {
        self.real
    }

    /// The imaginary part.
    pub fn imaginary(&self) -> (r: T)
        ensures
            r == self.imaginary,
    {
        self.imaginary
    }

    /// The modulus.
    pub fn norm(&self) -> (r: T)
        ensures
            r == self.norm_spec(),
    {
        self.real.mul(self.real).add(self.imaginary.mul(self.imaginary)).sqrt()
    }

    /// The conjugate.
    pub fn conjugate(&self) -> (r: Complex<T>)
        ensures
            r == self.conjugate_spec(),
    {
        Complex::from((self.real, self.imaginary.neg()))
    }

    /// The product `s * z` with the scalar on the left.
    pub fn scale_left(s: T, z: Self) -> (r: Self)
        ensures
            r == Self::scale_left_spec(s, z),
    {
        Complex { real: s.mul(z.real), imaginary: s.mul(z.imaginary) }
    }
}

impl<T: Scalar> AddSpecImpl for Complex<T> {
    open spec fn obeys_add_spec() -> bool {
        true
    }

    open spec fn add_req(self, rhs: Self) -> bool {
        true
    }

    open spec fn add_spec(self, rhs: Self) -> Self {
        Complex::add_spec(self, rhs)
    }
}

impl<T: Scalar> Add for Complex<T> {
    type Output = Self;

    /// The part-wise sum.
    fn add(self, rhs: Self) -> (r: Self)
        ensures
            r == self.add_spec(rhs),
    {
        Complex::from((self.real.add(rhs.real), self.imaginary.add(rhs.imaginary)))
    }
}

impl<T: Scalar> SubSpecImpl for Complex<T> {
    open spec fn obeys_sub_spec() -> bool {
        true
    }

    open spec fn sub_req(self, rhs: Self) -> bool {
        true
    }

    open spec fn sub_spec(self, rhs: Self) -> Self {
        Complex::sub_spec(self, rhs)
    }
}

impl<T: Scalar> Sub for Complex<T> {
    type Output = Self;

    /// The part-wise difference.
    fn sub(self, rhs: Self) -> (r: Self)
        ensures
            r == self.sub_spec(rhs),
    {
        Complex::from((self.real.sub(rhs.real), self.imaginary.sub(rhs.imaginary)))
    }
}

impl<T: Scalar> MulSpecImpl<Complex<T>> for Complex<T> {
    open spec fn obeys_mul_spec() -> bool {
        true
    }

    open spec fn mul_req(self, rhs: Self) -> bool {
        true
    }

    open spec fn mul_spec(self, rhs: Self) -> Self {
        Complex::mul_spec(self, rhs)
    }
}

impl<T: Scalar> Mul<Complex<T>> for Complex<T> {
    type Output = Self;

    /// The product of two complex numbers.
    fn mul(self, rhs: Self) -> (r: Self)
        ensures
            r == Complex::mul_spec(self, rhs),
    {
        Complex::from(
            (
                self.real.mul(rhs.real).sub(self.imaginary.mul(rhs.imaginary)),
                self.real.mul(rhs.imaginary).add(self.imaginary.mul(rhs.real)),
            ),
        )
    }
}

impl<T: Scalar> MulSpecImpl<T> for Complex<T> {
    open spec fn obeys_mul_spec() -> bool {
        true
    }

    open spec fn mul_req(self, rhs: T) -> bool {
        true
    }

    open spec fn mul_spec(self, rhs: T) -> Self {
        self.scale_spec(rhs)
    }
}

impl<T: Scalar> Mul<T> for Complex<T> {
    type Output = Self;

    /// The product `z * s` with the scalar on the right.
    fn mul(self, rhs: T) -> (r: Self)
        ensures
            r == self.scale_spec(rhs),
    {
        Complex::from((self.real_part().mul(rhs), self.imaginary().mul(rhs)))
    }
}

impl<T: Scalar> DivSpecImpl<Complex<T>> for Complex<T> {
    open spec fn obeys_div_spec() -> bool {
        true
    }

    open spec fn div_req(self, rhs: Self) -> bool {
        true
    }

    open spec fn div_spec(self, rhs: Self) -> Self {
        self.quotient_spec(rhs)
    }
}

impl<T: Scalar> Div<Complex<T>> for Complex<T> {
    type Output = Self;

    /// The quotient of two complex numbers.
    fn div(self, rhs: Complex<T>) -> (r: Self)
        ensures
            r == self.quotient_spec(rhs),
    {
        Complex::from(
            (
                self.real.mul(rhs.real).add(self.imaginary.mul(rhs.imaginary)),
                self.imaginary.mul(rhs.real).sub(self.real.mul(rhs.imaginary)),
            ),
        ) / rhs.real.mul(rhs.real).add(rhs.imaginary.mul(rhs.imaginary))
    }
}

impl<T: Scalar> DivSpecImpl<T> for Complex<T> {
    open spec fn obeys_div_spec() -> bool {
        true
    }

    open spec fn div_req(self, rhs: T) -> bool {
        true
    }

    open spec fn div_spec(self, rhs: T) -> Self {
        Complex::div_spec(self, rhs)
    }
}

impl<T: Scalar> Div<T> for Complex<T> {
    type Output = Self;

    /// The quotient `z / s`, part by part.
    fn div(self, rhs: T) -> (r: Self)
        ensures
            r == Complex::div_spec(self, rhs),
    {
        Complex::from((self.real_part().div(rhs), self.imaginary().div(rhs)))
    }
}

impl<T: Scalar> PartialEqSpecImpl for Complex<T> {
    open spec fn obeys_eq_spec() -> bool {
        true
    }

    open spec fn eq_spec(&self, rhs: &Self) -> bool {
        Complex::eq_spec(*self, *rhs)
    }
}

impl<T: Scalar> PartialEq for Complex<T> {
    /// Whether both pairs of parts compare equal.
    fn eq(&self, rhs: &Self) -> (r: bool)
        ensures
            r == Complex::eq_spec(*self, *rhs),
    {
        self.real.eq(rhs.real) && self.imaginary.eq(rhs.imaginary)
    }
}

impl<T: Scalar> FromSpecImpl<(T, T)> for Complex<T> {
    open spec fn obeys_from_spec() -> bool {
        true
    }

    open spec fn from_spec(data: (T, T)) -> Self {
        Complex { real: data.0, imaginary: data.1 }
    }
}

impl<T: Scalar> From<(T, T)> for Complex<T> {
    /// The complex number with real part `data.0` and imaginary part
    /// `data.1`: the pair is read as rectangular coordinates.
    fn from(data: (T, T)) -> (r: Self)
        ensures
            r == (Complex { real: data.0, imaginary: data.1 }),
    {
        Complex { real: data.0, imaginary: data.1 }
    }
}

/// A scalar multiplies a complex number alike from the left and from the
/// right: `s * z == z * s`.
pub proof fn lemma_scale_commutes<T: Exact>(s: T, z: Complex<T>)
    ensures
        Complex::scale_left_spec(s, z) == z.scale_spec(s),
{
    lemma_exact::<T>();
    assert(s.value() * z.real.value() == z.real.value() * s.value()) by (nonlinear_arith);
    assert(s.value() * z.imaginary.value() == z.imaginary.value() * s.value())
        by (nonlinear_arith);
}

/// The product of complex numbers commutes: `z * w == w * z`.
pub proof fn lemma_mul_commutes<T: Exact>(z: Complex<T>, w: Complex<T>)
    ensures
        z.mul_spec(w) == w.mul_spec(z),
{
    lemma_exact::<T>();
    let (a, b) = (z.real.value(), z.imaginary.value());
    let (c, d) = (w.real.value(), w.imaginary.value());
    assert(a * c - b * d == c * a - d * b) by (nonlinear_arith);
    assert(a * d + b * c == c * b + d * a) by (nonlinear_arith);
}

/// In exact arithmetic two complex numbers compare equal exactly when they are the
/// same.
pub proof fn lemma_eq<T: Exact>(a: Complex<T>, b: Complex<T>)
    ensures
        a.eq_spec(b) <==> a == b,
{
    T::lemma_equals(a.real, b.real);
    T::lemma_equals(a.imaginary, b.imaginary);
}

} // verus!
