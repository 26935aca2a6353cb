//! The numbers that the kernel computes with.

use vstd::prelude::*;

verus! {

/// A number type with the arithmetic that vectors, matrices, complex numbers
/// and quaternions are built from.
///
/// Every operation is total and comes as a pair: the executable method, and
/// the function of the same arguments that stands for its result in
/// contracts. The contracts of the kernel say which of these functions are
/// applied to which components and in what order; they hold for any number
/// type, exact or rounding. A number type defined in unverified code gives
/// both members of a pair the same body.
pub trait Scalar: Copy + Sized {
    /// The result of [`Scalar::zero`].
    spec fn nil() -> Self;

    /// The result of [`Scalar::one`].
    spec fn unit() -> Self;

    /// The result of [`Scalar::from_i32`].
    spec fn of(n: i32) -> Self;

    /// The result of [`Scalar::add`].
    spec fn plus(self, rhs: Self) -> Self;

    /// The result of [`Scalar::sub`].
    spec fn minus(self, rhs: Self) -> Self;

    /// The result of [`Scalar::mul`].
    spec fn times(self, rhs: Self) -> Self;

    /// The result of [`Scalar::div`].
    spec fn over(self, rhs: Self) -> Self;

    /// The result of [`Scalar::neg`].
    spec fn negated(self) -> Self;

    /// The result of [`Scalar::sqrt`].
    spec fn root(self) -> Self;

    /// The result of [`Scalar::eq`].
    spec fn equals(self, rhs: Self) -> bool;

    /// The number zero.
    fn zero() -> (r: Self)
        ensures
            r == Self::nil(),
    ;

    /// The number one.
    fn one() -> (r: Self)
        ensures
            r == Self::unit(),
    ;

    /// The number that stands for the integer `n`.
    fn from_i32(n: i32) -> (r: Self)
        ensures
            r == Self::of(n),
    ;

    /// The sum of two numbers.
    fn add(self, rhs: Self) -> (r: Self)
        ensures
            r == self.plus(rhs),
    ;

    /// The difference of two numbers.
    fn sub(self, rhs: Self) -> (r: Self)
        ensures
            r == self.minus(rhs),
    ;

    /// The product of two numbers.
    fn mul(self, rhs: Self) -> (r: Self)
        ensures
            r == self.times(rhs),
    ;

    /// The quotient of two numbers. It is defined for every divisor: a
    /// rounding type answers a zero divisor with an infinity or a NaN.
    fn div(self, rhs: Self) -> (r: Self)
        ensures
            r == self.over(rhs),
    ;

    /// The number with the opposite sign.
    fn neg(self) -> (r: Self)
        ensures
            r == self.negated(),
    ;

    /// The square root.
    fn sqrt(self) -> (r: Self)
        ensures
            r == self.root(),
    ;

    /// Whether two numbers compare equal. This is the type's own comparison:
    /// for a rounding type a NaN is equal to nothing, itself included.
    fn eq(self, rhs: Self) -> (r: bool)
        ensures
            r == self.equals(rhs),
    ;
}

/// The sign `(-1)^k` as a scalar: one for an even `k`, minus one for an odd.
pub open spec fn sign_spec<T: Scalar>(k: int) -> T {
    if k % 2 == 0 {
        T::unit()
    } else {
        T::unit().negated()
    }
}

/// The sign `(-1)^k` as a scalar.
pub fn sign<T: Scalar>(k: usize) -> (r: T)
    ensures
        r == sign_spec::<T>(k as int),
{
    if k % 2 == 0 {
        T::one()
    } else {
        T::one().neg()
    }
}

} // verus!
