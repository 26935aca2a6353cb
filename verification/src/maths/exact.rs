//! Exact scalars, and what exact arithmetic gives the kernel.

use vstd::prelude::*;
use vstd::arithmetic::div_mod::lemma_mod_multiples_vanish;
use crate::maths::integer::{lemma_floor_root_unique, wrap};
use crate::maths::scalar::Scalar;

verus! {

/// A scalar type that computes with integers without rounding: each scalar
/// stands for an integer, every integer has a scalar that stands for it,
/// and sums, differences, products and opposites of scalars stand for those
/// of the integers. Scalars that compare equal are the same scalar. Such a
/// type is the ring of integers, or the ring of integers modulo some
/// number.
///
/// Of division it is known only that dividing by one changes nothing, and
/// of the square root only that the root of one is one.
pub trait Exact: Scalar {
    /// The scalar that stands for the integer `x`.
    spec fn from_int(x: int) -> Self;

    /// An integer that the scalar stands for.
    spec fn value(self) -> int;

    /// A scalar stands for its value.
    proof fn lemma_value(a: Self)
        ensures
            Self::from_int(a.value()) == a,
    ;

    /// Zero stands for the integer zero.
    proof fn lemma_nil()
        ensures
            Self::nil() == Self::from_int(0),
    ;

    /// One stands for the integer one.
    proof fn lemma_unit()
        ensures
            Self::unit() == Self::from_int(1),
    ;

    /// The scalar of a machine integer stands for that integer.
    proof fn lemma_of(n: i32)
        ensures
            Self::of(n) == Self::from_int(n as int),
    ;

    /// A sum of scalars stands for the sum of the integers.
    proof fn lemma_plus(x: int, y: int)
        ensures
            Self::from_int(x).plus(Self::from_int(y)) == Self::from_int(x + y),
    ;

    /// A difference of scalars stands for the difference of the integers.
    proof fn lemma_minus(x: int, y: int)
        ensures
            Self::from_int(x).minus(Self::from_int(y)) == Self::from_int(x - y),
    ;

    /// A product of scalars stands for the product of the integers.
    proof fn lemma_times(x: int, y: int)
        ensures
            Self::from_int(x).times(Self::from_int(y)) == Self::from_int(x * y),
    ;

    /// The opposite of a scalar stands for the opposite of the integer.
    proof fn lemma_negated(x: int)
        ensures
            Self::from_int(x).negated() == Self::from_int(-x),
    ;

    /// Dividing by one changes nothing.
    proof fn lemma_over_unit(a: Self)
        ensures
            a.over(Self::unit()) == a,
    ;

    /// The root of one is one.
    proof fn lemma_root_unit()
        ensures
            Self::unit().root() == Self::unit(),
    ;

    /// Scalars compare equal exactly when they are the same scalar.
    proof fn lemma_equals(a: Self, b: Self)
        ensures
            a.equals(b) <==> a == b,
    ;
}

/// What `wrap` makes of an integer differs from it by a multiple of 2^64.
proof fn lemma_wrap(x: int) -> (k: int)
    ensures
        x == wrap(x) + 0x1_0000_0000_0000_0000 * k,
{
    (x - wrap(x)) / 0x1_0000_0000_0000_0000
}

/// The sum of two integers and the sum of what `wrap` makes of them differ
/// by a multiple of 2^64.
proof fn lemma_wrap_plus(x: int, y: int)
    ensures
        wrap(wrap(x) + wrap(y)) == wrap(x + y),
{
    let p = lemma_wrap(x);
    let q = lemma_wrap(y);
    lemma_mod_multiples_vanish(p + q, wrap(x) + wrap(y), 0x1_0000_0000_0000_0000);
}

/// The difference of two integers and the difference of what `wrap` makes
/// of them differ by a multiple of 2^64.
proof fn lemma_wrap_minus(x: int, y: int)
    ensures
        wrap(wrap(x) - wrap(y)) == wrap(x - y),
{
    let p = lemma_wrap(x);
    let q = lemma_wrap(y);
    lemma_mod_multiples_vanish(p - q, wrap(x) - wrap(y), 0x1_0000_0000_0000_0000);
}

/// The product of two integers and the product of what `wrap` makes of them
/// differ by a multiple of 2^64.
proof fn lemma_wrap_times(x: int, y: int)
    ensures
        wrap(wrap(x) * wrap(y)) == wrap(x * y),
{
    let m: int = 0x1_0000_0000_0000_0000;
    let a: int = wrap(x) as int;
    let b: int = wrap(y) as int;
    let p = lemma_wrap(x);
    let q = lemma_wrap(y);
    assert(x * y == m * (p * b + a * q + m * p * q) + a * b) by (nonlinear_arith)
        requires
            x == a + m * p,
            y == b + m * q,
    ;
    lemma_mod_multiples_vanish(p * b + a * q + m * p * q, a * b, m);
}

impl Exact for i64 {
    open spec fn from_int(x: int) -> Self {
        wrap(x)
    }

    open spec fn value(self) -> int {
        self as int
    }

    proof fn lemma_value(a: Self) {
    }

    proof fn lemma_nil() {
    }

    proof fn lemma_unit() {
    }

    proof fn lemma_of(n: i32) {
    }

    proof fn lemma_plus(x: int, y: int) {
        lemma_wrap_plus(x, y);
    }

    proof fn lemma_minus(x: int, y: int) {
        lemma_wrap_minus(x, y);
    }

    proof fn lemma_times(x: int, y: int) {
        lemma_wrap_times(x, y);
    }

    proof fn lemma_negated(x: int) {
    }

    proof fn lemma_over_unit(a: Self) {
    }

    proof fn lemma_root_unit() {
        lemma_floor_root_unique(1, 1);
    }

    proof fn lemma_equals(a: Self, b: Self) {
    }
}

/// What [`Exact`] says of single scalars and integers, said of all of them
/// at once.
pub proof fn lemma_exact<T: Exact>()
    ensures
        forall|a: T| T::from_int(#[trigger] a.value()) == a,
        T::nil() == T::from_int(0),
        T::unit() == T::from_int(1),
        forall|x: int, y: int|
            #[trigger] T::from_int(x).plus(T::from_int(y)) == T::from_int(x + y),
        forall|x: int, y: int|
            #[trigger] T::from_int(x).minus(T::from_int(y)) == T::from_int(x - y),
        forall|x: int, y: int|
            #[trigger] T::from_int(x).times(T::from_int(y)) == T::from_int(x * y),
        forall|x: int| #[trigger] T::from_int(x).negated() == T::from_int(-x),
{
    T::lemma_nil();
    T::lemma_unit();
    assert forall|a: T| T::from_int(#[trigger] a.value()) == a by {
        T::lemma_value(a);
    }
    assert forall|x: int, y: int|
        #[trigger] T::from_int(x).plus(T::from_int(y)) == T::from_int(x + y) by {
        T::lemma_plus(x, y);
    }
    assert forall|x: int, y: int|
        #[trigger] T::from_int(x).minus(T::from_int(y)) == T::from_int(x - y) by {
        T::lemma_minus(x, y);
    }
    assert forall|x: int, y: int|
        #[trigger] T::from_int(x).times(T::from_int(y)) == T::from_int(x * y) by {
        T::lemma_times(x, y);
    }
    assert forall|x: int| #[trigger] T::from_int(x).negated() == T::from_int(-x) by {
        T::lemma_negated(x);
    }
}

} // verus!
