//! The exact scalar: `i64` with wrapping arithmetic, the integers modulo 2^64.

use vstd::prelude::*;
use crate::maths::scalar::Scalar;

verus! {

/// The integer in the range of `i64` that differs from `x` by a multiple of
/// 2^64.
pub open spec fn wrap(x: int) -> i64 {
    let r = x % 0x1_0000_0000_0000_0000;
    if r > i64::MAX {
        (r - 0x1_0000_0000_0000_0000) as i64
    } else {
        r as i64
    }
}

/// The quotient of `a` by `b` rounded toward zero, and zero where `b` is
/// zero.
pub open spec fn quotient(a: int, b: int) -> int {
    if b == 0 {
        0
    } else if a >= 0 && b > 0 {
        a / b
    } else if a < 0 && b < 0 {
        (-a) / (-b)
    } else if a < 0 {
        -((-a) / b)
    } else {
        -(a / (-b))
    }
}

/// The largest integer whose square is at most `x`, and zero where `x` is
/// negative.
pub open spec fn floor_root(x: int) -> int
    decreases x,
{
    if x <= 0 {
        0
    } else {
        let r = floor_root(x - 1);
        if (r + 1) * (r + 1) <= x {
            r + 1
        } else {
            r
        }
    }
}

/// `floor_root(x)` is not negative, and `x` lies between its square and the
/// next square.
pub proof fn lemma_floor_root_bounds(x: int)
    ensures
        0 <= floor_root(x),
        x >= 0 ==> floor_root(x) * floor_root(x) <= x < (floor_root(x) + 1) * (floor_root(x) + 1),
    decreases x,
{
    if x > 0 {
        lemma_floor_root_bounds(x - 1);
        let r = floor_root(x - 1);
        assert((r + 1) * (r + 1) == r * r + 2 * r + 1) by (nonlinear_arith);
        assert((r + 2) * (r + 2) == (r + 1) * (r + 1) + 2 * r + 3) by (nonlinear_arith);
    }
}

/// Only one number that is not negative has `x` between its square and the
/// next square.
pub proof fn lemma_floor_root_unique(x: int, r: int)
    requires
        0 <= r,
        r * r <= x < (r + 1) * (r + 1),
    ensures
        r == floor_root(x),
{
    lemma_floor_root_bounds(x);
    let s = floor_root(x);
    if r < s {
        assert((r + 1) * (r + 1) <= s * s) by (nonlinear_arith)
            requires
                0 <= r,
                r + 1 <= s,
        ;
    } else if s < r {
        assert((s + 1) * (s + 1) <= r * r) by (nonlinear_arith)
            requires
                0 <= s,
                s + 1 <= r,
        ;
    }
}

/// The largest `r` with `r * r <= x`, found by bisection.
fn integer_root(x: i64) -> (r: i64)
    requires
        0 <= x,
    ensures
        r == floor_root(x as int),
{
    let mut lo: i64 = 0;
    let mut hi: i64 = 3037000500;
    while hi - lo > 1
        invariant
            0 <= lo < hi <= 3037000500,
            lo * lo <= x < hi * hi,
        decreases hi - lo,
    {
        let mid: i64 = lo + (hi - lo) / 2;
        assert(mid * mid <= 3037000499 * 3037000499) by (nonlinear_arith)
            requires
                0 <= mid <= 3037000499,
        ;
        if mid * mid <= x {
            lo = mid;
        } else {
            hi = mid;
        }
    }
    proof {
        lemma_floor_root_unique(x as int, lo as int);
    }
    lo
}

impl Scalar for i64 {
    open spec fn nil() -> Self {
        0
    }

    open spec fn unit() -> Self {
        1
    }

    open spec fn of(n: i32) -> Self {
        n as i64
    }

    open spec fn plus(self, rhs: Self) -> Self {
        wrap(self + rhs)
    }

    open spec fn minus(self, rhs: Self) -> Self {
        wrap(self - rhs)
    }

    open spec fn times(self, rhs: Self) -> Self {
        wrap(self * rhs)
    }

    open spec fn over(self, rhs: Self) -> Self {
        wrap(quotient(self as int, rhs as int))
    }

    open spec fn negated(self) -> Self {
        wrap(-self)
    }

    open spec fn root(self) -> Self {
        floor_root(self as int) as i64
    }

    open spec fn equals(self, rhs: Self) -> bool {
        self == rhs
    }

    fn zero() -> (r: Self) {
        0
    }

    fn one() -> (r: Self) {
        1
    }

    fn from_i32(n: i32) -> (r: Self) {
        n as i64
    }

    fn add(self, rhs: Self) -> (r: Self) {
        self.wrapping_add(rhs)
    }

    fn sub(self, rhs: Self) -> (r: Self) {
        self.wrapping_sub(rhs)
    }

    fn mul(self, rhs: Self) -> (r: Self) {
        self.wrapping_mul(rhs)
    }

    fn div(self, rhs: Self) -> (r: Self) {
        match self.checked_div(rhs) {
            Some(q) => q,
            None => if rhs == 0 {
                0
            } else {
                self
            },
        }
    }

    fn neg(self) -> (r: Self) {
        0i64.wrapping_sub(self)
    }

    fn sqrt(self) -> (r: Self) {
        if self <= 0 {
            0
        } else {
            integer_root(self)
        }
    }

    fn eq(self, rhs: Self) -> (r: bool) {
        self == rhs
    }
}

} // verus!
