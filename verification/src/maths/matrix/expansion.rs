//! Determinants of integer rows: what the laws of the matrices rest on.
//!
//! The determinants are written as the matrices compute them, expanded along
//! the first row. That a determinant changes its sign when two rows change
//! places, and that it is the determinant of the columns, is shown by
//! writing both sides out as sums of products of entries; the solver is led
//! through each step, one product at a time.

use vstd::prelude::*;

verus! {

/// A product distributes over a difference.
pub proof fn lemma_distribute2(x: int, p: int, q: int)
    ensures
        x * (p - q) == x * p - x * q,
{
    assert(x * (p - q) == x * p - x * q) by (nonlinear_arith);
}

/// A product distributes over a sum of three terms with the signs `+ - +`.
pub proof fn lemma_distribute3(x: int, p: int, q: int, r: int)
    ensures
        x * (p - q + r) == x * p - x * q + x * r,
{
    assert(x * (p - q + r) == x * p - x * q + x * r) by (nonlinear_arith);
}

/// A product distributes over a sum of six terms with the signs
/// `+ - - + + -`.
pub proof fn lemma_distribute6(x: int, a: int, b: int, c: int, d: int, e: int, f: int)
    ensures
        x * (a - b - c + d + e - f) == x * a - x * b - x * c + x * d + x * e - x * f,
{
    assert(x * (a - b - c + d + e - f) == x * a - x * b - x * c + x * d + x * e - x * f)
        by (nonlinear_arith);
}

/// The factors of a product change places.
pub proof fn lemma_commute(x: int, y: int)
    ensures
        x * y == y * x,
{
    assert(x * y == y * x) by (nonlinear_arith);
}

/// The two outer factors of a product of three change places.
pub proof fn lemma_swap_factors(a: int, b: int, q: int)
    ensures
        a * (b * q) == b * (a * q),
{
    assert(a * (b * q) == b * (a * q)) by (nonlinear_arith);
}

/// The signs of the factors move out of a product.
pub proof fn lemma_signs(x: int, y: int)
    ensures
        (-x) * y == -(x * y),
        x * (-y) == -(x * y),
        (-x) * (-y) == x * y,
{
    assert((-x) * y == -(x * y)) by (nonlinear_arith);
    assert(x * (-y) == -(x * y)) by (nonlinear_arith);
    assert((-x) * (-y) == x * y) by (nonlinear_arith);
}

/// A factor `-1` moves out of a product.
pub proof fn lemma_negate_factor(x: int, y: int)
    ensures
        x * (-1 * y) == -(x * y),
        x * (1 * y) == x * y,
{
    assert(x * (-1 * y) == -(x * y)) by (nonlinear_arith);
}

/// The determinant of the rows `(a, b)` and `(c, d)`.
pub open spec fn det2(a: int, b: int, c: int, d: int) -> int {
    a * d - b * c
}

/// The determinant of three rows of three integers, expanded along the
/// first row.
pub open spec fn det3(r0: (int, int, int), r1: (int, int, int), r2: (int, int, int)) -> int {
    r0.0 * det2(r1.1, r1.2, r2.1, r2.2)
        - r0.1 * det2(r1.0, r1.2, r2.0, r2.2)
        + r0.2 * det2(r1.0, r1.1, r2.0, r2.1)
}

/// The determinant changes its sign when the first two rows change places.
pub proof fn lemma_det3_swap_first(a: (int, int, int), b: (int, int, int), c: (int, int, int))
    ensures
        det3(b, a, c) == -det3(a, b, c),
{
    // Both determinants as sums of products of three entries.
    lemma_distribute2(a.0, b.1 * c.2, b.2 * c.1);
    lemma_distribute2(a.1, b.0 * c.2, b.2 * c.0);
    lemma_distribute2(a.2, b.0 * c.1, b.1 * c.0);
    lemma_distribute2(b.0, a.1 * c.2, a.2 * c.1);
    lemma_distribute2(b.1, a.0 * c.2, a.2 * c.0);
    lemma_distribute2(b.2, a.0 * c.1, a.1 * c.0);
    // The products of one side are those of the other, the entries of the
    // first two rows in the other order.
    lemma_swap_factors(a.0, b.1, c.2);
    lemma_swap_factors(a.0, b.2, c.1);
    lemma_swap_factors(a.1, b.0, c.2);
    lemma_swap_factors(a.1, b.2, c.0);
    lemma_swap_factors(a.2, b.0, c.1);
    lemma_swap_factors(a.2, b.1, c.0);
}

/// The determinant changes its sign when the last two rows change places.
pub proof fn lemma_det3_swap_last(a: (int, int, int), b: (int, int, int), c: (int, int, int))
    ensures
        det3(a, c, b) == -det3(a, b, c),
{
    assert(det2(c.1, c.2, b.1, b.2) == -det2(b.1, b.2, c.1, c.2)) by (nonlinear_arith);
    assert(det2(c.0, c.2, b.0, b.2) == -det2(b.0, b.2, c.0, c.2)) by (nonlinear_arith);
    assert(det2(c.0, c.1, b.0, b.1) == -det2(b.0, b.1, c.0, c.1)) by (nonlinear_arith);
    lemma_negate_factor(a.0, det2(b.1, b.2, c.1, c.2));
    lemma_negate_factor(a.1, det2(b.0, b.2, c.0, c.2));
    lemma_negate_factor(a.2, det2(b.0, b.1, c.0, c.1));
}

/// A determinant with two equal rows is zero.
pub proof fn lemma_det3_equal_rows(a: (int, int, int), b: (int, int, int))
    ensures
        det3(a, a, b) == 0,
        det3(a, b, a) == 0,
        det3(b, a, a) == 0,
{
    lemma_det3_swap_first(a, a, b);
    lemma_det3_swap_last(b, a, a);
    lemma_det3_swap_last(a, a, b);
}

/// The entries of the row `x`, each multiplied by the cofactor of its
/// column in one row of the rows `r0`, `r1` and `r2`, add up to a
/// determinant in which `x` has taken the place of that row.
pub proof fn lemma_cofactors3(
    x: (int, int, int),
    r0: (int, int, int),
    r1: (int, int, int),
    r2: (int, int, int),
)
    ensures
        x.0 * (1 * det2(r1.1, r1.2, r2.1, r2.2))
            + x.1 * (-1 * det2(r1.0, r1.2, r2.0, r2.2))
            + x.2 * (1 * det2(r1.0, r1.1, r2.0, r2.1))
            == det3(x, r1, r2),
        x.0 * (-1 * det2(r0.1, r0.2, r2.1, r2.2))
            + x.1 * (1 * det2(r0.0, r0.2, r2.0, r2.2))
            + x.2 * (-1 * det2(r0.0, r0.1, r2.0, r2.1))
            == det3(r0, x, r2),
        x.0 * (1 * det2(r0.1, r0.2, r1.1, r1.2))
            + x.1 * (-1 * det2(r0.0, r0.2, r1.0, r1.2))
            + x.2 * (1 * det2(r0.0, r0.1, r1.0, r1.1))
            == det3(r0, r1, x),
{
    lemma_negate_factor(x.1, det2(r1.0, r1.2, r2.0, r2.2));
    lemma_negate_factor(x.0, det2(r0.1, r0.2, r2.1, r2.2));
    lemma_negate_factor(x.2, det2(r0.0, r0.1, r2.0, r2.1));
    lemma_negate_factor(x.1, det2(r0.0, r0.2, r1.0, r1.2));
    lemma_det3_swap_first(x, r0, r2);
    lemma_det3_swap_first(x, r0, r1);
    lemma_det3_swap_last(r0, x, r1);
}

/// The row `r` without its entry of column 0.
pub open spec fn without0(r: (int, int, int, int)) -> (int, int, int) {
    (r.1, r.2, r.3)
}

/// The row `r` without its entry of column 1.
pub open spec fn without1(r: (int, int, int, int)) -> (int, int, int) {
    (r.0, r.2, r.3)
}

/// The row `r` without its entry of column 2.
pub open spec fn without2(r: (int, int, int, int)) -> (int, int, int) {
    (r.0, r.1, r.3)
}

/// The row `r` without its entry of column 3.
pub open spec fn without3(r: (int, int, int, int)) -> (int, int, int) {
    (r.0, r.1, r.2)
}

/// The determinant of four rows of four integers, expanded along the first
/// row.
pub open spec fn det4(
    r0: (int, int, int, int),
    r1: (int, int, int, int),
    r2: (int, int, int, int),
    r3: (int, int, int, int),
) -> int {
    r0.0 * det3(without0(r1), without0(r2), without0(r3))
        - r0.1 * det3(without1(r1), without1(r2), without1(r3))
        + r0.2 * det3(without2(r1), without2(r2), without2(r3))
        - r0.3 * det3(without3(r1), without3(r2), without3(r3))
}

/// The determinant changes its sign when the first two rows change places.
pub proof fn lemma_det4_swap_first(
    a: (int, int, int, int),
    b: (int, int, int, int),
    c: (int, int, int, int),
    d: (int, int, int, int),
)
    ensures
        det4(b, a, c, d) == -det4(a, b, c, d),
{
    // Both determinants as sums of products of an entry of the first row, an
    // entry of the second and a determinant of the last two rows.
    lemma_distribute3(
        a.0,
        b.1 * det2(c.2, c.3, d.2, d.3),
        b.2 * det2(c.1, c.3, d.1, d.3),
        b.3 * det2(c.1, c.2, d.1, d.2),
    );
    lemma_distribute3(
        a.1,
        b.0 * det2(c.2, c.3, d.2, d.3),
        b.2 * det2(c.0, c.3, d.0, d.3),
        b.3 * det2(c.0, c.2, d.0, d.2),
    );
    lemma_distribute3(
        a.2,
        b.0 * det2(c.1, c.3, d.1, d.3),
        b.1 * det2(c.0, c.3, d.0, d.3),
        b.3 * det2(c.0, c.1, d.0, d.1),
    );
    lemma_distribute3(
        a.3,
        b.0 * det2(c.1, c.2, d.1, d.2),
        b.1 * det2(c.0, c.2, d.0, d.2),
        b.2 * det2(c.0, c.1, d.0, d.1),
    );
    lemma_distribute3(
        b.0,
        a.1 * det2(c.2, c.3, d.2, d.3),
        a.2 * det2(c.1, c.3, d.1, d.3),
        a.3 * det2(c.1, c.2, d.1, d.2),
    );
    lemma_distribute3(
        b.1,
        a.0 * det2(c.2, c.3, d.2, d.3),
        a.2 * det2(c.0, c.3, d.0, d.3),
        a.3 * det2(c.0, c.2, d.0, d.2),
    );
    lemma_distribute3(
        b.2,
        a.0 * det2(c.1, c.3, d.1, d.3),
        a.1 * det2(c.0, c.3, d.0, d.3),
        a.3 * det2(c.0, c.1, d.0, d.1),
    );
    lemma_distribute3(
        b.3,
        a.0 * det2(c.1, c.2, d.1, d.2),
        a.1 * det2(c.0, c.2, d.0, d.2),
        a.2 * det2(c.0, c.1, d.0, d.1),
    );
    // The products of one side are those of the other, the entries of the
    // first two rows in the other order.
    lemma_swap_factors(a.0, b.1, det2(c.2, c.3, d.2, d.3));
    lemma_swap_factors(a.0, b.2, det2(c.1, c.3, d.1, d.3));
    lemma_swap_factors(a.0, b.3, det2(c.1, c.2, d.1, d.2));
    lemma_swap_factors(a.1, b.0, det2(c.2, c.3, d.2, d.3));
    lemma_swap_factors(a.1, b.2, det2(c.0, c.3, d.0, d.3));
    lemma_swap_factors(a.1, b.3, det2(c.0, c.2, d.0, d.2));
    lemma_swap_factors(a.2, b.0, det2(c.1, c.3, d.1, d.3));
    lemma_swap_factors(a.2, b.1, det2(c.0, c.3, d.0, d.3));
    lemma_swap_factors(a.2, b.3, det2(c.0, c.1, d.0, d.1));
    lemma_swap_factors(a.3, b.0, det2(c.1, c.2, d.1, d.2));
    lemma_swap_factors(a.3, b.1, det2(c.0, c.2, d.0, d.2));
    lemma_swap_factors(a.3, b.2, det2(c.0, c.1, d.0, d.1));
}

/// The determinant changes its sign when the two middle rows change places.
pub proof fn lemma_det4_swap_middle(
    a: (int, int, int, int),
    b: (int, int, int, int),
    c: (int, int, int, int),
    d: (int, int, int, int),
)
    ensures
        det4(a, c, b, d) == -det4(a, b, c, d),
{
    lemma_det3_swap_first(without0(b), without0(c), without0(d));
    lemma_det3_swap_first(without1(b), without1(c), without1(d));
    lemma_det3_swap_first(without2(b), without2(c), without2(d));
    lemma_det3_swap_first(without3(b), without3(c), without3(d));
    lemma_negate_factor(a.0, det3(without0(b), without0(c), without0(d)));
    lemma_negate_factor(a.1, det3(without1(b), without1(c), without1(d)));
    lemma_negate_factor(a.2, det3(without2(b), without2(c), without2(d)));
    lemma_negate_factor(a.3, det3(without3(b), without3(c), without3(d)));
}

/// The determinant changes its sign when the last two rows change places.
pub proof fn lemma_det4_swap_last(
    a: (int, int, int, int),
    b: (int, int, int, int),
    c: (int, int, int, int),
    d: (int, int, int, int),
)
    ensures
        det4(a, b, d, c) == -det4(a, b, c, d),
{
    lemma_det3_swap_last(without0(b), without0(c), without0(d));
    lemma_det3_swap_last(without1(b), without1(c), without1(d));
    lemma_det3_swap_last(without2(b), without2(c), without2(d));
    lemma_det3_swap_last(without3(b), without3(c), without3(d));
    lemma_negate_factor(a.0, det3(without0(b), without0(c), without0(d)));
    lemma_negate_factor(a.1, det3(without1(b), without1(c), without1(d)));
    lemma_negate_factor(a.2, det3(without2(b), without2(c), without2(d)));
    lemma_negate_factor(a.3, det3(without3(b), without3(c), without3(d)));
}

/// A determinant in which the row `a` stands twice is zero, whatever the
/// other two rows `b` and `c` are and wherever the four rows stand.
pub proof fn lemma_det4_equal_rows(
    a: (int, int, int, int),
    b: (int, int, int, int),
    c: (int, int, int, int),
)
    ensures
        det4(a, a, b, c) == 0,
        det4(a, b, a, c) == 0,
        det4(a, b, c, a) == 0,
        det4(b, a, a, c) == 0,
        det4(b, a, c, a) == 0,
        det4(b, c, a, a) == 0,
{
    lemma_det4_swap_first(a, a, b, c);
    lemma_det4_swap_middle(a, a, b, c);
    lemma_det4_swap_last(a, b, a, c);
    lemma_det4_swap_middle(b, a, a, c);
    lemma_det4_swap_last(b, a, a, c);
    lemma_det4_swap_last(b, c, a, a);
}

/// The entries of the row `x`, each multiplied by the cofactor of its
/// column in one row of the rows `r0` to `r3`, add up to a determinant in
/// which `x` has taken the place of that row.
pub proof fn lemma_cofactors4(
    x: (int, int, int, int),
    r0: (int, int, int, int),
    r1: (int, int, int, int),
    r2: (int, int, int, int),
    r3: (int, int, int, int),
)
    ensures
        x.0 * (1 * det3(without0(r1), without0(r2), without0(r3)))
            + x.1 * (-1 * det3(without1(r1), without1(r2), without1(r3)))
            + x.2 * (1 * det3(without2(r1), without2(r2), without2(r3)))
            + x.3 * (-1 * det3(without3(r1), without3(r2), without3(r3)))
            == det4(x, r1, r2, r3),
        x.0 * (-1 * det3(without0(r0), without0(r2), without0(r3)))
            + x.1 * (1 * det3(without1(r0), without1(r2), without1(r3)))
            + x.2 * (-1 * det3(without2(r0), without2(r2), without2(r3)))
            + x.3 * (1 * det3(without3(r0), without3(r2), without3(r3)))
            == det4(r0, x, r2, r3),
        x.0 * (1 * det3(without0(r0), without0(r1), without0(r3)))
            + x.1 * (-1 * det3(without1(r0), without1(r1), without1(r3)))
            + x.2 * (1 * det3(without2(r0), without2(r1), without2(r3)))
            + x.3 * (-1 * det3(without3(r0), without3(r1), without3(r3)))
            == det4(r0, r1, x, r3),
        x.0 * (-1 * det3(without0(r0), without0(r1), without0(r2)))
            + x.1 * (1 * det3(without1(r0), without1(r1), without1(r2)))
            + x.2 * (-1 * det3(without2(r0), without2(r1), without2(r2)))
            + x.3 * (1 * det3(without3(r0), without3(r1), without3(r2)))
            == det4(r0, r1, r2, x),
{
    lemma_negate_factor(x.0, det3(without0(r1), without0(r2), without0(r3)));
    lemma_negate_factor(x.1, det3(without1(r1), without1(r2), without1(r3)));
    lemma_negate_factor(x.2, det3(without2(r1), without2(r2), without2(r3)));
    lemma_negate_factor(x.3, det3(without3(r1), without3(r2), without3(r3)));
    lemma_negate_factor(x.0, det3(without0(r0), without0(r2), without0(r3)));
    lemma_negate_factor(x.1, det3(without1(r0), without1(r2), without1(r3)));
    lemma_negate_factor(x.2, det3(without2(r0), without2(r2), without2(r3)));
    lemma_negate_factor(x.3, det3(without3(r0), without3(r2), without3(r3)));
    lemma_negate_factor(x.0, det3(without0(r0), without0(r1), without0(r3)));
    lemma_negate_factor(x.1, det3(without1(r0), without1(r1), without1(r3)));
    lemma_negate_factor(x.2, det3(without2(r0), without2(r1), without2(r3)));
    lemma_negate_factor(x.3, det3(without3(r0), without3(r1), without3(r3)));
    lemma_negate_factor(x.0, det3(without0(r0), without0(r1), without0(r2)));
    lemma_negate_factor(x.1, det3(without1(r0), without1(r1), without1(r2)));
    lemma_negate_factor(x.2, det3(without2(r0), without2(r1), without2(r2)));
    lemma_negate_factor(x.3, det3(without3(r0), without3(r1), without3(r2)));
    lemma_det4_swap_first(x, r0, r2, r3);
    lemma_det4_swap_first(x, r0, r1, r3);
    lemma_det4_swap_middle(r0, x, r1, r3);
    lemma_det4_swap_first(x, r0, r1, r2);
    lemma_det4_swap_middle(r0, x, r1, r2);
    lemma_det4_swap_last(r0, r1, x, r2);
}

/// The columns of three rows, as rows.
pub open spec fn transposed3(
    r0: (int, int, int),
    r1: (int, int, int),
    r2: (int, int, int),
) -> ((int, int, int), (int, int, int), (int, int, int)) {
    ((r0.0, r1.0, r2.0), (r0.1, r1.1, r2.1), (r0.2, r1.2, r2.2))
}

/// The determinant of the columns is the determinant of the rows.
pub proof fn lemma_det3_transposed(r0: (int, int, int), r1: (int, int, int), r2: (int, int, int))
    ensures
        ({
            let t = transposed3(r0, r1, r2);
            det3(t.0, t.1, t.2) == det3(r0, r1, r2)
        }),
{
    // The determinant of the rows as a sum of products of three entries, one of
    // each row and each column; then the determinant of the columns.
    lemma_distribute2(r0.0, r1.1 * r2.2, r1.2 * r2.1);
    lemma_distribute2(r0.1, r1.0 * r2.2, r1.2 * r2.0);
    lemma_distribute2(r0.2, r1.0 * r2.1, r1.1 * r2.0);
    lemma_distribute2(r0.0, r1.1 * r2.2, r2.1 * r1.2);
    lemma_distribute2(r1.0, r0.1 * r2.2, r2.1 * r0.2);
    lemma_distribute2(r2.0, r0.1 * r1.2, r1.1 * r0.2);
    // The products of the columns are those of the rows, the entries in
    // another order.
    assert(r0.0 * (r2.1 * r1.2) == r0.0 * (r1.2 * r2.1)) by (nonlinear_arith);
    assert(r1.0 * (r0.1 * r2.2) == r0.1 * (r1.0 * r2.2)) by (nonlinear_arith);
    assert(r2.0 * (r0.1 * r1.2) == r0.1 * (r1.2 * r2.0)) by (nonlinear_arith);
    assert(r1.0 * (r2.1 * r0.2) == r0.2 * (r1.0 * r2.1)) by (nonlinear_arith);
    assert(r2.0 * (r1.1 * r0.2) == r0.2 * (r1.1 * r2.0)) by (nonlinear_arith);
}

/// The columns of four rows, as rows.
pub open spec fn transposed4(
    r0: (int, int, int, int),
    r1: (int, int, int, int),
    r2: (int, int, int, int),
    r3: (int, int, int, int),
) -> ((int, int, int, int), (int, int, int, int), (int, int, int, int), (int, int, int, int)) {
    (
        (r0.0, r1.0, r2.0, r3.0),
        (r0.1, r1.1, r2.1, r3.1),
        (r0.2, r1.2, r2.2, r3.2),
        (r0.3, r1.3, r2.3, r3.3),
    )
}

/// The determinant of the columns is the determinant of the rows.
pub proof fn lemma_det4_transposed(
    r0: (int, int, int, int),
    r1: (int, int, int, int),
    r2: (int, int, int, int),
    r3: (int, int, int, int),
)
    ensures
        ({
            let t = transposed4(r0, r1, r2, r3);
            det4(t.0, t.1, t.2, t.3) == det4(r0, r1, r2, r3)
        }),
{
    // The determinant of the rows as a sum of products of four entries, one of
    // each row and each column; then the determinant of the columns.
    lemma_distribute2(r1.1, r2.2 * r3.3, r2.3 * r3.2);
    lemma_distribute2(r1.2, r2.1 * r3.3, r2.3 * r3.1);
    lemma_distribute2(r1.3, r2.1 * r3.2, r2.2 * r3.1);
    lemma_distribute6(
        r0.0,
        r1.1 * (r2.2 * r3.3),
        r1.1 * (r2.3 * r3.2),
        r1.2 * (r2.1 * r3.3),
        r1.2 * (r2.3 * r3.1),
        r1.3 * (r2.1 * r3.2),
        r1.3 * (r2.2 * r3.1),
    );
    lemma_distribute2(r1.0, r2.2 * r3.3, r2.3 * r3.2);
    lemma_distribute2(r1.2, r2.0 * r3.3, r2.3 * r3.0);
    lemma_distribute2(r1.3, r2.0 * r3.2, r2.2 * r3.0);
    lemma_distribute6(
        r0.1,
        r1.0 * (r2.2 * r3.3),
        r1.0 * (r2.3 * r3.2),
        r1.2 * (r2.0 * r3.3),
        r1.2 * (r2.3 * r3.0),
        r1.3 * (r2.0 * r3.2),
        r1.3 * (r2.2 * r3.0),
    );
    lemma_distribute2(r1.0, r2.1 * r3.3, r2.3 * r3.1);
    lemma_distribute2(r1.1, r2.0 * r3.3, r2.3 * r3.0);
    lemma_distribute2(r1.3, r2.0 * r3.1, r2.1 * r3.0);
    lemma_distribute6(
        r0.2,
        r1.0 * (r2.1 * r3.3),
        r1.0 * (r2.3 * r3.1),
        r1.1 * (r2.0 * r3.3),
        r1.1 * (r2.3 * r3.0),
        r1.3 * (r2.0 * r3.1),
        r1.3 * (r2.1 * r3.0),
    );
    lemma_distribute2(r1.0, r2.1 * r3.2, r2.2 * r3.1);
    lemma_distribute2(r1.1, r2.0 * r3.2, r2.2 * r3.0);
    lemma_distribute2(r1.2, r2.0 * r3.1, r2.1 * r3.0);
    lemma_distribute6(
        r0.3,
        r1.0 * (r2.1 * r3.2),
        r1.0 * (r2.2 * r3.1),
        r1.1 * (r2.0 * r3.2),
        r1.1 * (r2.2 * r3.0),
        r1.2 * (r2.0 * r3.1),
        r1.2 * (r2.1 * r3.0),
    );
    lemma_distribute2(r1.1, r2.2 * r3.3, r3.2 * r2.3);
    lemma_distribute2(r2.1, r1.2 * r3.3, r3.2 * r1.3);
    lemma_distribute2(r3.1, r1.2 * r2.3, r2.2 * r1.3);
    lemma_distribute6(
        r0.0,
        r1.1 * (r2.2 * r3.3),
        r1.1 * (r3.2 * r2.3),
        r2.1 * (r1.2 * r3.3),
        r2.1 * (r3.2 * r1.3),
        r3.1 * (r1.2 * r2.3),
        r3.1 * (r2.2 * r1.3),
    );
    lemma_distribute2(r0.1, r2.2 * r3.3, r3.2 * r2.3);
    lemma_distribute2(r2.1, r0.2 * r3.3, r3.2 * r0.3);
    lemma_distribute2(r3.1, r0.2 * r2.3, r2.2 * r0.3);
    lemma_distribute6(
        r1.0,
        r0.1 * (r2.2 * r3.3),
        r0.1 * (r3.2 * r2.3),
        r2.1 * (r0.2 * r3.3),
        r2.1 * (r3.2 * r0.3),
        r3.1 * (r0.2 * r2.3),
        r3.1 * (r2.2 * r0.3),
    );
    lemma_distribute2(r0.1, r1.2 * r3.3, r3.2 * r1.3);
    lemma_distribute2(r1.1, r0.2 * r3.3, r3.2 * r0.3);
    lemma_distribute2(r3.1, r0.2 * r1.3, r1.2 * r0.3);
    lemma_distribute6(
        r2.0,
        r0.1 * (r1.2 * r3.3),
        r0.1 * (r3.2 * r1.3),
        r1.1 * (r0.2 * r3.3),
        r1.1 * (r3.2 * r0.3),
        r3.1 * (r0.2 * r1.3),
        r3.1 * (r1.2 * r0.3),
    );
    lemma_distribute2(r0.1, r1.2 * r2.3, r2.2 * r1.3);
    lemma_distribute2(r1.1, r0.2 * r2.3, r2.2 * r0.3);
    lemma_distribute2(r2.1, r0.2 * r1.3, r1.2 * r0.3);
    lemma_distribute6(
        r3.0,
        r0.1 * (r1.2 * r2.3),
        r0.1 * (r2.2 * r1.3),
        r1.1 * (r0.2 * r2.3),
        r1.1 * (r2.2 * r0.3),
        r2.1 * (r0.2 * r1.3),
        r2.1 * (r1.2 * r0.3),
    );
    // The products of the columns are those of the rows, the entries in
    // another order.
    assert(r0.0 * (r1.1 * (r3.2 * r2.3)) == r0.0 * (r1.1 * (r2.3 * r3.2))) by (nonlinear_arith);
    assert(r0.0 * (r2.1 * (r1.2 * r3.3)) == r0.0 * (r1.2 * (r2.1 * r3.3))) by (nonlinear_arith);
    assert(r0.0 * (r3.1 * (r1.2 * r2.3)) == r0.0 * (r1.2 * (r2.3 * r3.1))) by (nonlinear_arith);
    assert(r0.0 * (r2.1 * (r3.2 * r1.3)) == r0.0 * (r1.3 * (r2.1 * r3.2))) by (nonlinear_arith);
    assert(r0.0 * (r3.1 * (r2.2 * r1.3)) == r0.0 * (r1.3 * (r2.2 * r3.1))) by (nonlinear_arith);
    assert(r1.0 * (r0.1 * (r2.2 * r3.3)) == r0.1 * (r1.0 * (r2.2 * r3.3))) by (nonlinear_arith);
    assert(r1.0 * (r0.1 * (r3.2 * r2.3)) == r0.1 * (r1.0 * (r2.3 * r3.2))) by (nonlinear_arith);
    assert(r2.0 * (r0.1 * (r1.2 * r3.3)) == r0.1 * (r1.2 * (r2.0 * r3.3))) by (nonlinear_arith);
    assert(r3.0 * (r0.1 * (r1.2 * r2.3)) == r0.1 * (r1.2 * (r2.3 * r3.0))) by (nonlinear_arith);
    assert(r2.0 * (r0.1 * (r3.2 * r1.3)) == r0.1 * (r1.3 * (r2.0 * r3.2))) by (nonlinear_arith);
    assert(r3.0 * (r0.1 * (r2.2 * r1.3)) == r0.1 * (r1.3 * (r2.2 * r3.0))) by (nonlinear_arith);
    assert(r1.0 * (r2.1 * (r0.2 * r3.3)) == r0.2 * (r1.0 * (r2.1 * r3.3))) by (nonlinear_arith);
    assert(r1.0 * (r3.1 * (r0.2 * r2.3)) == r0.2 * (r1.0 * (r2.3 * r3.1))) by (nonlinear_arith);
    assert(r2.0 * (r1.1 * (r0.2 * r3.3)) == r0.2 * (r1.1 * (r2.0 * r3.3))) by (nonlinear_arith);
    assert(r3.0 * (r1.1 * (r0.2 * r2.3)) == r0.2 * (r1.1 * (r2.3 * r3.0))) by (nonlinear_arith);
    assert(r2.0 * (r3.1 * (r0.2 * r1.3)) == r0.2 * (r1.3 * (r2.0 * r3.1))) by (nonlinear_arith);
    assert(r3.0 * (r2.1 * (r0.2 * r1.3)) == r0.2 * (r1.3 * (r2.1 * r3.0))) by (nonlinear_arith);
    assert(r1.0 * (r2.1 * (r3.2 * r0.3)) == r0.3 * (r1.0 * (r2.1 * r3.2))) by (nonlinear_arith);
    assert(r1.0 * (r3.1 * (r2.2 * r0.3)) == r0.3 * (r1.0 * (r2.2 * r3.1))) by (nonlinear_arith);
    assert(r2.0 * (r1.1 * (r3.2 * r0.3)) == r0.3 * (r1.1 * (r2.0 * r3.2))) by (nonlinear_arith);
    assert(r3.0 * (r1.1 * (r2.2 * r0.3)) == r0.3 * (r1.1 * (r2.2 * r3.0))) by (nonlinear_arith);
    assert(r2.0 * (r3.1 * (r1.2 * r0.3)) == r0.3 * (r1.2 * (r2.0 * r3.1))) by (nonlinear_arith);
    assert(r3.0 * (r2.1 * (r1.2 * r0.3)) == r0.3 * (r1.2 * (r2.1 * r3.0))) by (nonlinear_arith);
}

/// A determinant of two rows is the determinant of its columns.
pub proof fn lemma_det2_transposed(a: int, b: int, c: int, d: int)
    ensures
        det2(a, c, b, d) == det2(a, b, c, d),
{
}

/// The entries of the column `y`, each multiplied by the cofactor of its
/// row in one column of the rows `r0`, `r1` and `r2`, add up to a
/// determinant in which `y` has taken the place of that column: the
/// determinant of the columns, with `y` among them.
pub proof fn lemma_cofactors3_columns(
    y: (int, int, int),
    r0: (int, int, int),
    r1: (int, int, int),
    r2: (int, int, int),
)
    ensures
        ({
            let t = transposed3(r0, r1, r2);
            &&& (1 * det2(r1.1, r1.2, r2.1, r2.2)) * y.0
                + (-1 * det2(r0.1, r0.2, r2.1, r2.2)) * y.1
                + (1 * det2(r0.1, r0.2, r1.1, r1.2)) * y.2
                == det3(y, t.1, t.2)
            &&& (-1 * det2(r1.0, r1.2, r2.0, r2.2)) * y.0
                + (1 * det2(r0.0, r0.2, r2.0, r2.2)) * y.1
                + (-1 * det2(r0.0, r0.2, r1.0, r1.2)) * y.2
                == det3(t.0, y, t.2)
            &&& (1 * det2(r1.0, r1.1, r2.0, r2.1)) * y.0
                + (-1 * det2(r0.0, r0.1, r2.0, r2.1)) * y.1
                + (1 * det2(r0.0, r0.1, r1.0, r1.1)) * y.2
                == det3(t.0, t.1, y)
        }),
{
    let t = transposed3(r0, r1, r2);
    lemma_det2_transposed(r1.1, r1.2, r2.1, r2.2);
    lemma_commute(1 * det2(r1.1, r1.2, r2.1, r2.2), y.0);
    lemma_det2_transposed(r0.1, r0.2, r2.1, r2.2);
    lemma_commute(-1 * det2(r0.1, r0.2, r2.1, r2.2), y.1);
    lemma_det2_transposed(r0.1, r0.2, r1.1, r1.2);
    lemma_commute(1 * det2(r0.1, r0.2, r1.1, r1.2), y.2);
    lemma_det2_transposed(r1.0, r1.2, r2.0, r2.2);
    lemma_commute(-1 * det2(r1.0, r1.2, r2.0, r2.2), y.0);
    lemma_det2_transposed(r0.0, r0.2, r2.0, r2.2);
    lemma_commute(1 * det2(r0.0, r0.2, r2.0, r2.2), y.1);
    lemma_det2_transposed(r0.0, r0.2, r1.0, r1.2);
    lemma_commute(-1 * det2(r0.0, r0.2, r1.0, r1.2), y.2);
    lemma_det2_transposed(r1.0, r1.1, r2.0, r2.1);
    lemma_commute(1 * det2(r1.0, r1.1, r2.0, r2.1), y.0);
    lemma_det2_transposed(r0.0, r0.1, r2.0, r2.1);
    lemma_commute(-1 * det2(r0.0, r0.1, r2.0, r2.1), y.1);
    lemma_det2_transposed(r0.0, r0.1, r1.0, r1.1);
    lemma_commute(1 * det2(r0.0, r0.1, r1.0, r1.1), y.2);
    lemma_cofactors3(y, t.0, t.1, t.2);
}

/// The entries of the column `y`, each multiplied by the cofactor of its
/// row in one column of the rows `r0` to `r3`, add up to a determinant in
/// which `y` has taken the place of that column: the determinant of the
/// columns, with `y` among them.
pub proof fn lemma_cofactors4_columns(
    y: (int, int, int, int),
    r0: (int, int, int, int),
    r1: (int, int, int, int),
    r2: (int, int, int, int),
    r3: (int, int, int, int),
)
    ensures
        ({
            let t = transposed4(r0, r1, r2, r3);
            &&& (1 * det3(without0(r1), without0(r2), without0(r3))) * y.0
                + (-1 * det3(without0(r0), without0(r2), without0(r3))) * y.1
                + (1 * det3(without0(r0), without0(r1), without0(r3))) * y.2
                + (-1 * det3(without0(r0), without0(r1), without0(r2))) * y.3
                == det4(y, t.1, t.2, t.3)
            &&& (-1 * det3(without1(r1), without1(r2), without1(r3))) * y.0
                + (1 * det3(without1(r0), without1(r2), without1(r3))) * y.1
                + (-1 * det3(without1(r0), without1(r1), without1(r3))) * y.2
                + (1 * det3(without1(r0), without1(r1), without1(r2))) * y.3
                == det4(t.0, y, t.2, t.3)
            &&& (1 * det3(without2(r1), without2(r2), without2(r3))) * y.0
                + (-1 * det3(without2(r0), without2(r2), without2(r3))) * y.1
                + (1 * det3(without2(r0), without2(r1), without2(r3))) * y.2
                + (-1 * det3(without2(r0), without2(r1), without2(r2))) * y.3
                == det4(t.0, t.1, y, t.3)
            &&& (-1 * det3(without3(r1), without3(r2), without3(r3))) * y.0
                + (1 * det3(without3(r0), without3(r2), without3(r3))) * y.1
                + (-1 * det3(without3(r0), without3(r1), without3(r3))) * y.2
                + (1 * det3(without3(r0), without3(r1), without3(r2))) * y.3
                == det4(t.0, t.1, t.2, y)
        }),
{
    let t = transposed4(r0, r1, r2, r3);
    lemma_det3_transposed(without0(r1), without0(r2), without0(r3));
    lemma_commute(1 * det3(without0(r1), without0(r2), without0(r3)), y.0);
    lemma_det3_transposed(without0(r0), without0(r2), without0(r3));
    lemma_commute(-1 * det3(without0(r0), without0(r2), without0(r3)), y.1);
    lemma_det3_transposed(without0(r0), without0(r1), without0(r3));
    lemma_commute(1 * det3(without0(r0), without0(r1), without0(r3)), y.2);
    lemma_det3_transposed(without0(r0), without0(r1), without0(r2));
    lemma_commute(-1 * det3(without0(r0), without0(r1), without0(r2)), y.3);
    lemma_det3_transposed(without1(r1), without1(r2), without1(r3));
    lemma_commute(-1 * det3(without1(r1), without1(r2), without1(r3)), y.0);
    lemma_det3_transposed(without1(r0), without1(r2), without1(r3));
    lemma_commute(1 * det3(without1(r0), without1(r2), without1(r3)), y.1);
    lemma_det3_transposed(without1(r0), without1(r1), without1(r3));
    lemma_commute(-1 * det3(without1(r0), without1(r1), without1(r3)), y.2);
    lemma_det3_transposed(without1(r0), without1(r1), without1(r2));
    lemma_commute(1 * det3(without1(r0), without1(r1), without1(r2)), y.3);
    lemma_det3_transposed(without2(r1), without2(r2), without2(r3));
    lemma_commute(1 * det3(without2(r1), without2(r2), without2(r3)), y.0);
    lemma_det3_transposed(without2(r0), without2(r2), without2(r3));
    lemma_commute(-1 * det3(without2(r0), without2(r2), without2(r3)), y.1);
    lemma_det3_transposed(without2(r0), without2(r1), without2(r3));
    lemma_commute(1 * det3(without2(r0), without2(r1), without2(r3)), y.2);
    lemma_det3_transposed(without2(r0), without2(r1), without2(r2));
    lemma_commute(-1 * det3(without2(r0), without2(r1), without2(r2)), y.3);
    lemma_det3_transposed(without3(r1), without3(r2), without3(r3));
    lemma_commute(-1 * det3(without3(r1), without3(r2), without3(r3)), y.0);
    lemma_det3_transposed(without3(r0), without3(r2), without3(r3));
    lemma_commute(1 * det3(without3(r0), without3(r2), without3(r3)), y.1);
    lemma_det3_transposed(without3(r0), without3(r1), without3(r3));
    lemma_commute(-1 * det3(without3(r0), without3(r1), without3(r3)), y.2);
    lemma_det3_transposed(without3(r0), without3(r1), without3(r2));
    lemma_commute(1 * det3(without3(r0), without3(r1), without3(r2)), y.3);
    lemma_cofactors4(y, t.0, t.1, t.2, t.3);
}

} // verus!
