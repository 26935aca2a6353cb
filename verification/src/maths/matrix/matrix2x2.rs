//! Matrices of two rows and two columns.

use vstd::prelude::*;
use vstd::std_specs::cmp::PartialEqSpecImpl;
use vstd::std_specs::convert::FromSpecImpl;
use vstd::std_specs::ops::{AddSpecImpl, DivSpecImpl, MulSpecImpl, SubSpecImpl};
use std::ops::{Add, Div, Index, Mul, Sub};
use crate::maths::complex::complex::Complex;
use crate::maths::exact::{lemma_exact, Exact};
use crate::maths::matrix::{skip, InverseMatrixError};
use crate::maths::scalar::{sign, sign_spec, Scalar};
use crate::maths::vector::vector2d::Vector2D;

verus! {

/// A matrix of two rows and two columns, stored row by row: the entry of
/// row `r` and column `c` is `data[2 * r + c]`.
#[derive(Debug)]
pub struct Matrix2x2<T> {
    pub data: [T; 4],
}

impl<T: Copy> Copy for Matrix2x2<T> {
}

impl<T: Copy> Clone for Matrix2x2<T> {
    fn clone(&self) -> (r: Self)
        ensures
            r == *self,
    {
        *self
    }
}

impl<T: Scalar> Matrix2x2<T> {
    /// The entry of row `row` and column `col`.
    pub open spec fn at(self, row: int, col: int) -> T {
        self.data[2 * row + col]
    }

    /// The matrix whose entry of row `r` and column `c` is `f(r, c)`.
    pub open spec fn build(f: spec_fn(int, int) -> T) -> Self {
        Matrix2x2 { data: [f(0, 0), f(0, 1), f(1, 0), f(1, 1)] }
    }

    /// The entry of row `row` and column `col` of `build(f)` is
    /// `f(row, col)`.
    pub proof fn lemma_build(f: spec_fn(int, int) -> T, row: int, col: int)
        requires
            0 <= row < 2,
            0 <= col < 2,
        ensures
            Self::build(f).at(row, col) == f(row, col),
    {
    }

    /// The first `n` places of `data`, counted row by row, hold the values
    /// of `f`.
    pub open spec fn filled(data: [T; 4], n: int, f: spec_fn(int, int) -> T) -> bool {
        forall|k: int| 0 <= k < n ==> #[trigger] data[k] == f(k / 2, k % 2)
    }

    /// A matrix whose every place holds the value of `f` is `build(f)`.
    pub proof fn lemma_filled(data: [T; 4], f: spec_fn(int, int) -> T)
        requires
            Self::filled(data, 4, f),
        ensures
            (Matrix2x2 { data }) == Self::build(f),
    {
        let built = Self::build(f);
        assert forall|k: int| 0 <= k < 4 implies data[k] == built.data[k] by {
            assert(data[k] == f(k / 2, k % 2));
        }
        assert(data =~= built.data);
    }

    /// The matrix of zeros.
    pub open spec fn zeros_spec() -> Self {
        Self::build(|r: int, c: int| T::nil())
    }

    /// The matrix of ones.
    pub open spec fn ones_spec() -> Self {
        Self::build(|r: int, c: int| T::unit())
    }

    /// The matrix with `value` on the diagonal and zero elsewhere.
    pub open spec fn diagonal_spec(value: T) -> Self {
        Self::build(
            |r: int, c: int|
                if r == c {
                    value
                } else {
                    T::nil()
                },
        )
    }

    /// The identity matrix: one on the diagonal and zero elsewhere.
    pub open spec fn identity_spec() -> Self {
        Self::diagonal_spec(T::unit())
    }

    /// The transpose: the entry of row `r` and column `c` is the entry of
    /// row `c` and column `r` of `self`.
    pub open spec fn transpose_spec(self) -> Self {
        Self::build(|r: int, c: int| self.at(c, r))
    }

    /// The minor of the place `pos`: the one entry that is left when the
    /// row `pos.0` and the column `pos.1` are struck out. The minor of a
    /// matrix of this size is a scalar.
    pub open spec fn minor_spec(self, pos: (int, int)) -> T {
        self.at(skip(0, pos.0), skip(0, pos.1))
    }

    /// The cofactor of the place of row `row` and column `col`: the minor
    /// of that place multiplied, from the left, by the sign
    /// `(-1)^(row + col)`.
    #[verifier::opaque]
    pub open spec fn cofactor_at_spec(self, row: int, col: int) -> T {
        sign_spec::<T>(row + col).times(self.minor_spec((row, col)))
    }

    /// The matrix of cofactors: the entry of each place is the cofactor of
    /// that place.
    pub open spec fn cofactor_spec(self) -> Self {
        Self::build(|r: int, c: int| self.cofactor_at_spec(r, c))
    }

    /// The adjugate: the transpose of the matrix of cofactors.
    pub open spec fn adjugate_spec(self) -> Self {
        self.cofactor_spec().transpose_spec()
    }

    /// The determinant, expanded along the first row:
    /// `m00 * m11 - m01 * m10`.
    pub open spec fn determinant_spec(self) -> T {
        self.at(0, 0).times(self.minor_spec((0, 0))).minus(
            self.at(0, 1).times(self.minor_spec((0, 1))),
        )
    }

    /// The column `i` from top to bottom.
    pub open spec fn col_spec(self, i: int) -> Vector2D<T> {
        Vector2D { x: self.at(0, i), y: self.at(1, i) }
    }

    /// The row `i` from left to right.
    pub open spec fn row_spec(self, i: int) -> Vector2D<T> {
        Vector2D { x: self.at(i, 0), y: self.at(i, 1) }
    }

    /// The matrix with the columns `first` and `second`.
    pub open spec fn from_columns_spec(first: Vector2D<T>, second: Vector2D<T>) -> Self {
        Matrix2x2 { data: [first.x, second.x, first.y, second.y] }
    }

    /// The entry-wise sum.
    pub open spec fn add_spec(self, rhs: Self) -> Self {
        Self::build(|r: int, c: int| self.at(r, c).plus(rhs.at(r, c)))
    }

    /// The entry-wise difference.
    pub open spec fn sub_spec(self, rhs: Self) -> Self {
        Self::build(|r: int, c: int| self.at(r, c).minus(rhs.at(r, c)))
    }

    /// Each entry multiplied by `s`, the scalar on the right.
    pub open spec fn scale_spec(self, s: T) -> Self {
        Self::build(|r: int, c: int| self.at(r, c).times(s))
    }

    /// Each entry multiplied by `s`, the scalar on the left.
    pub open spec fn scale_left_spec(s: T, m: Self) -> Self {
        Self::build(|r: int, c: int| s.times(m.at(r, c)))
    }

    /// Each entry divided by `s`.
    pub open spec fn div_spec(self, s: T) -> Self {
        Self::build(|r: int, c: int| self.at(r, c).over(s))
    }

    /// The product with the column vector `v`: the columns of the matrix,
    /// each multiplied by the component of `v` of its place, added from the
    /// left.
    pub open spec fn apply_spec(self, v: Vector2D<T>) -> Vector2D<T> {
        self.col_spec(0).scale_spec(v.x).add_spec(self.col_spec(1).scale_spec(v.y))
    }

    /// The matrix product: column `c` of the product is `self` applied to
    /// column `c` of `rhs`.
    pub open spec fn mul_spec(self, rhs: Self) -> Self {
        Self::from_columns_spec(
            self.apply_spec(rhs.col_spec(0)),
            self.apply_spec(rhs.col_spec(1)),
        )
    }

    /// Whether each pair of entries compares equal.
    pub open spec fn eq_spec(self, rhs: Self) -> bool {
        forall|k: int| 0 <= k < 4 ==> (#[trigger] self.data[k]).equals(rhs.data[k])
    }

    /// The matrix of zeros.
    pub fn zeros() -> (r: Matrix2x2<T>)
        ensures
            r == Self::zeros_spec(),
    {
        let r = Matrix2x2 { data: [T::zero(), T::zero(), T::zero(), T::zero()] };
        assert(r.data =~= Self::zeros_spec().data);
        r
    }

    /// The matrix of ones.
    pub fn ones() -> (r: Matrix2x2<T>)
        ensures
            r == Self::ones_spec(),
    {
        let r = Matrix2x2 { data: [T::one(), T::one(), T::one(), T::one()] };
        assert(r.data =~= Self::ones_spec().data);
        r
    }

    /// The matrix with `value` on the diagonal and zero elsewhere.
    pub fn diagonal(value: T) -> (r: Matrix2x2<T>)
        ensures
            r == Self::diagonal_spec(value),
    {
        let r = Matrix2x2 { data: [value, T::zero(), T::zero(), value] };
        assert(r.data =~= Self::diagonal_spec(value).data);
        r
    }

    /// The identity matrix.
    pub fn identity() -> (r: Matrix2x2<T>)
        ensures
            r == Self::identity_spec(),
    {
        Matrix2x2::diagonal(T::one())
    }

    /// The transpose.
    pub fn transpose(&self) -> (r: Matrix2x2<T>)
        ensures
            r == self.transpose_spec(),
    {
        let r = Matrix2x2 { data: [self.data[0], self.data[2], self.data[1], self.data[3]] };
        assert(r.data =~= self.transpose_spec().data);
        r
    }

    /// The minor of the place `pos`.
    pub fn minor(&self, pos: (usize, usize)) -> (r: T)
        requires
            pos.0 < 2,
            pos.1 < 2,
        ensures
            r == self.minor_spec((pos.0 as int, pos.1 as int)),
    {
        let mut data = T::zero();

        for i in 0usize..2
            invariant
                pos.0 < 2,
                pos.1 < 2,
                i > skip(0, pos.0 as int) ==> data == self.minor_spec((pos.0 as int, pos.1 as int)),
        {
            if i != pos.0 {
                for j in 0usize..2
                    invariant
                        i < 2,
                        i == skip(0, pos.0 as int),
                        pos.1 < 2,
                        j > skip(0, pos.1 as int) ==> data == self.minor_spec(
                            (pos.0 as int, pos.1 as int),
                        ),
                {
                    if j != pos.1 {
                        data = self[(i, j)];
                    }
                }
            }
        }

        data
    }

    /// The cofactor of the place `pos`.
    fn cofactor_at(&self, pos: (usize, usize)) -> (r: T)
        requires
            pos.0 < 2,
            pos.1 < 2,
        ensures
            r == self.cofactor_at_spec(pos.0 as int, pos.1 as int),
    {
        reveal(Matrix2x2::cofactor_at_spec);
        sign::<T>(pos.0 + pos.1).mul(self.minor(pos))
    }

    /// The matrix of cofactors.
    pub fn cofactor(&self) -> (r: Matrix2x2<T>)
        ensures
            r == self.cofactor_spec(),
    {
        let mut data: [T; 4] = [T::zero(), T::zero(), T::zero(), T::zero()];
        let ghost f = |r: int, c: int| self.cofactor_at_spec(r, c);

        for i in 0usize..2
            invariant
                forall|r: int, c: int| #[trigger] f(r, c) == self.cofactor_at_spec(r, c),
                Self::filled(data, 2 * i, f),
        {
            for j in 0usize..2
                invariant
                    i < 2,
                    forall|r: int, c: int| #[trigger] f(r, c) == self.cofactor_at_spec(r, c),
                    Self::filled(data, 2 * i + j, f),
            {
                data[i * 2 + j] = self.cofactor_at((i, j));
            }
        }

        proof {
            Self::lemma_filled(data, f);
        }
        Matrix2x2::from(data)
    }

    /// The adjugate.
    pub fn adjugate(&self) -> (r: Matrix2x2<T>)
        ensures
            r == self.adjugate_spec(),
    {
        self.cofactor().transpose()
    }

    /// The determinant.
    pub fn determinant(&self) -> (r: T)
        ensures
            r == self.determinant_spec(),
    {
        self[(0, 0)].mul(self.minor((0, 0))).sub(self[(0, 1)].mul(self.minor((0, 1))))
    }

    /// The inverse: the adjugate divided by the determinant. A matrix whose
    /// determinant compares equal to zero has none; any other determinant,
    /// however small, is divided by.
    pub fn inverse(&self) -> (r: Result<Matrix2x2<T>, InverseMatrixError<'static>>)
        ensures
            r is Err <==> self.determinant_spec().equals(T::nil()),
            r matches Ok(m) ==> m == self.adjugate_spec().div_spec(self.determinant_spec()),
            r matches Err(e) ==> e@ == "Matrix has no inverse"@,
    {
        let determinant = self.determinant();

        if determinant.eq(T::zero()) {
            return Err(InverseMatrixError("Matrix has no inverse"));
        }

        Ok(self.adjugate() / determinant)
    }

    /// The column `i`.
    pub fn col(&self, i: usize) -> (r: Vector2D<T>)
        requires
            i < 2,
        ensures
            r == self.col_spec(i as int),
    {
        Vector2D::from((self[(0, i)], self[(1, i)]))
    }

    /// The row `i`.
    pub fn row(&self, i: usize) -> (r: Vector2D<T>)
        requires
            i < 2,
        ensures
            r == self.row_spec(i as int),
    {
        Vector2D::from((self.data[2 * i], self.data[2 * i + 1]))
    }

    /// The product `s * m` with the scalar on the left.
    pub fn scale_left(s: T, m: Self) -> (r: Self)
        ensures
            r == Self::scale_left_spec(s, m),
    {
        let mut data = [T::zero(), T::zero(), T::zero(), T::zero()];
        let ghost f = |r: int, c: int| s.times(m.at(r, c));

        for i in 0usize..2
            invariant
                forall|r: int, c: int| #[trigger] f(r, c) == s.times(m.at(r, c)),
                Self::filled(data, 2 * i, f),
        {
            for j in 0usize..2
                invariant
                    i < 2,
                    forall|r: int, c: int| #[trigger] f(r, c) == s.times(m.at(r, c)),
                    Self::filled(data, 2 * i + j, f),
            {
                data[i * 2 + j] = s.mul(m[(i, j)]);
            }
        }

        proof {
            Self::lemma_filled(data, f);
        }
        Matrix2x2::from(data)
    }
}

impl<T: Scalar> AddSpecImpl for Matrix2x2<T> {
    open spec fn obeys_add_spec() -> bool {
        true
    }

    open spec fn add_req(self, rhs: Self) -> bool {
        true
    }

    open spec fn add_spec(self, rhs: Self) -> Self {
        Matrix2x2::add_spec(self, rhs)
    }
}

impl<T: Scalar> Add for Matrix2x2<T> {
    type Output = Matrix2x2<T>;

    /// The entry-wise sum.
    fn add(self, rhs: Self) -> (r: Matrix2x2<T>)
        ensures
            r == self.add_spec(rhs),
    {
        let mut data = [T::zero(), T::zero(), T::zero(), T::zero()];
        let ghost f = |r: int, c: int| self.at(r, c).plus(rhs.at(r, c));

        for i in 0usize..2
            invariant
                forall|r: int, c: int| #[trigger] f(r, c) == self.at(r, c).plus(rhs.at(r, c)),
                Self::filled(data, 2 * i, f),
        {
            for j in 0usize..2
                invariant
                    i < 2,
                    forall|r: int, c: int| #[trigger] f(r, c) == self.at(r, c).plus(rhs.at(r, c)),
                    Self::filled(data, 2 * i + j, f),
            {
                data[i * 2 + j] = self[(i, j)].add(rhs[(i, j)]);
            }
        }

        proof {
            Self::lemma_filled(data, f);
        }
        Matrix2x2::from(data)
    }
}

impl<T: Scalar> SubSpecImpl for Matrix2x2<T> {
    open spec fn obeys_sub_spec() -> bool {
        true
    }

    open spec fn sub_req(self, rhs: Self) -> bool {
        true
    }

    open spec fn sub_spec(self, rhs: Self) -> Self {
        Matrix2x2::sub_spec(self, rhs)
    }
}

impl<T: Scalar> Sub for Matrix2x2<T> {
    type Output = Matrix2x2<T>;

    /// The entry-wise difference.
    fn sub(self, rhs: Self) -> (r: Matrix2x2<T>)
        ensures
            r == self.sub_spec(rhs),
    {
        let mut data = [T::zero(), T::zero(), T::zero(), T::zero()];
        let ghost f = |r: int, c: int| self.at(r, c).minus(rhs.at(r, c));

        for i in 0usize..2
            invariant
                forall|r: int, c: int| #[trigger] f(r, c) == self.at(r, c).minus(rhs.at(r, c)),
                Self::filled(data, 2 * i, f),
        {
            for j in 0usize..2
                invariant
                    i < 2,
                    forall|r: int, c: int| #[trigger] f(r, c) == self.at(r, c).minus(rhs.at(r, c)),
                    Self::filled(data, 2 * i + j, f),
            {
                data[i * 2 + j] = self[(i, j)].sub(rhs[(i, j)]);
            }
        }

        proof {
            Self::lemma_filled(data, f);
        }
        Matrix2x2::from(data)
    }
}

impl<T: Scalar> MulSpecImpl<Matrix2x2<T>> for Matrix2x2<T> {
    open spec fn obeys_mul_spec() -> bool {
        true
    }

    open spec fn mul_req(self, rhs: Self) -> bool {
        true
    }

    open spec fn mul_spec(self, rhs: Self) -> Self {
        Matrix2x2::mul_spec(self, rhs)
    }
}

impl<T: Scalar> Mul<Matrix2x2<T>> for Matrix2x2<T> {
    type Output = Matrix2x2<T>;

    /// The matrix product, `self` on the left.
    fn mul(self, rhs: Self) -> (r: Matrix2x2<T>)
        ensures
            r == Matrix2x2::mul_spec(self, rhs),
    {
        Matrix2x2::from((self * rhs.col(0), self * rhs.col(1)))
    }
}

impl<T: Scalar> MulSpecImpl<T> for Matrix2x2<T> {
    open spec fn obeys_mul_spec() -> bool {
        true
    }

    open spec fn mul_req(self, rhs: T) -> bool {
        true
    }

    open spec fn mul_spec(self, rhs: T) -> Self {
        self.scale_spec(rhs)
    }
}

impl<T: Scalar> Mul<T> for Matrix2x2<T> {
    type Output = Matrix2x2<T>;

    /// The product `m * s` with the scalar on the right.
    fn mul(self, rhs: T) -> (r: Matrix2x2<T>)
        ensures
            r == self.scale_spec(rhs),
    {
        let mut data = [T::zero(), T::zero(), T::zero(), T::zero()];
        let ghost f = |r: int, c: int| self.at(r, c).times(rhs);

        for i in 0usize..2
            invariant
                forall|r: int, c: int| #[trigger] f(r, c) == self.at(r, c).times(rhs),
                Self::filled(data, 2 * i, f),
        {
            for j in 0usize..2
                invariant
                    i < 2,
                    forall|r: int, c: int| #[trigger] f(r, c) == self.at(r, c).times(rhs),
                    Self::filled(data, 2 * i + j, f),
            {
                data[i * 2 + j] = self[(i, j)].mul(rhs);
            }
        }

        proof {
            Self::lemma_filled(data, f);
        }
        Matrix2x2::from(data)
    }
}

impl<T: Scalar> MulSpecImpl<Vector2D<T>> for Matrix2x2<T> {
    open spec fn obeys_mul_spec() -> bool {
        true
    }

    open spec fn mul_req(self, rhs: Vector2D<T>) -> bool {
        true
    }

    open spec fn mul_spec(self, rhs: Vector2D<T>) -> Vector2D<T> {
        self.apply_spec(rhs)
    }
}

impl<T: Scalar> Mul<Vector2D<T>> for Matrix2x2<T> {
    type Output = Vector2D<T>;

    /// The product with a column vector.
    fn mul(self, rhs: Vector2D<T>) -> (r: Vector2D<T>)
        ensures
            r == self.apply_spec(rhs),
    {
        self.col(0) * rhs.x() + self.col(1) * rhs.y()
    }
}

impl<T: Scalar> DivSpecImpl<T> for Matrix2x2<T> {
    open spec fn obeys_div_spec() -> bool {
        true
    }

    open spec fn div_req(self, rhs: T) -> bool {
        true
    }

    open spec fn div_spec(self, rhs: T) -> Self {
        Matrix2x2::div_spec(self, rhs)
    }
}

impl<T: Scalar> Div<T> for Matrix2x2<T> {
    type Output = Matrix2x2<T>;

    /// The quotient `m / s`, entry by entry.
    fn div(self, rhs: T) -> (r: Matrix2x2<T>)
        ensures
            r == Matrix2x2::div_spec(self, rhs),
    {
        let mut data = [T::zero(), T::zero(), T::zero(), T::zero()];
        let ghost f = |r: int, c: int| self.at(r, c).over(rhs);

        for i in 0usize..2
            invariant
                forall|r: int, c: int| #[trigger] f(r, c) == self.at(r, c).over(rhs),
                Self::filled(data, 2 * i, f),
        {
            for j in 0usize..2
                invariant
                    i < 2,
                    forall|r: int, c: int| #[trigger] f(r, c) == self.at(r, c).over(rhs),
                    Self::filled(data, 2 * i + j, f),
            {
                data[i * 2 + j] = self[(i, j)].div(rhs);
            }
        }

        proof {
            Self::lemma_filled(data, f);
        }
        Matrix2x2::from(data)
    }
}

impl<T: Scalar> PartialEqSpecImpl for Matrix2x2<T> {
    open spec fn obeys_eq_spec() -> bool {
        true
    }

    open spec fn eq_spec(&self, rhs: &Self) -> bool {
        Matrix2x2::eq_spec(*self, *rhs)
    }
}

impl<T: Scalar> PartialEq for Matrix2x2<T> {
    /// Whether each pair of entries compares equal.
    fn eq(&self, rhs: &Self) -> (r: bool)
        ensures
            r == Matrix2x2::eq_spec(*self, *rhs),
    {
        for i in 0usize..4
            invariant
                forall|k: int| 0 <= k < i ==> (#[trigger] self.data[k]).equals(rhs.data[k]),
        {
            if !self.data[i].eq(rhs.data[i]) {
                return false;
            }
        }

        true
    }
}

impl<T: Scalar> FromSpecImpl<[T; 4]> for Matrix2x2<T> {
    open spec fn obeys_from_spec() -> bool {
        true
    }

    open spec fn from_spec(data: [T; 4]) -> Self {
        Matrix2x2 { data }
    }
}

impl<T: Scalar> From<[T; 4]> for Matrix2x2<T> {
    /// The matrix with the entries of `data`, read row by row.
    fn from(data: [T; 4]) -> (r: Matrix2x2<T>)
        ensures
            r == (Matrix2x2 { data }),
    {
        Matrix2x2 { data }
    }
}

impl<T: Scalar> FromSpecImpl<(Vector2D<T>, Vector2D<T>)> for Matrix2x2<T> {
    open spec fn obeys_from_spec() -> bool {
        true
    }

    open spec fn from_spec(input: (Vector2D<T>, Vector2D<T>)) -> Self {
        Matrix2x2::from_columns_spec(input.0, input.1)
    }
}

impl<T: Scalar> From<(Vector2D<T>, Vector2D<T>)> for Matrix2x2<T> {
    /// The matrix whose columns are the two vectors, in their order.
    fn from(input: (Vector2D<T>, Vector2D<T>)) -> (r: Matrix2x2<T>)
        ensures
            r == Matrix2x2::from_columns_spec(input.0, input.1),
    {
        Matrix2x2 { data: [input.0.x(), input.1.x(), input.0.y(), input.1.y()] }
    }
}

impl<T: Scalar> Matrix2x2<T> {
    /// The matrix of the complex number `(real, imaginary)`, with the rows
    /// `(real, -imaginary)` and `(imaginary, real)`.
    pub open spec fn from_complex_spec(input: Complex<T>) -> Self {
        Matrix2x2 {
            data: [input.real, input.imaginary.negated(), input.imaginary, input.real],
        }
    }
}

impl<T: Scalar> FromSpecImpl<Complex<T>> for Matrix2x2<T> {
    open spec fn obeys_from_spec() -> bool {
        true
    }

    open spec fn from_spec(input: Complex<T>) -> Self {
        Matrix2x2::from_complex_spec(input)
    }
}

impl<T: Scalar> From<Complex<T>> for Matrix2x2<T> {
    /// The rotation and scaling that the complex number stands for.
    fn from(input: Complex<T>) -> (r: Matrix2x2<T>)
        ensures
            r == Matrix2x2::from_complex_spec(input),
    {
        Matrix2x2 {
            data: [
                input.real_part(),
                input.imaginary().neg(),
                input.imaginary(),
                input.real_part(),
            ],
        }
    }
}

impl<T: Scalar> vstd::std_specs::core::IndexSpecImpl<(usize, usize)> for Matrix2x2<T> {
    /// An index names a place of the matrix: both parts are below two.
    open spec fn index_req(&self, idx: &(usize, usize)) -> bool {
        idx.0 < 2 && idx.1 < 2
    }
}

impl<T: Scalar> Index<(usize, usize)> for Matrix2x2<T> {
    type Output = T;

    /// The entry of row `idx.0` and column `idx.1`.
    fn index(&self, idx: (usize, usize)) -> (r: &T)
        ensures
            *r == self.at(idx.0 as int, idx.1 as int),
    {
        &self.data[idx.1 + 2 * idx.0]
    }
}

/// Each entry of a matrix stands for its value.
pub proof fn lemma_entries<T: Exact>(m: Matrix2x2<T>)
    ensures
        forall|k: int| 0 <= k < 4 ==> #[trigger] m.data[k] == T::from_int(m.data[k].value()),
{
    lemma_exact::<T>();
}

/// Transposing twice gives the matrix back.
pub proof fn lemma_transpose_twice<T: Scalar>(m: Matrix2x2<T>)
    ensures
        m.transpose_spec().transpose_spec() == m,
{
    assert(m.transpose_spec().transpose_spec().data =~= m.data);
}

/// The identity matrix is neutral for the matrix product, on the right and
/// on the left: `m * identity == m` and `identity * m == m`.
pub proof fn lemma_identity_neutral<T: Exact>(m: Matrix2x2<T>)
    ensures
        m.mul_spec(Matrix2x2::identity_spec()) == m,
        Matrix2x2::<T>::identity_spec().mul_spec(m) == m,
{
    lemma_exact::<T>();
    lemma_entries(m);
    assert(m.mul_spec(Matrix2x2::identity_spec()).data =~= m.data);
    assert(Matrix2x2::<T>::identity_spec().mul_spec(m).data =~= m.data);
}

/// A scalar multiplies a matrix alike from the left and from the right:
/// `s * m == m * s`.
pub proof fn lemma_scale_commutes<T: Exact>(s: T, m: Matrix2x2<T>)
    ensures
        Matrix2x2::scale_left_spec(s, m) == m.scale_spec(s),
{
    lemma_exact::<T>();
    lemma_entries(m);
    assert forall|k: int| 0 <= k < 4 implies s.times(#[trigger] m.data[k]) == m.data[k].times(
        s,
    ) by {
        assert(s.value() * m.data[k].value() == m.data[k].value() * s.value())
            by (nonlinear_arith);
    }
    assert(Matrix2x2::scale_left_spec(s, m).data =~= m.scale_spec(s).data);
}

/// The product of a matrix with its adjugate, on either side, is the
/// determinant on the diagonal and zero elsewhere:
/// `m * m.adjugate() == diagonal(m.determinant())`, and the same with the
/// adjugate on the left. This is what makes the adjugate divided by the
/// determinant the inverse.
pub proof fn lemma_adjugate_product<T: Exact>(m: Matrix2x2<T>)
    ensures
        m.mul_spec(m.adjugate_spec()) == Matrix2x2::diagonal_spec(m.determinant_spec()),
        m.adjugate_spec().mul_spec(m) == Matrix2x2::diagonal_spec(m.determinant_spec()),
{
    reveal(Matrix2x2::cofactor_at_spec);
    lemma_exact::<T>();
    lemma_entries(m);
    let (a, b) = (m.data[0].value(), m.data[1].value());
    let (c, d) = (m.data[2].value(), m.data[3].value());
    assert(a * (1 * d) + b * (-1 * c) == a * d - b * c) by (nonlinear_arith);
    assert(a * (-1 * b) + b * (1 * a) == 0) by (nonlinear_arith);
    assert(c * (1 * d) + d * (-1 * c) == 0) by (nonlinear_arith);
    assert(c * (-1 * b) + d * (1 * a) == a * d - b * c) by (nonlinear_arith);
    assert((1 * d) * a + (-1 * b) * c == a * d - b * c) by (nonlinear_arith);
    assert((1 * d) * b + (-1 * b) * d == 0) by (nonlinear_arith);
    assert((-1 * c) * a + (1 * a) * c == 0) by (nonlinear_arith);
    assert((-1 * c) * b + (1 * a) * d == a * d - b * c) by (nonlinear_arith);
    assert(m.mul_spec(m.adjugate_spec()).data =~= Matrix2x2::diagonal_spec(
        m.determinant_spec(),
    ).data);
    assert(m.adjugate_spec().mul_spec(m).data =~= Matrix2x2::diagonal_spec(
        m.determinant_spec(),
    ).data);
}

/// A matrix whose determinant is one has an inverse in exact arithmetic:
/// its product with what [`Matrix2x2::inverse`] returns is the identity, on
/// either side.
pub proof fn lemma_inverse_of_unit_determinant<T: Exact>(m: Matrix2x2<T>)
    requires
        m.determinant_spec() == T::unit(),
    ensures
        m.mul_spec(m.adjugate_spec().div_spec(m.determinant_spec()))
            == Matrix2x2::<T>::identity_spec(),
        m.adjugate_spec().div_spec(m.determinant_spec()).mul_spec(m)
            == Matrix2x2::<T>::identity_spec(),
{
    lemma_adjugate_product(m);
    let adjugate = m.adjugate_spec();
    assert forall|k: int| 0 <= k < 4 implies (#[trigger] adjugate.data[k]).over(T::unit())
        == adjugate.data[k] by {
        T::lemma_over_unit(adjugate.data[k]);
    }
    assert(adjugate.div_spec(T::unit()).data =~= adjugate.data);
}

/// In exact arithmetic two matrices compare equal exactly when they are the
/// same.
pub proof fn lemma_eq<T: Exact>(a: Matrix2x2<T>, b: Matrix2x2<T>)
    ensures
        a.eq_spec(b) <==> a == b,
{
    assert forall|k: int| 0 <= k < 4 implies ((#[trigger] a.data[k]).equals(b.data[k])
        <==> a.data[k] == b.data[k]) by {
        T::lemma_equals(a.data[k], b.data[k]);
    }
    if a.eq_spec(b) {
        assert(a.data =~= b.data);
    }
}

/// The matrices of complex numbers multiply as the complex numbers do: the
/// matrix of `z * w` is the product of the matrix of `z` with the matrix of
/// `w`.
pub proof fn lemma_complex_product<T: Exact>(z: Complex<T>, w: Complex<T>)
    ensures
        Matrix2x2::from_complex_spec(z).mul_spec(Matrix2x2::from_complex_spec(w))
            == Matrix2x2::from_complex_spec(z.mul_spec(w)),
{
    lemma_exact::<T>();
    let (a, b) = (z.real.value(), z.imaginary.value());
    let (c, d) = (w.real.value(), w.imaginary.value());
    assert(a * c + (-b) * d == a * c - b * d) by (nonlinear_arith);
    assert(a * (-d) + (-b) * c == -(a * d + b * c)) by (nonlinear_arith);
    assert(b * c + a * d == a * d + b * c) by (nonlinear_arith);
    assert(b * (-d) + a * c == a * c - b * d) by (nonlinear_arith);
    assert(Matrix2x2::from_complex_spec(z).mul_spec(Matrix2x2::from_complex_spec(w)).data
        =~= Matrix2x2::from_complex_spec(z.mul_spec(w)).data);
}

} // verus!
