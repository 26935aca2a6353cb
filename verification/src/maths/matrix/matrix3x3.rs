//! Matrices of three rows and three columns.

use vstd::prelude::*;
use vstd::std_specs::cmp::PartialEqSpecImpl;
use vstd::std_specs::convert::FromSpecImpl;
use vstd::std_specs::ops::{AddSpecImpl, DivSpecImpl, MulSpecImpl, SubSpecImpl};
use std::ops::{Add, Div, Index, Mul, Sub};
use crate::maths::exact::{lemma_exact, Exact};
use crate::maths::matrix::expansion::{
    det3, lemma_cofactors3, lemma_cofactors3_columns, lemma_det3_equal_rows,
    lemma_det3_transposed,
};
use crate::maths::matrix::matrix2x2::Matrix2x2;
use crate::maths::matrix::{kept, skip, InverseMatrixError};
use crate::maths::scalar::{sign, sign_spec, Scalar};
use crate::maths::vector::vector3d::Vector3D;

verus! {

/// A matrix of three rows and three columns, stored row by row: the entry
/// of row `r` and column `c` is `data[3 * r + c]`.
#[derive(Debug)]
pub struct Matrix3x3<T> {
    pub data: [T; 9],
}

impl<T: Copy> Copy for Matrix3x3<T> {
}

impl<T: Copy> Clone for Matrix3x3<T> {
    fn clone(&self) -> (r: Self)
        ensures
            r == *self,
    {
        *self
    }
}

impl<T: Scalar> Matrix3x3<T> {
    /// The entry of row `row` and column `col`.
    pub open spec fn at(self, row: int, col: int) -> T {
        self.data[3 * row + col]
    }

    /// The matrix whose entry of row `r` and column `c` is `f(r, c)`.
    pub open spec fn build(f: spec_fn(int, int) -> T) -> Self {
        Matrix3x3 {
            data: [
                f(0, 0), f(0, 1), f(0, 2),
                f(1, 0), f(1, 1), f(1, 2),
                f(2, 0), f(2, 1), f(2, 2),
            ],
        }
    }

    /// The entry of row `row` and column `col` of `build(f)` is
    /// `f(row, col)`.
    pub proof fn lemma_build(f: spec_fn(int, int) -> T, row: int, col: int)
        requires
            0 <= row < 3,
            0 <= col < 3,
        ensures
            Self::build(f).at(row, col) == f(row, col),
    {
    }

    /// The first `n` places of `data`, counted row by row, hold the values
    /// of `f`.
    pub open spec fn filled(data: [T; 9], n: int, f: spec_fn(int, int) -> T) -> bool {
        forall|k: int| 0 <= k < n ==> #[trigger] data[k] == f(k / 3, k % 3)
    }

    /// A matrix whose every place holds the value of `f` is `build(f)`.
    pub proof fn lemma_filled(data: [T; 9], f: spec_fn(int, int) -> T)
        requires
            Self::filled(data, 9, f),
        ensures
            (Matrix3x3 { data }) == Self::build(f),
    {
        let built = Self::build(f);
        assert forall|k: int| 0 <= k < 9 implies data[k] == built.data[k] by {
            assert(data[k] == f(k / 3, k % 3));
        }
        assert(data =~= built.data);
    }

    /// The matrix of zeros.
    pub open spec fn zeros_spec() -> Self {
        Self::build(|r: int, c: int| T::nil())
    }

    /// The matrix of ones.
    pub open spec fn ones_spec() -> Self {
        Self::build(|r: int, c: int| T::unit())
    }

    /// The matrix with `value` on the diagonal and zero elsewhere.
    pub open spec fn diagonal_spec(value: T) -> Self {
        Self::build(
            |r: int, c: int|
                if r == c {
                    value
                } else {
                    T::nil()
                },
        )
    }

    /// The identity matrix: one on the diagonal and zero elsewhere.
    pub open spec fn identity_spec() -> Self {
        Self::diagonal_spec(T::unit())
    }

    /// The transpose: the entry of row `r` and column `c` is the entry of
    /// row `c` and column `r` of `self`.
    pub open spec fn transpose_spec(self) -> Self {
        Self::build(|r: int, c: int| self.at(c, r))
    }

    /// The minor of the place `pos`: the matrix that is left when the row
    /// `pos.0` and the column `pos.1` are struck out.
    pub open spec fn minor_spec(self, pos: (int, int)) -> Matrix2x2<T> {
        Matrix2x2::build(|r: int, c: int| self.at(skip(r, pos.0), skip(c, pos.1)))
    }

    /// The cofactor of the place of row `row` and column `col`: the
    /// determinant of the minor of that place multiplied, from the left, by
    /// the sign `(-1)^(row + col)`.
    #[verifier::opaque]
    pub open spec fn cofactor_at_spec(self, row: int, col: int) -> T {
        sign_spec::<T>(row + col).times(self.minor_spec((row, col)).determinant_spec())
    }

    /// The matrix of cofactors: the entry of each place is the cofactor of
    /// that place.
    pub open spec fn cofactor_spec(self) -> Self {
        Self::build(|r: int, c: int| self.cofactor_at_spec(r, c))
    }

    /// The adjugate: the transpose of the matrix of cofactors.
    pub open spec fn adjugate_spec(self) -> Self {
        self.cofactor_spec().transpose_spec()
    }

    /// The term of column `c` in the expansion of the determinant along the
    /// first row, without its sign: the entry times the determinant of its
    /// minor.
    pub open spec fn term_spec(self, c: int) -> T {
        self.at(0, c).times(self.minor_spec((0, c)).determinant_spec())
    }

    /// The determinant, expanded along the first row: the terms of the
    /// three columns with the signs `+ - +`, evaluated from the left.
    pub open spec fn determinant_spec(self) -> T {
        self.term_spec(0).minus(self.term_spec(1)).plus(self.term_spec(2))
    }

    /// The column `i` from top to bottom.
    pub open spec fn col_spec(self, i: int) -> Vector3D<T> {
        Vector3D { x: self.at(0, i), y: self.at(1, i), z: self.at(2, i) }
    }

    /// The row `i` from left to right.
    pub open spec fn row_spec(self, i: int) -> Vector3D<T> {
        Vector3D { x: self.at(i, 0), y: self.at(i, 1), z: self.at(i, 2) }
    }

    /// The matrix with the given columns, from left to right.
    pub open spec fn from_columns_spec(
        first: Vector3D<T>,
        second: Vector3D<T>,
        third: Vector3D<T>,
    ) -> Self {
        Matrix3x3 {
            data: [
                first.x, second.x, third.x,
                first.y, second.y, third.y,
                first.z, second.z, third.z,
            ],
        }
    }

    /// The entry-wise sum.
    pub open spec fn add_spec(self, rhs: Self) -> Self {
        Self::build(|r: int, c: int| self.at(r, c).plus(rhs.at(r, c)))
    }

    /// The entry-wise difference.
    pub open spec fn sub_spec(self, rhs: Self) -> Self {
        Self::build(|r: int, c: int| self.at(r, c).minus(rhs.at(r, c)))
    }

    /// Each entry multiplied by `s`, the scalar on the right.
    pub open spec fn scale_spec(self, s: T) -> Self {
        Self::build(|r: int, c: int| self.at(r, c).times(s))
    }

    /// Each entry multiplied by `s`, the scalar on the left.
    pub open spec fn scale_left_spec(s: T, m: Self) -> Self {
        Self::build(|r: int, c: int| s.times(m.at(r, c)))
    }

    /// Each entry divided by `s`.
    pub open spec fn div_spec(self, s: T) -> Self {
        Self::build(|r: int, c: int| self.at(r, c).over(s))
    }

    /// The product with the column vector `v`: the columns of the matrix,
    /// each multiplied by the component of `v` of its place, added from the
    /// left.
    pub open spec fn apply_spec(self, v: Vector3D<T>) -> Vector3D<T> {
        self.col_spec(0).scale_spec(v.x).add_spec(
            self.col_spec(1).scale_spec(v.y),
        ).add_spec(
            self.col_spec(2).scale_spec(v.z),
        )
    }

    /// The matrix product: column `c` of the product is `self` applied to
    /// column `c` of `rhs`.
    pub open spec fn mul_spec(self, rhs: Self) -> Self {
        Self::from_columns_spec(
            self.apply_spec(rhs.col_spec(0)),
            self.apply_spec(rhs.col_spec(1)),
            self.apply_spec(rhs.col_spec(2)),
        )
    }

    /// Whether each pair of entries compares equal.
    pub open spec fn eq_spec(self, rhs: Self) -> bool {
        forall|k: int| 0 <= k < 9 ==> (#[trigger] self.data[k]).equals(rhs.data[k])
    }

    /// The matrix of zeros.
    pub fn zeros() -> (r: Matrix3x3<T>)
        ensures
            r == Self::zeros_spec(),
    {
        let r = Matrix3x3 {
            data: [
                T::zero(), T::zero(), T::zero(),
                T::zero(), T::zero(), T::zero(),
                T::zero(), T::zero(), T::zero(),
            ],
        };
        assert(r.data =~= Self::zeros_spec().data);
        r
    }

    /// The matrix of ones.
    pub fn ones() -> (r: Matrix3x3<T>)
        ensures
            r == Self::ones_spec(),
    {
        let r = Matrix3x3 {
            data: [
                T::one(), T::one(), T::one(),
                T::one(), T::one(), T::one(),
                T::one(), T::one(), T::one(),
            ],
        };
        assert(r.data =~= Self::ones_spec().data);
        r
    }

    /// The matrix with `value` on the diagonal and zero elsewhere.
    pub fn diagonal(value: T) -> (r: Matrix3x3<T>)
        ensures
            r == Self::diagonal_spec(value),
    {
        let r = Matrix3x3 {
            data: [
                value, T::zero(), T::zero(),
                T::zero(), value, T::zero(),
                T::zero(), T::zero(), value,
            ],
        };
        assert(r.data =~= Self::diagonal_spec(value).data);
        r
    }

    /// The identity matrix.
    pub fn identity() -> (r: Matrix3x3<T>)
        ensures
            r == Self::identity_spec(),
    {
        Matrix3x3::diagonal(T::one())
    }

    /// The transpose.
    pub fn transpose(&self) -> (r: Matrix3x3<T>)
        ensures
            r == self.transpose_spec(),
    {
        let r = Matrix3x3 {
            data: [
                self.data[0], self.data[3], self.data[6],
                self.data[1], self.data[4], self.data[7],
                self.data[2], self.data[5], self.data[8],
            ],
        };
        assert(r.data =~= self.transpose_spec().data);
        r
    }

    /// The minor of the place `pos`.
    pub fn minor(&self, pos: (usize, usize)) -> (r: Matrix2x2<T>)
        requires
            pos.0 < 3,
            pos.1 < 3,
        ensures
            r == self.minor_spec((pos.0 as int, pos.1 as int)),
    {
        let mut data: [T; 4] = [T::zero(), T::zero(), T::zero(), T::zero()];
        let ghost f = |r: int, c: int| self.at(skip(r, pos.0 as int), skip(c, pos.1 as int));

        let mut idx: usize = 0;

        for i in 0usize..3
            invariant
                pos.0 < 3,
                pos.1 < 3,
                forall|r: int, c: int|
                    #[trigger] f(r, c) == self.at(skip(r, pos.0 as int), skip(c, pos.1 as int)),
                idx == 2 * kept(i as int, pos.0 as int),
                Matrix2x2::<T>::filled(data, idx as int, f),
        {
            if i != pos.0 {
                for j in 0usize..3
                    invariant
                        pos.0 < 3,
                        pos.1 < 3,
                        i < 3,
                        i != pos.0,
                        forall|r: int, c: int|
                            #[trigger] f(r, c) == self.at(skip(r, pos.0 as int), skip(c, pos.1 as int)),
                        idx == 2 * kept(i as int, pos.0 as int) + kept(j as int, pos.1 as int),
                        Matrix2x2::<T>::filled(data, idx as int, f),
                {
                    if j != pos.1 {
                        data[idx] = self[(i, j)];
                        idx += 1;
                    }
                }
            }
        }

        proof {
            Matrix2x2::<T>::lemma_filled(data, f);
        }
        Matrix2x2::from(data)
    }

    /// The cofactor of the place `pos`.
    fn cofactor_at(&self, pos: (usize, usize)) -> (r: T)
        requires
            pos.0 < 3,
            pos.1 < 3,
        ensures
            r == self.cofactor_at_spec(pos.0 as int, pos.1 as int),
    {
        reveal(Matrix3x3::cofactor_at_spec);
        sign::<T>(pos.0 + pos.1).mul(self.minor(pos).determinant())
    }

    /// The matrix of cofactors.
    pub fn cofactor(&self) -> (r: Matrix3x3<T>)
        ensures
            r == self.cofactor_spec(),
    {
        let mut data: [T; 9] = [
            T::zero(), T::zero(), T::zero(),
            T::zero(), T::zero(), T::zero(),
            T::zero(), T::zero(), T::zero(),
        ];
        let ghost f = |r: int, c: int| self.cofactor_at_spec(r, c);

        for i in 0usize..3
            invariant
                forall|r: int, c: int| #[trigger] f(r, c) == self.cofactor_at_spec(r, c),
                Self::filled(data, 3 * i, f),
        {
            for j in 0usize..3
                invariant
                    i < 3,
                    forall|r: int, c: int| #[trigger] f(r, c) == self.cofactor_at_spec(r, c),
                    Self::filled(data, 3 * i + j, f),
            {
                data[i * 3 + j] = self.cofactor_at((i, j));
            }
        }

        proof {
            Self::lemma_filled(data, f);
        }
        Matrix3x3::from(data)
    }

    /// The adjugate.
    pub fn adjugate(&self) -> (r: Matrix3x3<T>)
        ensures
            r == self.adjugate_spec(),
    {
        self.cofactor().transpose()
    }

    /// The determinant.
    pub fn determinant(&self) -> (r: T)
        ensures
            r == self.determinant_spec(),
    {
        self[(0, 0)].mul(self.minor((0, 0)).determinant()).sub(
            self[(0, 1)].mul(self.minor((0, 1)).determinant()),
        ).add(
            self[(0, 2)].mul(self.minor((0, 2)).determinant()),
        )
    }

    /// The inverse: the adjugate divided by the determinant. A matrix whose
    /// determinant compares equal to zero has none; any other determinant,
    /// however small, is divided by.
    pub fn inverse(&self) -> (r: Result<Matrix3x3<T>, InverseMatrixError<'static>>)
        ensures
            r is Err <==> self.determinant_spec().equals(T::nil()),
            r matches Ok(m) ==> m == self.adjugate_spec().div_spec(self.determinant_spec()),
            r matches Err(e) ==> e@ == "Matrix has no inverse"@,
    {
        let determinant = self.determinant();

        if determinant.eq(T::zero()) {
            return Err(InverseMatrixError("Matrix has no inverse"));
        }

        Ok(self.adjugate() / determinant)
    }

    /// The column `i`.
    pub fn col(&self, i: usize) -> (r: Vector3D<T>)
        requires
            i < 3,
        ensures
            r == self.col_spec(i as int),
    {
        Vector3D::from((self[(0, i)], self[(1, i)], self[(2, i)]))
    }

    /// The row `i`.
    pub fn row(&self, i: usize) -> (r: Vector3D<T>)
        requires
            i < 3,
        ensures
            r == self.row_spec(i as int),
    {
        Vector3D::from((self[(i, 0)], self[(i, 1)], self[(i, 2)]))
    }

    /// The product `s * m` with the scalar on the left.
    pub fn scale_left(s: T, m: Self) -> (r: Self)
        ensures
            r == Self::scale_left_spec(s, m),
    {
        let mut data = [
            T::zero(), T::zero(), T::zero(),
            T::zero(), T::zero(), T::zero(),
            T::zero(), T::zero(), T::zero(),
        ];
        let ghost f = |r: int, c: int| s.times(m.at(r, c));

        for i in 0usize..3
            invariant
                forall|r: int, c: int| #[trigger] f(r, c) == s.times(m.at(r, c)),
                Self::filled(data, 3 * i, f),
        {
            for j in 0usize..3
                invariant
                    i < 3,
                    forall|r: int, c: int| #[trigger] f(r, c) == s.times(m.at(r, c)),
                    Self::filled(data, 3 * i + j, f),
            {
                data[i * 3 + j] = s.mul(m[(i, j)]);
            }
        }

        proof {
            Self::lemma_filled(data, f);
        }
        Matrix3x3::from(data)
    }
}

impl<T: Scalar> AddSpecImpl for Matrix3x3<T> {
    open spec fn obeys_add_spec() -> bool {
        true
    }

    open spec fn add_req(self, rhs: Self) -> bool {
        true
    }

    open spec fn add_spec(self, rhs: Self) -> Self {
        Matrix3x3::add_spec(self, rhs)
    }
}

impl<T: Scalar> Add for Matrix3x3<T> {
    type Output = Matrix3x3<T>;

    /// The entry-wise sum.
    fn add(self, rhs: Self) -> (r: Matrix3x3<T>)
        ensures
            r == self.add_spec(rhs),
    {
        let mut data = [
            T::zero(), T::zero(), T::zero(),
            T::zero(), T::zero(), T::zero(),
            T::zero(), T::zero(), T::zero(),
        ];
        let ghost f = |r: int, c: int| self.at(r, c).plus(rhs.at(r, c));

        for i in 0usize..3
            invariant
                forall|r: int, c: int| #[trigger] f(r, c) == self.at(r, c).plus(rhs.at(r, c)),
                Self::filled(data, 3 * i, f),
        {
            for j in 0usize..3
                invariant
                    i < 3,
                    forall|r: int, c: int| #[trigger] f(r, c) == self.at(r, c).plus(rhs.at(r, c)),
                    Self::filled(data, 3 * i + j, f),
            {
                data[i * 3 + j] = self[(i, j)].add(rhs[(i, j)]);
            }
        }

        proof {
            Self::lemma_filled(data, f);
        }
        Matrix3x3::from(data)
    }
}

impl<T: Scalar> SubSpecImpl for Matrix3x3<T> {
    open spec fn obeys_sub_spec() -> bool {
        true
    }

    open spec fn sub_req(self, rhs: Self) -> bool {
        true
    }

    open spec fn sub_spec(self, rhs: Self) -> Self {
        Matrix3x3::sub_spec(self, rhs)
    }
}

impl<T: Scalar> Sub for Matrix3x3<T> {
    type Output = Matrix3x3<T>;

    /// The entry-wise difference.
    fn sub(self, rhs: Self) -> (r: Matrix3x3<T>)
        ensures
            r == self.sub_spec(rhs),
    {
        let mut data = [
            T::zero(), T::zero(), T::zero(),
            T::zero(), T::zero(), T::zero(),
            T::zero(), T::zero(), T::zero(),
        ];
        let ghost f = |r: int, c: int| self.at(r, c).minus(rhs.at(r, c));

        for i in 0usize..3
            invariant
                forall|r: int, c: int| #[trigger] f(r, c) == self.at(r, c).minus(rhs.at(r, c)),
                Self::filled(data, 3 * i, f),
        {
            for j in 0usize..3
                invariant
                    i < 3,
                    forall|r: int, c: int| #[trigger] f(r, c) == self.at(r, c).minus(rhs.at(r, c)),
                    Self::filled(data, 3 * i + j, f),
            {
                data[i * 3 + j] = self[(i, j)].sub(rhs[(i, j)]);
            }
        }

        proof {
            Self::lemma_filled(data, f);
        }
        Matrix3x3::from(data)
    }
}

impl<T: Scalar> MulSpecImpl<Matrix3x3<T>> for Matrix3x3<T> {
    open spec fn obeys_mul_spec() -> bool {
        true
    }

    open spec fn mul_req(self, rhs: Self) -> bool {
        true
    }

    open spec fn mul_spec(self, rhs: Self) -> Self {
        Matrix3x3::mul_spec(self, rhs)
    }
}

impl<T: Scalar> Mul<Matrix3x3<T>> for Matrix3x3<T> {
    type Output = Matrix3x3<T>;

    /// The matrix product, `self` on the left.
    fn mul(self, rhs: Self) -> (r: Matrix3x3<T>)
        ensures
            r == Matrix3x3::mul_spec(self, rhs),
    {
        Matrix3x3::from(
            (
                self * rhs.col(0),
                self * rhs.col(1),
                self * rhs.col(2),
            ),
        )
    }
}

impl<T: Scalar> MulSpecImpl<T> for Matrix3x3<T> {
    open spec fn obeys_mul_spec() -> bool {
        true
    }

    open spec fn mul_req(self, rhs: T) -> bool {
        true
    }

    open spec fn mul_spec(self, rhs: T) -> Self {
        self.scale_spec(rhs)
    }
}

impl<T: Scalar> Mul<T> for Matrix3x3<T> {
    type Output = Matrix3x3<T>;

    /// The product `m * s` with the scalar on the right.
    fn mul(self, rhs: T) -> (r: Matrix3x3<T>)
        ensures
            r == self.scale_spec(rhs),
    {
        let mut data = [
            T::zero(), T::zero(), T::zero(),
            T::zero(), T::zero(), T::zero(),
            T::zero(), T::zero(), T::zero(),
        ];
        let ghost f = |r: int, c: int| self.at(r, c).times(rhs);

        for i in 0usize..3
            invariant
                forall|r: int, c: int| #[trigger] f(r, c) == self.at(r, c).times(rhs),
                Self::filled(data, 3 * i, f),
        {
            for j in 0usize..3
                invariant
                    i < 3,
                    forall|r: int, c: int| #[trigger] f(r, c) == self.at(r, c).times(rhs),
                    Self::filled(data, 3 * i + j, f),
            {
                data[i * 3 + j] = self[(i, j)].mul(rhs);
            }
        }

        proof {
            Self::lemma_filled(data, f);
        }
        Matrix3x3::from(data)
    }
}

impl<T: Scalar> MulSpecImpl<Matrix3x3<T>> for i32 {
    open spec fn obeys_mul_spec() -> bool {
        true
    }

    open spec fn mul_req(self, rhs: Matrix3x3<T>) -> bool {
        true
    }

    open spec fn mul_spec(self, rhs: Matrix3x3<T>) -> Matrix3x3<T> {
        Matrix3x3::scale_left_spec(T::of(self), rhs)
    }
}

impl<T: Scalar> Mul<Matrix3x3<T>> for i32 {
    type Output = Matrix3x3<T>;

    /// The product `n * m` with an integer on the left, taken as a scalar.
    fn mul(self, rhs: Matrix3x3<T>) -> (r: Matrix3x3<T>)
        ensures
            r == Matrix3x3::scale_left_spec(T::of(self), rhs),
    {
        Matrix3x3::scale_left(T::from_i32(self), rhs)
    }
}

impl<T: Scalar> MulSpecImpl<i32> for Matrix3x3<T> {
    open spec fn obeys_mul_spec() -> bool {
        true
    }

    open spec fn mul_req(self, rhs: i32) -> bool {
        true
    }

    open spec fn mul_spec(self, rhs: i32) -> Self {
        self.scale_spec(T::of(rhs))
    }
}

impl<T: Scalar> Mul<i32> for Matrix3x3<T> {
    type Output = Matrix3x3<T>;

    /// The product `m * n` with an integer on the right, taken as a scalar.
    fn mul(self, rhs: i32) -> (r: Matrix3x3<T>)
        ensures
            r == self.scale_spec(T::of(rhs)),
    {
        self * T::from_i32(rhs)
    }
}

impl<T: Scalar> MulSpecImpl<Vector3D<T>> for Matrix3x3<T> {
    open spec fn obeys_mul_spec() -> bool {
        true
    }

    open spec fn mul_req(self, rhs: Vector3D<T>) -> bool {
        true
    }

    open spec fn mul_spec(self, rhs: Vector3D<T>) -> Vector3D<T> {
        self.apply_spec(rhs)
    }
}

impl<T: Scalar> Mul<Vector3D<T>> for Matrix3x3<T> {
    type Output = Vector3D<T>;

    /// The product with a column vector.
    fn mul(self, rhs: Vector3D<T>) -> (r: Vector3D<T>)
        ensures
            r == self.apply_spec(rhs),
    {
        self.col(0) * rhs.x() + self.col(1) * rhs.y() + self.col(2) * rhs.z()
    }
}

impl<T: Scalar> DivSpecImpl<T> for Matrix3x3<T> {
    open spec fn obeys_div_spec() -> bool {
        true
    }

    open spec fn div_req(self, rhs: T) -> bool {
        true
    }

    open spec fn div_spec(self, rhs: T) -> Self {
        Matrix3x3::div_spec(self, rhs)
    }
}

impl<T: Scalar> Div<T> for Matrix3x3<T> {
    type Output = Matrix3x3<T>;

    /// The quotient `m / s`, entry by entry.
    fn div(self, rhs: T) -> (r: Matrix3x3<T>)
        ensures
            r == Matrix3x3::div_spec(self, rhs),
    {
        let mut data = [
            T::zero(), T::zero(), T::zero(),
            T::zero(), T::zero(), T::zero(),
            T::zero(), T::zero(), T::zero(),
        ];
        let ghost f = |r: int, c: int| self.at(r, c).over(rhs);

        for i in 0usize..3
            invariant
                forall|r: int, c: int| #[trigger] f(r, c) == self.at(r, c).over(rhs),
                Self::filled(data, 3 * i, f),
        {
            for j in 0usize..3
                invariant
                    i < 3,
                    forall|r: int, c: int| #[trigger] f(r, c) == self.at(r, c).over(rhs),
                    Self::filled(data, 3 * i + j, f),
            {
                data[i * 3 + j] = self[(i, j)].div(rhs);
            }
        }

        proof {
            Self::lemma_filled(data, f);
        }
        Matrix3x3::from(data)
    }
}

impl<T: Scalar> PartialEqSpecImpl for Matrix3x3<T> {
    open spec fn obeys_eq_spec() -> bool {
        true
    }

    open spec fn eq_spec(&self, rhs: &Self) -> bool {
        Matrix3x3::eq_spec(*self, *rhs)
    }
}

impl<T: Scalar> PartialEq for Matrix3x3<T> {
    /// Whether each pair of entries compares equal.
    fn eq(&self, rhs: &Self) -> (r: bool)
        ensures
            r == Matrix3x3::eq_spec(*self, *rhs),
    {
        for i in 0usize..9
            invariant
                forall|k: int| 0 <= k < i ==> (#[trigger] self.data[k]).equals(rhs.data[k]),
        {
            if !self.data[i].eq(rhs.data[i]) {
                return false;
            }
        }

        true
    }
}

impl<T: Scalar> FromSpecImpl<[T; 9]> for Matrix3x3<T> {
    open spec fn obeys_from_spec() -> bool {
        true
    }

    open spec fn from_spec(data: [T; 9]) -> Self {
        Matrix3x3 { data }
    }
}

impl<T: Scalar> From<[T; 9]> for Matrix3x3<T> {
    /// The matrix with the entries of `data`, read row by row.
    fn from(data: [T; 9]) -> (r: Matrix3x3<T>)
        ensures
            r == (Matrix3x3 { data }),
    {
        Matrix3x3 { data }
    }
}

impl<T: Scalar> Matrix3x3<T> {
    /// The matrix with the integers of `data`, read row by row, each taken
    /// as a scalar.
    pub open spec fn from_integers_spec(data: [i32; 9]) -> Self {
        Self::build(|r: int, c: int| T::of(data[3 * r + c]))
    }
}

impl<T: Scalar> FromSpecImpl<[i32; 9]> for Matrix3x3<T> {
    open spec fn obeys_from_spec() -> bool {
        true
    }

    open spec fn from_spec(data: [i32; 9]) -> Self {
        Matrix3x3::from_integers_spec(data)
    }
}

impl<T: Scalar> From<[i32; 9]> for Matrix3x3<T> {
    /// The matrix with the integers of `data`, read row by row, each taken
    /// as a scalar.
    fn from(data: [i32; 9]) -> (r: Matrix3x3<T>)
        ensures
            r == Matrix3x3::<T>::from_integers_spec(data),
    {
        let r = Matrix3x3 {
            data: [
                T::from_i32(data[0]), T::from_i32(data[1]), T::from_i32(data[2]),
                T::from_i32(data[3]), T::from_i32(data[4]), T::from_i32(data[5]),
                T::from_i32(data[6]), T::from_i32(data[7]), T::from_i32(data[8]),
            ],
        };
        assert(r.data =~= Matrix3x3::<T>::from_integers_spec(data).data);
        r
    }
}

impl<T: Scalar> FromSpecImpl<(Vector3D<T>, Vector3D<T>, Vector3D<T>)> for Matrix3x3<T> {
    open spec fn obeys_from_spec() -> bool {
        true
    }

    open spec fn from_spec(input: (Vector3D<T>, Vector3D<T>, Vector3D<T>)) -> Self {
        Matrix3x3::from_columns_spec(input.0, input.1, input.2)
    }
}

impl<T: Scalar> From<(Vector3D<T>, Vector3D<T>, Vector3D<T>)> for Matrix3x3<T> {
    /// The matrix whose columns are the three vectors, in their order.
    fn from(input: (Vector3D<T>, Vector3D<T>, Vector3D<T>)) -> (r: Matrix3x3<T>)
        ensures
            r == Matrix3x3::from_columns_spec(input.0, input.1, input.2),
    {
        Matrix3x3 {
            data: [
                input.0.x(), input.1.x(), input.2.x(),
                input.0.y(), input.1.y(), input.2.y(),
                input.0.z(), input.1.z(), input.2.z(),
            ],
        }
    }
}

impl<T: Scalar> vstd::std_specs::core::IndexSpecImpl<(usize, usize)> for Matrix3x3<T> {
    /// An index names a place of the matrix: both parts are below three.
    open spec fn index_req(&self, idx: &(usize, usize)) -> bool {
        idx.0 < 3 && idx.1 < 3
    }
}

impl<T: Scalar> Index<(usize, usize)> for Matrix3x3<T> {
    type Output = T;

    /// The entry of row `idx.0` and column `idx.1`.
    fn index(&self, idx: (usize, usize)) -> (r: &T)
        ensures
            *r == self.at(idx.0 as int, idx.1 as int),
    {
        &self.data[idx.1 + 3 * idx.0]
    }
}

/// Each entry of a matrix stands for its value.
pub proof fn lemma_entries<T: Exact>(m: Matrix3x3<T>)
    ensures
        forall|k: int| 0 <= k < 9 ==> #[trigger] m.data[k] == T::from_int(m.data[k].value()),
{
    lemma_exact::<T>();
}

/// Transposing twice gives the matrix back.
pub proof fn lemma_transpose_twice<T: Scalar>(m: Matrix3x3<T>)
    ensures
        m.transpose_spec().transpose_spec() == m,
{
    assert(m.transpose_spec().transpose_spec().data =~= m.data);
}

/// The identity matrix is neutral for the matrix product, on the right and
/// on the left: `m * identity == m` and `identity * m == m`.
pub proof fn lemma_identity_neutral<T: Exact>(m: Matrix3x3<T>)
    ensures
        m.mul_spec(Matrix3x3::identity_spec()) == m,
        Matrix3x3::<T>::identity_spec().mul_spec(m) == m,
{
    lemma_exact::<T>();
    lemma_entries(m);
    assert(m.mul_spec(Matrix3x3::identity_spec()).data =~= m.data);
    assert(Matrix3x3::<T>::identity_spec().mul_spec(m).data =~= m.data);
}

/// A scalar multiplies a matrix alike from the left and from the right:
/// `s * m == m * s`.
pub proof fn lemma_scale_commutes<T: Exact>(s: T, m: Matrix3x3<T>)
    ensures
        Matrix3x3::scale_left_spec(s, m) == m.scale_spec(s),
{
    lemma_exact::<T>();
    lemma_entries(m);
    assert forall|k: int| 0 <= k < 9 implies s.times(#[trigger] m.data[k]) == m.data[k].times(
        s,
    ) by {
        assert(s.value() * m.data[k].value() == m.data[k].value() * s.value())
            by (nonlinear_arith);
    }
    assert(Matrix3x3::scale_left_spec(s, m).data =~= m.scale_spec(s).data);
}

/// The determinant stands for the determinant of the values of the
/// entries.
pub proof fn lemma_determinant_value<T: Exact>(m: Matrix3x3<T>)
    ensures
        m.determinant_spec() == T::from_int(
            det3(
                (m.data[0].value(), m.data[1].value(), m.data[2].value()),
                (m.data[3].value(), m.data[4].value(), m.data[5].value()),
                (m.data[6].value(), m.data[7].value(), m.data[8].value()),
            ),
        ),
{
    lemma_exact::<T>();
    lemma_entries(m);
}

/// The product of a matrix with its adjugate, on either side, is the
/// determinant on the diagonal and zero elsewhere:
/// `m * m.adjugate() == diagonal(m.determinant())`, and the same with the
/// adjugate on the left. This is what makes the adjugate divided by the
/// determinant the inverse.
pub proof fn lemma_adjugate_product<T: Exact>(m: Matrix3x3<T>)
    ensures
        m.mul_spec(m.adjugate_spec()) == Matrix3x3::diagonal_spec(m.determinant_spec()),
        m.adjugate_spec().mul_spec(m) == Matrix3x3::diagonal_spec(m.determinant_spec()),
{
    reveal(Matrix3x3::cofactor_at_spec);
    lemma_exact::<T>();
    lemma_entries(m);
    lemma_determinant_value(m);
    let r0 = (m.data[0].value(), m.data[1].value(), m.data[2].value());
    let r1 = (m.data[3].value(), m.data[4].value(), m.data[5].value());
    let r2 = (m.data[6].value(), m.data[7].value(), m.data[8].value());
    let c0 = (m.data[0].value(), m.data[3].value(), m.data[6].value());
    let c1 = (m.data[1].value(), m.data[4].value(), m.data[7].value());
    let c2 = (m.data[2].value(), m.data[5].value(), m.data[8].value());
    lemma_cofactors3(r0, r0, r1, r2);
    lemma_cofactors3(r1, r0, r1, r2);
    lemma_cofactors3(r2, r0, r1, r2);
    lemma_cofactors3_columns(c0, r0, r1, r2);
    lemma_cofactors3_columns(c1, r0, r1, r2);
    lemma_cofactors3_columns(c2, r0, r1, r2);
    lemma_det3_transposed(r0, r1, r2);
    lemma_det3_equal_rows(r0, r1);
    lemma_det3_equal_rows(r0, r2);
    lemma_det3_equal_rows(r1, r0);
    lemma_det3_equal_rows(r1, r2);
    lemma_det3_equal_rows(r2, r0);
    lemma_det3_equal_rows(r2, r1);
    lemma_det3_equal_rows(c0, c1);
    lemma_det3_equal_rows(c0, c2);
    lemma_det3_equal_rows(c1, c0);
    lemma_det3_equal_rows(c1, c2);
    lemma_det3_equal_rows(c2, c0);
    lemma_det3_equal_rows(c2, c1);
    assert(m.mul_spec(m.adjugate_spec()).data =~= Matrix3x3::diagonal_spec(
        m.determinant_spec(),
    ).data);
    assert(m.adjugate_spec().mul_spec(m).data =~= Matrix3x3::diagonal_spec(
        m.determinant_spec(),
    ).data);
}

/// A matrix whose determinant is one has an inverse in exact arithmetic:
/// its product with what [`Matrix3x3::inverse`] returns is the identity, on
/// either side.
pub proof fn lemma_inverse_of_unit_determinant<T: Exact>(m: Matrix3x3<T>)
    requires
        m.determinant_spec() == T::unit(),
    ensures
        m.mul_spec(m.adjugate_spec().div_spec(m.determinant_spec()))
            == Matrix3x3::<T>::identity_spec(),
        m.adjugate_spec().div_spec(m.determinant_spec()).mul_spec(m)
            == Matrix3x3::<T>::identity_spec(),
{
    lemma_adjugate_product(m);
    let adjugate = m.adjugate_spec();
    assert forall|k: int| 0 <= k < 9 implies (#[trigger] adjugate.data[k]).over(T::unit())
        == adjugate.data[k] by {
        T::lemma_over_unit(adjugate.data[k]);
    }
    assert(adjugate.div_spec(T::unit()).data =~= adjugate.data);
}

/// In exact arithmetic two matrices compare equal exactly when they are the
/// same.
pub proof fn lemma_eq<T: Exact>(a: Matrix3x3<T>, b: Matrix3x3<T>)
    ensures
        a.eq_spec(b) <==> a == b,
{
    assert forall|k: int| 0 <= k < 9 implies ((#[trigger] a.data[k]).equals(b.data[k])
        <==> a.data[k] == b.data[k]) by {
        T::lemma_equals(a.data[k], b.data[k]);
    }
    if a.eq_spec(b) {
        assert(a.data =~= b.data);
    }
}

} // verus!
