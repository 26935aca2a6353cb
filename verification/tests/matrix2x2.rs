use divergence::maths::{Complex, Matrix2x2, Scalar, Vector2D};

/// Single-precision floats as the kernel's scalar, with the arithmetic of
/// the machine.
#[derive(Copy, Clone, Debug, PartialEq)]
struct Real(f32);

impl Scalar for Real {
    fn nil() -> Self { Real(0.) }
    fn unit() -> Self { Real(1.) }
    fn of(n: i32) -> Self { Real(n as f32) }
    fn plus(self, rhs: Self) -> Self { Real(self.0 + rhs.0) }
    fn minus(self, rhs: Self) -> Self { Real(self.0 - rhs.0) }
    fn times(self, rhs: Self) -> Self { Real(self.0 * rhs.0) }
    fn over(self, rhs: Self) -> Self { Real(self.0 / rhs.0) }
    fn negated(self) -> Self { Real(-self.0) }
    fn root(self) -> Self { Real(self.0.powf(1. / 2.)) }
    fn equals(self, rhs: Self) -> bool { self.0 == rhs.0 }
    fn zero() -> Self { Real(0.) }
    fn one() -> Self { Real(1.) }
    fn from_i32(n: i32) -> Self { Real(n as f32) }
    fn add(self, rhs: Self) -> Self { Real(self.0 + rhs.0) }
    fn sub(self, rhs: Self) -> Self { Real(self.0 - rhs.0) }
    fn mul(self, rhs: Self) -> Self { Real(self.0 * rhs.0) }
    fn div(self, rhs: Self) -> Self { Real(self.0 / rhs.0) }
    fn neg(self) -> Self { Real(-self.0) }
    fn sqrt(self) -> Self { Real(self.0.powf(1. / 2.)) }
    fn eq(self, rhs: Self) -> bool { self.0 == rhs.0 }
}

#[test]
fn matrix2x2_zeros() {
    let test = Matrix2x2::zeros();
    let correct = Matrix2x2 {
        data: [
            0., 0.,
            0., 0.,
        ].map(Real)
    };

    assert_eq!(test, correct);
}

#[test]
fn matrix2x2_ones() {
    let test = Matrix2x2::ones();
    let correct = Matrix2x2 {
        data: [
            1., 1., 
            1., 1.,
        ].map(Real)
    };

    assert_eq!(test, correct);
}

#[test]
fn matrix2x2_diagonal() {
    let test = Matrix2x2::diagonal(Real(3.));
    let correct = Matrix2x2 {
        data: [
            3., 0.,
            0., 3.,
        ].map(Real)
    };

    assert_eq!(test, correct);
}

#[test]
fn matrix2x2_identity() {
    let test = Matrix2x2::identity();
    let correct = Matrix2x2 {
        data: [
            1., 0.,
            0., 1.,
        ].map(Real)
    };

    assert_eq!(test, correct);
}

#[test]
fn matrix2x2_transpose() {
    let test = Matrix2x2::from(
        [
            1., 2., 
            3., 4.,
        ].map(Real)
    ).transpose();

    let correct = Matrix2x2::from(
        [
            1., 3.,
            2., 4.,
        ].map(Real)
    );

    assert_eq!(test, correct);
}

#[test]
fn matrix2x2_minor() {
    let test = Matrix2x2::from(
        [
            1., 2.,
            3., 4.,
        ].map(Real)
    ).minor((0, 1));

    let correct = Real(3.);

    assert_eq!(test, correct);
}

#[test]
fn matrix2x2_cofactor() {
    let test = Matrix2x2::from(
        [
            1., 2.,
            3., 4.,
        ].map(Real)
    ).cofactor();

    let correct = Matrix2x2::from(
        [
             4., -3.,
            -2.,  1.,
        ].map(Real)
    );

    assert_eq!(test, correct);
}

#[test]
fn matrix2x2_adjugate() {
    let test = Matrix2x2::from(
        [
            1., 2.,
            3., 4.,
        ].map(Real)
    ).adjugate();

    let correct = Matrix2x2::from(
        [
             4., -2.,
            -3.,  1.,
        ].map(Real)
    );

    assert_eq!(test, correct);
}

#[test]
fn matrix2x2_determinant() {
    let test = Matrix2x2::from(
        [
            3., 2.,
            3., 3.,
        ].map(Real)
    ).determinant();

    let correct = Real(3.);

    assert_eq!(test, correct);
}

#[test]
fn matrix2x2_inverse() {
    let test = Matrix2x2::from(
        [
            3., 2.,
            3., 3.,
        ].map(Real)
    ).inverse().unwrap();

    let correct = Matrix2x2::from(
        [
             3., -2.,
            -3.,  3.,
        ].map(Real)
    ) * Real(1. / 3.);

    assert_eq!(test, correct);
}

#[test]
fn matrix2x2_col() {
    let matrix = Matrix2x2::from(
        [
            1., 2.,
            3., 4.,
        ].map(Real)
    );

    let test1 = matrix.col(0);
    let test2 = matrix.col(1);

    let correct1 = Vector2D::from((Real(1.), Real(3.)));
    let correct2 = Vector2D::from((Real(2.), Real(4.)));

    assert_eq!(test1, correct1);
    assert_eq!(test2, correct2);
}

#[test]
fn matrix2x2_row() {
    let matrix = Matrix2x2::from(
        [
            1., 2.,
            3., 4.,
        ].map(Real)
    );

    let test1 = matrix.row(0);
    let test2 = matrix.row(1);

    let correct1 = Vector2D::from((Real(1.), Real(2.)));
    let correct2 = Vector2D::from((Real(3.), Real(4.)));

    assert_eq!(test1, correct1);
    assert_eq!(test2, correct2);
}

#[test]
fn matrix2x2_add() {
    let test = Matrix2x2::from(
        [
            1., 2.,
            3., 4.,
        ].map(Real)
    ) + Matrix2x2::from(
        [
            4., 3.,
            2., 1.,
        ].map(Real)
    );

    let correct = Matrix2x2::from(
        [
            5., 5.,
            5., 5.,
        ].map(Real)
    );

    assert_eq!(test, correct);
}

#[test]
fn matrix2x2_sub() {
    let test = Matrix2x2::from(
        [
            1., 2.,
            3., 4.,
        ].map(Real)
    ) - Matrix2x2::from(
        [
            4., 3.,
            2., 1.,
        ].map(Real)
    );
    
    let correct = Matrix2x2::from(
        [
            -3., -1.,
             1.,  3.,
        ].map(Real)
    );

    assert_eq!(test, correct);
}

#[test]
fn matrix2x2_mul() {
    let test = Matrix2x2::from(
        [
            1., 2.,
            3., 4.,
        ].map(Real)
    ) * Matrix2x2::identity();
    
    let correct = Matrix2x2::from(
        [
            1., 2.,
            3., 4.
        ].map(Real)
    );

    assert_eq!(test, correct);
}

#[test]
fn matrix2x2_mul_float() {
    let test = Matrix2x2::from(
        [
            1., 2.,
            3., 4.,
        ].map(Real)
    ) * Real(5.);
    
    let correct = Matrix2x2::from(
        [
             5., 10.,
            15., 20.,
        ].map(Real)
    );

    assert_eq!(test, correct);
}

#[test]
fn matrix2x2_mul_vector() {
    let test = Matrix2x2::from(
        [
            1., 2.,
            3., 4.
        ].map(Real)
    ) * Vector2D::from((Real(1.), Real(2.)));

    let correct = Vector2D::from((Real(5.), Real(11.)));

    assert_eq!(test, correct);
}

#[test]
fn matrix2x2_div_float() {
    let test = Matrix2x2::from(
        [
             5., 10.,
            15., 20.,
        ].map(Real)
    )  / Real(5.);

    let correct = Matrix2x2::from(
        [
            1., 2.,
            3., 4.,
        ].map(Real)
    );

    assert_eq!(test, correct);
}

#[test]
fn matrix2x2_from() {
    let test = Matrix2x2::from(
        [
            1., 2.,
            3., 4.,
        ].map(Real)
    );

    let correct = Matrix2x2 {
        data: [
            1., 2.,
            3., 4.,
        ].map(Real)
    };

    assert_eq!(test, correct);
}

#[test]
fn matrix2x2_from_vector() {
    let test = Matrix2x2::from((Vector2D::from((Real(3.), Real(4.))), Vector2D::from((Real(1.), Real(2.)))));
    let correct = Matrix2x2::from(
        [
            3., 1.,
            4., 2.,
        ].map(Real)
    );

    assert_eq!(test, correct);
}

#[test]
fn from_complex() {
    let test = Matrix2x2::from(Complex::from((Real(3.), Real(4.))));
    let correct = Matrix2x2::from(
        [
            3., -4.,
            4.,  3.,
        ].map(Real)
    );

    assert_eq!(test, correct);
}

#[test]
fn matrix2x2_index() {
    let test = Matrix2x2::from([1., 2., 3., 4.].map(Real))[(1, 0)];
    let correct = Real(3.);

    assert_eq!(test, correct);
}
