use divergence::maths::{Matrix2x2, Matrix3x3, Scalar, Vector3D};

/// Single-precision floats as the kernel's scalar, with the arithmetic of
/// the machine.
#[derive(Copy, Clone, Debug, PartialEq)]
struct Real(f32);

impl Scalar for Real {
    fn nil() -> Self { Real(0.) }
    fn unit() -> Self { Real(1.) }
    fn of(n: i32) -> Self { Real(n as f32) }
    fn plus(self, rhs: Self) -> Self { Real(self.0 + rhs.0) }
    fn minus(self, rhs: Self) -> Self { Real(self.0 - rhs.0) }
    fn times(self, rhs: Self) -> Self { Real(self.0 * rhs.0) }
    fn over(self, rhs: Self) -> Self { Real(self.0 / rhs.0) }
    fn negated(self) -> Self { Real(-self.0) }
    fn root(self) -> Self { Real(self.0.powf(1. / 2.)) }
    fn equals(self, rhs: Self) -> bool { self.0 == rhs.0 }
    fn zero() -> Self { Real(0.) }
    fn one() -> Self { Real(1.) }
    fn from_i32(n: i32) -> Self { Real(n as f32) }
    fn add(self, rhs: Self) -> Self { Real(self.0 + rhs.0) }
    fn sub(self, rhs: Self) -> Self { Real(self.0 - rhs.0) }
    fn mul(self, rhs: Self) -> Self { Real(self.0 * rhs.0) }
    fn div(self, rhs: Self) -> Self { Real(self.0 / rhs.0) }
    fn neg(self) -> Self { Real(-self.0) }
    fn sqrt(self) -> Self { Real(self.0.powf(1. / 2.)) }
    fn eq(self, rhs: Self) -> bool { self.0 == rhs.0 }
}

#[test]
fn matrix3x3_zeros() {
    let test = Matrix3x3::zeros();
    let correct = Matrix3x3 {
        data: [
            0.0, 0.0, 0.0,
            0.0, 0.0, 0.0,
            0.0, 0.0, 0.0,
        ].map(Real)
    };

    assert_eq!(test, correct);
}

#[test]
fn matrix3x3_ones() {
    let test = Matrix3x3::ones();
    let correct = Matrix3x3 {
        data: [
            1.0, 1.0, 1.0,
            1.0, 1.0, 1.0,
            1.0, 1.0, 1.0,
        ].map(Real)
    };

    assert_eq!(test, correct);
}

#[test]
fn matrix3x3_diagonal() {
    let test = Matrix3x3::diagonal(Real(3.0));
    let correct = Matrix3x3 {
        data: [
            3.0, 0.0, 0.0,
            0.0, 3.0, 0.0,
            0.0, 0.0, 3.0,
        ].map(Real)
    };

    assert_eq!(test, correct);
}

#[test]
fn matrix3x3_identity() {
    let test = Matrix3x3::identity();
    let correct = Matrix3x3 {
        data: [
            1.0, 0.0, 0.0,
            0.0, 1.0, 0.0,
            0.0, 0.0, 1.0,
        ].map(Real)
    };

    assert_eq!(test, correct);
}

#[test]
fn matrix3x3_transpose() {
    let test = Matrix3x3::<Real>::from(
        [
            1, 2, 3,
            4, 5, 6,
            7, 8, 9,
        ]
    ).transpose();

    let correct = Matrix3x3::<Real>::from(
        [
            1, 4, 7,
            2, 5, 8, 
            3, 6, 9,
        ]
    );

    assert_eq!(test, correct);
}

#[test]
fn matrix3x3_minor() {
    let test = Matrix3x3::<Real>::from(
        [
            1, 2, 3,
            4, 5, 6,
            7, 8, 9,
        ]
    ).minor((1, 1));

    let correct = Matrix2x2::from(
        [
            1., 3.,
            7., 9.,
        ].map(Real)
    );

    assert_eq!(test, correct);
}

#[test]
fn matrix3x3_cofactor() {
    let test = Matrix3x3::<Real>::from(
        [
            1, 2, 3,
            4, 5, 6,
            7, 8, 9,
        ]
    ).cofactor();

    let correct = Matrix3x3::<Real>::from(
        [
            -3,   6, -3,
             6, -12,  6,
            -3,   6, -3,
        ]
    );

    assert_eq!(test, correct);
}

#[test]
fn matrix3x3_adjugate() {
    let test = Matrix3x3::<Real>::from(
        [
            1, 2, 3,
            4, 5, 6,
            7, 8, 9,
        ]
    ).adjugate();

    let correct = Matrix3x3::<Real>::from(
        [
            -3,   6, -3,
             6, -12,  6,
            -3,   6, -3,
        ]
    );

    assert_eq!(test, correct);
}

#[test]
fn matrix3x3_determinant() {
    let test = Matrix3x3::<Real>::from(
        [
            3, 2, 3, 
            3, 1, 1,
            2, 2, 3,
        ]
    ).determinant();

    let correct = Real(1.0);

    assert_eq!(test, correct);
}

#[test]
fn matrix3x3_inverse() {
    let test = Matrix3x3::<Real>::from(
        [
            3, 2, 3, 
            3, 1, 1,
            2, 2, 3,
        ]
    ).inverse().unwrap();

    let correct = Matrix3x3::<Real>::from(
        [
             1,  0, -1,
            -7,  3,  6,
             4, -2, -3,
        ]
    );

    assert_eq!(test, correct);
}

#[test]
fn matrix3x3_col() {
    let matrix = Matrix3x3::<Real>::from(
        [
            1, 2, 3, 
            4, 5, 6,
            7, 8, 9,
        ]
    );

    let test1 = matrix.col(0);
    let test2 = matrix.col(1);
    let test3 = matrix.col(2);

    let correct1 = Vector3D::from((Real(1.), Real(4.), Real(7.)));
    let correct2 = Vector3D::from((Real(2.), Real(5.), Real(8.)));
    let correct3 = Vector3D::from((Real(3.), Real(6.), Real(9.)));

    assert_eq!(test1, correct1);
    assert_eq!(test2, correct2);
    assert_eq!(test3, correct3);
}

#[test]
fn matrix3x3_row() {
    let matrix = Matrix3x3::<Real>::from(
        [
            1, 2, 3, 
            4, 5, 6,
            7, 8, 9,
        ]
    );

    let test1 = matrix.row(0);
    let test2 = matrix.row(1);
    let test3 = matrix.row(2);

    let correct1 = Vector3D::from((Real(1.), Real(2.), Real(3.)));
    let correct2 = Vector3D::from((Real(4.), Real(5.), Real(6.)));
    let correct3 = Vector3D::from((Real(7.), Real(8.), Real(9.)));

    assert_eq!(test1, correct1);
    assert_eq!(test2, correct2);
    assert_eq!(test3, correct3);
}

#[test]
fn matrix3x3_add() {
    let test = Matrix3x3::<Real>::from([1, 2, 3, 4, 5, 6, 7, 8, 9]) + Matrix3x3::<Real>::from([9, 8, 7, 6, 5, 4, 3, 2, 1]);
    let correct = Matrix3x3::<Real>::from([10, 10, 10, 10, 10, 10, 10, 10, 10]);

    assert_eq!(test, correct);
}

#[test]
fn matrix3x3_sub() {
    let test = Matrix3x3::<Real>::from([1, 2, 3, 4, 5, 6, 7, 8, 9]) - Matrix3x3::<Real>::from([9, 8, 7, 6, 5, 4, 3, 2, 1]);
    let correct = Matrix3x3::<Real>::from([-8, -6, -4, -2, 0, 2, 4, 6, 8]);

    assert_eq!(test, correct);
}

#[test]
fn matrix3x3_mul() {
    let test = Matrix3x3::<Real>::from([1, 2, 3, 4, 5, 6, 7, 8, 9]) * Matrix3x3::identity();
    let correct = Matrix3x3::<Real>::from([1, 2, 3, 4, 5, 6, 7, 8, 9]);

    assert_eq!(test, correct);
}

#[test]
fn mul_integer_left() {
    let test = 5 * Matrix3x3::<Real>::from([1, 2, 3, 4, 5, 6, 7, 8, 9]);
    let correct = Matrix3x3::<Real>::from([5, 10, 15, 20, 25, 30, 35, 40, 45]);

    assert_eq!(test, correct);
}

#[test]
fn mul_integer_right() {
    let test = Matrix3x3::<Real>::from([1, 2, 3, 4, 5, 6, 7, 8, 9]) * 5;
    let correct = Matrix3x3::<Real>::from([5, 10, 15, 20, 25, 30, 35, 40, 45]);

    assert_eq!(test, correct);
}

#[test]
fn mul_float_left() {
    let test = Matrix3x3::scale_left(Real(5.0), Matrix3x3::from([1, 2, 3, 4, 5, 6, 7, 8, 9]));
    let correct = Matrix3x3::<Real>::from([5, 10, 15, 20, 25, 30, 35, 40, 45]);

    assert_eq!(test, correct);
}

#[test]
fn mul_float_right() {
    let test = Matrix3x3::<Real>::from([1, 2, 3, 4, 5, 6, 7, 8, 9]) * Real(5.0);
    let correct = Matrix3x3::<Real>::from([5, 10, 15, 20, 25, 30, 35, 40, 45]);

    assert_eq!(test, correct);
}

#[test]
fn matrix3x3_mul_vector() {
    let test = Matrix3x3::<Real>::from([1, 2, 3, 4, 5, 6, 7, 8, 9]) * Vector3D::from((Real(1.), Real(2.), Real(3.)));
    let correct = Vector3D::from((Real(14.), Real(32.), Real(50.)));

    assert_eq!(test, correct);
}

#[test]
fn from_float() {
    let test = Matrix3x3::from(
        [
            1.0, 2.0, 3.0, 
            4.0, 5.0, 6.0,
            7.0, 8.0, 9.0,
        ].map(Real)
    );
    
    let correct = Matrix3x3 {
        data: [
            1.0, 2.0, 3.0,
            4.0, 5.0, 6.0,
            7.0, 8.0, 9.0,
        ].map(Real)
    };

    assert_eq!(test, correct);
}

#[test]
fn from_integer() {
    let test = Matrix3x3::<Real>::from(
        [
            1, 2, 3, 
            4, 5, 6,
            7, 8, 9,
        ]
    );

    let correct = Matrix3x3 {
        data: [
            1.0, 2.0, 3.0,
            4.0, 5.0, 6.0,
            7.0, 8.0, 9.0,
        ].map(Real)
    };

    assert_eq!(test, correct);
}

#[test]
fn matrix3x3_from_vector() {
    let test = Matrix3x3::from((Vector3D::from((Real(3.), Real(4.), Real(5.))), Vector3D::from((Real(1.), Real(2.), Real(3.))), Vector3D::from((Real(4.), Real(5.), Real(6.)))));
    let correct = Matrix3x3::<Real>::from(
        [
            3, 1, 4,
            4, 2, 5,
            5, 3, 6,
        ]
    );

    assert_eq!(test, correct);
}

#[test]
fn matrix3x3_index() {
    let test = Matrix3x3::<Real>::from([1, 2, 3, 4, 5, 6, 7, 8, 9])[(2, 1)];
    let correct = Real(8.0);

    assert_eq!(test, correct);
}
