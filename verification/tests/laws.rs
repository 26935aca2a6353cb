use divergence::maths::{
    Matrix2x2, Matrix3x3, Matrix4x4, Quaternion, Scalar, Vector2D, Vector3D, Vector4D,
};

/// Single-precision floats as the kernel's scalar, with the arithmetic of
/// the machine.
#[derive(Copy, Clone, Debug, PartialEq)]
struct Real(f32);

impl Scalar for Real {
    fn nil() -> Self { Real(0.) }
    fn unit() -> Self { Real(1.) }
    fn of(n: i32) -> Self { Real(n as f32) }
    fn plus(self, rhs: Self) -> Self { Real(self.0 + rhs.0) }
    fn minus(self, rhs: Self) -> Self { Real(self.0 - rhs.0) }
    fn times(self, rhs: Self) -> Self { Real(self.0 * rhs.0) }
    fn over(self, rhs: Self) -> Self { Real(self.0 / rhs.0) }
    fn negated(self) -> Self { Real(-self.0) }
    fn root(self) -> Self { Real(self.0.powf(1. / 2.)) }
    fn equals(self, rhs: Self) -> bool { self.0 == rhs.0 }
    fn zero() -> Self { Real(0.) }
    fn one() -> Self { Real(1.) }
    fn from_i32(n: i32) -> Self { Real(n as f32) }
    fn add(self, rhs: Self) -> Self { Real(self.0 + rhs.0) }
    fn sub(self, rhs: Self) -> Self { Real(self.0 - rhs.0) }
    fn mul(self, rhs: Self) -> Self { Real(self.0 * rhs.0) }
    fn div(self, rhs: Self) -> Self { Real(self.0 / rhs.0) }
    fn neg(self) -> Self { Real(-self.0) }
    fn sqrt(self) -> Self { Real(self.0.powf(1. / 2.)) }
    fn eq(self, rhs: Self) -> bool { self.0 == rhs.0 }
}

fn magic() -> Matrix4x4<Real> {
    Matrix4x4::from(
        [1., 5., 9., 13., 14., 2., 6., 10., 11., 15., 3., 7., 8., 12., 16., 4.].map(Real),
    )
}

fn close(a: Real, b: f32) -> bool {
    (a.0 - b).abs() < 1e-5
}

#[test]
fn addition_of_vectors_commutes() {
    let u = Vector2D::from((Real(1.5), Real(-2.25)));
    let v = Vector2D::from((Real(0.1), Real(7.)));
    assert_eq!(u + v, v + u);

    let u = Vector3D::from((Real(1.5), Real(-2.25), Real(1e10)));
    let v = Vector3D::from((Real(0.1), Real(7.), Real(-3.)));
    assert_eq!(u + v, v + u);

    let u = Vector4D::from((Real(1.5), Real(-2.25), Real(1e10), Real(0.3)));
    let v = Vector4D::from((Real(0.1), Real(7.), Real(-3.), Real(0.7)));
    assert_eq!(u + v, v + u);

    let u = Vector4D::<i64>::from((1, -2, i64::MAX, 4));
    let v = Vector4D::<i64>::from((5, 6, 7, i64::MIN));
    assert_eq!(u + v, v + u);
}

#[test]
fn a_scalar_multiplies_alike_from_both_sides() {
    let u = Vector3D::from((Real(1.5), Real(-2.25), Real(0.1)));
    assert_eq!(Vector3D::scale_left(Real(0.3), u), u * Real(0.3));

    let u = Vector3D::<i64>::from((1, -2, i64::MAX));
    assert_eq!(Vector3D::scale_left(-7, u), u * -7);
}

#[test]
fn subtraction_undoes_addition() {
    let u = Vector2D::from((Real(5.), Real(4.)));
    let v = Vector2D::from((Real(3.), Real(2.)));
    assert_eq!((u + v) - v, u);

    let u = Vector4D::<i64>::from((1, -2, i64::MAX, 4));
    let v = Vector4D::<i64>::from((5, 6, 7, i64::MIN));
    assert_eq!((u + v) - v, u);
}

#[test]
fn subtraction_does_not_undo_a_rounded_addition() {
    let u = Vector2D::from((Real(1e-8), Real(0.)));
    let v = Vector2D::from((Real(1.), Real(0.)));

    assert_eq!((u + v) - v, Vector2D::from((Real(0.), Real(0.))));
}

#[test]
fn the_cross_product_is_anticommutative() {
    let a = Vector3D::from((Real(1.5), Real(-2.25), Real(0.1)));
    let b = Vector3D::from((Real(0.3), Real(7.), Real(-3.)));
    let forth = a.cross(b);
    let back = b.cross(a);
    assert_eq!(forth, Vector3D::from((Real(-back.x().0), Real(-back.y().0), Real(-back.z().0))));

    let a = Vector3D::<i64>::from((1, 2, 3));
    let b = Vector3D::<i64>::from((-4, 5, 6));
    assert_eq!(a.cross(b), b.cross(a) * -1);
}

#[test]
fn a_quaternion_times_its_conjugate_is_the_square_of_its_norm() {
    let p = Quaternion::from((Real(1.), Real(2.), Real(3.), Real(4.)));
    let test = p * p.conjugate();
    assert_eq!(test, Quaternion::from((Real(30.), Real(0.), Real(0.), Real(0.))));
    assert!(close(test.r(), p.norm().0 * p.norm().0));

    let p = Quaternion::<i64>::from((3, -1, 4, 1));
    assert_eq!(p * p.conjugate(), Quaternion::from((27, 0, 0, 0)));
}

#[test]
fn the_hamilton_product_does_not_commute() {
    let p = Quaternion::from((Real(1.), Real(2.), Real(3.), Real(4.)));
    let q = Quaternion::from((Real(4.), Real(3.), Real(2.), Real(1.)));

    assert!(p * q != q * p);
}

#[test]
fn the_identity_is_neutral() {
    let m = Matrix2x2::from([1.5, -2., 3., 0.25].map(Real));
    assert_eq!(m * Matrix2x2::identity(), m);
    assert_eq!(Matrix2x2::identity() * m, m);

    let m = Matrix3x3::from([1.5, -2., 3., 0.25, 5., 6., -7., 8., 9.].map(Real));
    assert_eq!(m * Matrix3x3::identity(), m);
    assert_eq!(Matrix3x3::identity() * m, m);

    let m = magic();
    assert_eq!(m * Matrix4x4::identity(), m);
    assert_eq!(Matrix4x4::identity() * m, m);

    let m = Matrix4x4::<i64>::from([1, 5, 9, 13, 14, 2, 6, 10, 11, 15, 3, 7, 8, 12, 16, 4]);
    assert_eq!(m * Matrix4x4::identity(), m);
    assert_eq!(Matrix4x4::identity() * m, m);
}

#[test]
fn a_matrix_times_its_inverse_is_close_to_the_identity() {
    let m = Matrix2x2::from([3., 2., 3., 3.].map(Real));
    let test = m * m.inverse().unwrap();
    for row in 0..2 {
        for col in 0..2 {
            assert!(close(test[(row, col)], if row == col { 1. } else { 0. }));
        }
    }

    let m = Matrix3x3::from([2., 0., 1., 1., 3., 0., 0., 1., 4.].map(Real));
    let test = m * m.inverse().unwrap();
    for row in 0..3 {
        for col in 0..3 {
            assert!(close(test[(row, col)], if row == col { 1. } else { 0. }));
        }
    }

    let m = magic();
    let test = m * m.inverse().unwrap();
    for row in 0..4 {
        for col in 0..4 {
            assert!(close(test[(row, col)], if row == col { 1. } else { 0. }));
        }
    }
}

#[test]
fn a_matrix_times_its_adjugate_is_the_determinant_on_the_diagonal() {
    let m = Matrix3x3::<i64>::from([2i64, 0, 1, 1, 3, 0, 0, 1, 4]);
    assert_eq!(m * m.adjugate(), Matrix3x3::diagonal(m.determinant()));
    assert_eq!(m.determinant(), 25);

    let m = magic();
    assert_eq!(m * m.adjugate(), Matrix4x4::diagonal(m.determinant()));
}

#[test]
fn transposing_twice_gives_the_matrix_back() {
    let m = Matrix2x2::from([1.5, -2., 3., 0.25].map(Real));
    assert_eq!(m.transpose().transpose(), m);

    let m = Matrix3x3::<Real>::from([1, 2, 3, 4, 5, 6, 7, 8, 9]);
    assert_eq!(m.transpose().transpose(), m);

    let m = magic();
    assert_eq!(m.transpose().transpose(), m);
    assert!(m.transpose() != m);
}
