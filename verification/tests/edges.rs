use divergence::maths::{
    Complex, Matrix2x2, Matrix3x3, Matrix4x4, Quaternion, Scalar, Vector2D, Vector3D, Vector4D,
};

/// Single-precision floats as the kernel's scalar, with the arithmetic of
/// the machine.
#[derive(Copy, Clone, Debug, PartialEq)]
struct Real(f32);

impl Scalar for Real {
    fn nil() -> Self { Real(0.) }
    fn unit() -> Self { Real(1.) }
    fn of(n: i32) -> Self { Real(n as f32) }
    fn plus(self, rhs: Self) -> Self { Real(self.0 + rhs.0) }
    fn minus(self, rhs: Self) -> Self { Real(self.0 - rhs.0) }
    fn times(self, rhs: Self) -> Self { Real(self.0 * rhs.0) }
    fn over(self, rhs: Self) -> Self { Real(self.0 / rhs.0) }
    fn negated(self) -> Self { Real(-self.0) }
    fn root(self) -> Self { Real(self.0.powf(1. / 2.)) }
    fn equals(self, rhs: Self) -> bool { self.0 == rhs.0 }
    fn zero() -> Self { Real(0.) }
    fn one() -> Self { Real(1.) }
    fn from_i32(n: i32) -> Self { Real(n as f32) }
    fn add(self, rhs: Self) -> Self { Real(self.0 + rhs.0) }
    fn sub(self, rhs: Self) -> Self { Real(self.0 - rhs.0) }
    fn mul(self, rhs: Self) -> Self { Real(self.0 * rhs.0) }
    fn div(self, rhs: Self) -> Self { Real(self.0 / rhs.0) }
    fn neg(self) -> Self { Real(-self.0) }
    fn sqrt(self) -> Self { Real(self.0.powf(1. / 2.)) }
    fn eq(self, rhs: Self) -> bool { self.0 == rhs.0 }
}

fn numbers_in_order() -> [Real; 16] {
    [1., 2., 3., 4., 5., 6., 7., 8., 9., 10., 11., 12., 13., 14., 15., 16.].map(Real)
}

#[test]
fn a_vector_divided_by_zero_is_not_finite() {
    let test = Vector2D::from((Real(1.), Real(0.))) / Real(0.);

    assert!(test.x().0.is_infinite());
    assert!(test.y().0.is_nan());
}

#[test]
fn a_vector_with_a_nan_is_not_equal_to_itself() {
    let test = Vector3D::from((Real(1.), Real(f32::NAN), Real(3.)));

    assert!(test != test);
}

#[test]
fn zero_and_minus_zero_are_equal() {
    let test = Vector2D::from((Real(0.), Real(-0.)));
    let correct = Vector2D::from((Real(-0.), Real(0.)));

    assert_eq!(test, correct);
}

#[test]
fn a_complex_number_divided_by_zero_is_not_finite() {
    let test = Complex::from((Real(3.), Real(4.))) / Complex::from((Real(0.), Real(0.)));

    assert!(!test.real_part().0.is_finite());
    assert!(!test.imaginary().0.is_finite());
}

#[test]
fn the_inverse_of_the_zero_quaternion_is_not_finite() {
    let test = Quaternion::from((Real(0.), Real(0.), Real(0.), Real(0.))).inverse();

    assert!(test.r().0.is_nan());
    assert!(test.i().0.is_nan());
    assert!(test.j().0.is_nan());
    assert!(test.k().0.is_nan());
}

#[test]
fn quaternion_division_multiplies_by_the_inverse_on_the_right() {
    let p = Quaternion::from((Real(1.), Real(2.), Real(3.), Real(4.)));
    let q = Quaternion::from((Real(0.), Real(2.), Real(0.), Real(0.)));

    let test = p / q;

    assert_eq!(test, p * q.inverse());
    assert_eq!(test, Quaternion::from((Real(1.), Real(-0.5), Real(-2.), Real(1.5))));
    assert_eq!(q.inverse() * p, Quaternion::from((Real(1.), Real(-0.5), Real(2.), Real(-1.5))));
}

#[test]
fn quaternion_from_a_scalar_and_a_vector() {
    let test = Quaternion::from((Real(1.), Vector3D::from((Real(2.), Real(3.), Real(4.)))));
    let correct = Quaternion::from((Real(1.), Real(2.), Real(3.), Real(4.)));

    assert_eq!(test, correct);
}

#[test]
fn vectors_that_differ_in_the_last_component_are_not_equal() {
    let test = Vector4D::from((Real(1.), Real(2.), Real(3.), Real(4.)));
    let other = Vector4D::from((Real(1.), Real(2.), Real(3.), Real(5.)));

    assert!(test != other);
}

#[test]
fn matrices_that_differ_in_the_last_entry_are_not_equal() {
    let test = Matrix4x4::from(numbers_in_order());
    let mut data = numbers_in_order();
    data[15] = Real(17.);
    let other = Matrix4x4::from(data);

    assert!(test != other);

    let mut data = numbers_in_order();
    data[9] = Real(0.);
    let other = Matrix4x4::from(data);

    assert!(test != other);
}

#[test]
fn a_singular_matrix_has_no_inverse() {
    let error = Matrix2x2::from([1., 2., 2., 4.].map(Real)).inverse().unwrap_err();
    assert_eq!(error.message(), "Matrix has no inverse");

    let error = Matrix3x3::<Real>::from([1, 2, 3, 4, 5, 6, 7, 8, 9]).inverse().unwrap_err();
    assert_eq!(error.message(), "Matrix has no inverse");

    let error = Matrix4x4::from(numbers_in_order()).inverse().unwrap_err();
    assert_eq!(error.message(), "Matrix has no inverse");
}

#[test]
fn a_determinant_of_minus_zero_counts_as_zero() {
    let test = Matrix2x2::from([0., 1., 0., -1.].map(Real));

    assert!(test.determinant().0 == 0.);
    assert!(test.determinant().0.is_sign_negative());
    assert!(test.inverse().is_err());
}

#[test]
fn a_matrix_that_is_nearly_singular_is_inverted() {
    let test = Matrix2x2::from([1e-20, 0., 0., 1e-20].map(Real));

    assert!(test.determinant().0 != 0.);
    let inverse = test.inverse().unwrap();
    assert!(inverse[(0, 0)].0 > 1e19);
    assert!(inverse[(1, 1)].0 > 1e19);
    assert_eq!(inverse[(0, 1)], Real(0.));
    assert_eq!(inverse[(1, 0)], Real(0.));
}

#[test]
fn the_inverse_is_the_adjugate_divided_by_the_determinant() {
    let test = Matrix3x3::<Real>::from([2, 0, 1, 1, 3, 0, 0, 1, 4]);

    assert_eq!(test.determinant(), Real(25.));
    assert_eq!(test.inverse().unwrap(), test.adjugate() / test.determinant());
    assert_eq!(
        test.inverse().unwrap(),
        Matrix3x3::from(
            [12. / 25., 1. / 25., -3. / 25., -4. / 25., 8. / 25., 1. / 25., 1. / 25., -2. / 25., 6. / 25.]
                .map(Real)
        )
    );
}

#[test]
fn scalars_on_the_left() {
    let s = Real(5.);

    let vector = Vector2D::from((Real(1.), Real(2.)));
    assert_eq!(Vector2D::scale_left(s, vector), vector * s);
    assert_eq!(Vector2D::scale_left(s, vector), Vector2D::from((Real(5.), Real(10.))));

    let vector = Vector3D::from((Real(1.), Real(2.), Real(3.)));
    assert_eq!(Vector3D::scale_left(s, vector), vector * s);
    assert_eq!(5 * vector, vector * s);
    assert_eq!(5 * vector, Vector3D::from((Real(5.), Real(10.), Real(15.))));

    let vector = Vector4D::from((Real(1.), Real(2.), Real(3.), Real(4.)));
    assert_eq!(Vector4D::scale_left(s, vector), vector * s);

    let complex = Complex::from((Real(3.), Real(4.)));
    assert_eq!(Complex::scale_left(s, complex), complex * s);
    assert_eq!(Complex::scale_left(s, complex), Complex::from((Real(15.), Real(20.))));

    let matrix = Matrix2x2::from([1., 2., 3., 4.].map(Real));
    assert_eq!(Matrix2x2::scale_left(s, matrix), matrix * s);

    let matrix = Matrix4x4::from(numbers_in_order());
    assert_eq!(Matrix4x4::scale_left(s, matrix), matrix * s);
}

#[test]
fn matrix3x3_div_float() {
    let test = Matrix3x3::<Real>::from([5, 10, 15, 20, 25, 30, 35, 40, 45]) / Real(5.);
    let correct = Matrix3x3::<Real>::from([1, 2, 3, 4, 5, 6, 7, 8, 9]);

    assert_eq!(test, correct);
}

#[test]
fn matrix_products() {
    let a = Matrix2x2::from([1., 2., 3., 4.].map(Real));
    let b = Matrix2x2::from([5., 6., 7., 8.].map(Real));

    assert_eq!(a * b, Matrix2x2::from([19., 22., 43., 50.].map(Real)));
    assert_eq!(b * a, Matrix2x2::from([23., 34., 31., 46.].map(Real)));

    let a = Matrix3x3::<Real>::from([1, 2, 3, 4, 5, 6, 7, 8, 9]);
    let b = Matrix3x3::<Real>::from([9, 8, 7, 6, 5, 4, 3, 2, 1]);

    assert_eq!(a * b, Matrix3x3::<Real>::from([30, 24, 18, 84, 69, 54, 138, 114, 90]));
}
