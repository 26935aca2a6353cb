use divergence::maths::{Scalar, Vector4D};

/// Single-precision floats as the kernel's scalar, with the arithmetic of
/// the machine.
#[derive(Copy, Clone, Debug, PartialEq)]
struct Real(f32);

impl Scalar for Real {
    fn nil() -> Self { Real(0.) }
    fn unit() -> Self { Real(1.) }
    fn of(n: i32) -> Self { Real(n as f32) }
    fn plus(self, rhs: Self) -> Self { Real(self.0 + rhs.0) }
    fn minus(self, rhs: Self) -> Self { Real(self.0 - rhs.0) }
    fn times(self, rhs: Self) -> Self { Real(self.0 * rhs.0) }
    fn over(self, rhs: Self) -> Self { Real(self.0 / rhs.0) }
    fn negated(self) -> Self { Real(-self.0) }
    fn root(self) -> Self { Real(self.0.powf(1. / 2.)) }
    fn equals(self, rhs: Self) -> bool { self.0 == rhs.0 }
    fn zero() -> Self { Real(0.) }
    fn one() -> Self { Real(1.) }
    fn from_i32(n: i32) -> Self { Real(n as f32) }
    fn add(self, rhs: Self) -> Self { Real(self.0 + rhs.0) }
    fn sub(self, rhs: Self) -> Self { Real(self.0 - rhs.0) }
    fn mul(self, rhs: Self) -> Self { Real(self.0 * rhs.0) }
    fn div(self, rhs: Self) -> Self { Real(self.0 / rhs.0) }
    fn neg(self) -> Self { Real(-self.0) }
    fn sqrt(self) -> Self { Real(self.0.powf(1. / 2.)) }
    fn eq(self, rhs: Self) -> bool { self.0 == rhs.0 }
}

#[test]
fn vector4d_norm() {
    let test = Vector4D::from((Real(5.), Real(4.), Real(3.), Real(2.))).norm();
    let correct = Real(54_f32.sqrt());

    assert_eq!(test, correct);
}

#[test]
fn vector4d_sum() {
    let test = Vector4D::from((Real(1.), Real(2.), Real(3.), Real(4.))).sum();
    let correct = Real(10.);

    assert_eq!(test, correct);
}

#[test]
fn vector4d_x() {
    let test = Vector4D::from((Real(5.), Real(4.), Real(3.), Real(2.))).x();
    let correct = Real(5.);

    assert_eq!(test, correct);
}

#[test]
fn vector4d_y() {
    let test = Vector4D::from((Real(5.), Real(4.), Real(3.), Real(2.))).y();
    let correct = Real(4.);

    assert_eq!(test, correct);
}

#[test]
fn vector4d_z() {
    let test = Vector4D::from((Real(5.), Real(4.), Real(3.), Real(2.))).z();
    let correct = Real(3.);

    assert_eq!(test, correct);
}

#[test]
fn w() {
    let test = Vector4D::from((Real(5.), Real(4.), Real(3.), Real(2.))).w();
    let correct = Real(2.);

    assert_eq!(test, correct);
}

#[test]
fn vector4d_xy() {
    let test = Vector4D::from((Real(5.), Real(4.), Real(3.), Real(2.))).xy();
    let correct = (Real(5.), Real(4.));

    assert_eq!(test, correct);
}

#[test]
fn vector4d_xz() {
    let test = Vector4D::from((Real(5.), Real(4.), Real(3.), Real(2.))).xz();
    let correct = (Real(5.), Real(3.));

    assert_eq!(test, correct);
}

#[test]
fn xw() {
    let test = Vector4D::from((Real(5.), Real(4.), Real(3.), Real(2.))).xw();
    let correct = (Real(5.), Real(2.));

    assert_eq!(test, correct);
}

#[test]
fn vector4d_yz() {
    let test = Vector4D::from((Real(5.), Real(4.), Real(3.), Real(2.))).yz();
    let correct = (Real(4.), Real(3.));

    assert_eq!(test, correct);
}

#[test]
fn yw() {
    let test = Vector4D::from((Real(5.), Real(4.), Real(3.), Real(2.))).yw();
    let correct = (Real(4.), Real(2.));

    assert_eq!(test, correct);
}

#[test]
fn zw() {
    let test = Vector4D::from((Real(5.), Real(4.), Real(3.), Real(2.))).zw();
    let correct = (Real(3.), Real(2.));

    assert_eq!(test, correct);
}

#[test]
fn vector4d_xyz() {
    let test = Vector4D::from((Real(5.), Real(4.), Real(3.), Real(2.))).xyz();
    let correct = (Real(5.), Real(4.), Real(3.));

    assert_eq!(test, correct);
}

#[test]
fn xyw() {
    let test = Vector4D::from((Real(5.), Real(4.), Real(3.), Real(2.))).xyw();
    let correct = (Real(5.), Real(4.), Real(2.));

    assert_eq!(test, correct);
}

#[test]
fn xzw() {
    let test = Vector4D::from((Real(5.), Real(4.), Real(3.), Real(2.))).xzw();
    let correct = (Real(5.), Real(3.), Real(2.));

    assert_eq!(test, correct);
}

#[test]
fn yzw() {
    let test = Vector4D::from((Real(5.), Real(4.), Real(3.), Real(2.))).yzw();
    let correct = (Real(4.), Real(3.), Real(2.));

    assert_eq!(test, correct);
}

#[test]
fn xyzw() {
    let test = Vector4D::from((Real(5.), Real(4.), Real(3.), Real(2.))).xyzw();
    let correct = (Real(5.), Real(4.), Real(3.), Real(2.));

    assert_eq!(test, correct);
}

#[test]
fn vector4d_add() {
    let test = Vector4D::from((Real(5.), Real(4.), Real(3.), Real(2.))) + Vector4D::from((Real(3.), Real(2.), Real(2.), Real(1.)));
    let correct = Vector4D::from((Real(8.), Real(6.), Real(5.), Real(3.)));

    assert_eq!(test, correct);
}

#[test]
fn vector4d_sub() {
    let test = Vector4D::from((Real(5.), Real(4.), Real(3.), Real(2.))) - Vector4D::from((Real(3.), Real(2.), Real(2.), Real(1.)));
    let correct = Vector4D::from((Real(2.), Real(2.), Real(1.), Real(1.)));

    assert_eq!(test, correct);
}

#[test]
fn vector4d_mul() {
    let test = Vector4D::from((Real(5.), Real(4.), Real(3.), Real(2.))) * Vector4D::from((Real(3.), Real(2.), Real(2.), Real(1.)));
    let correct = Real(31.);

    assert_eq!(test, correct);
}

#[test]
fn vector4d_mul_float() {
    let test = Vector4D::from((Real(5.), Real(4.), Real(3.), Real(2.))) * Real(5.);
    let correct = Vector4D::from((Real(25.), Real(20.), Real(15.), Real(10.)));

    assert_eq!(test, correct);
}

#[test]
fn vector4d_div_float() {
    let test = Vector4D::from((Real(25.), Real(20.), Real(15.), Real(10.))) / Real(5.);
    let correct = Vector4D::from((Real(5.), Real(4.), Real(3.), Real(2.)));

    assert_eq!(test, correct);
}

#[test]
fn vector4d_from() {
    let test = Vector4D::from((Real(5.), Real(4.), Real(3.), Real(2.)));
    let correct = Vector4D { x: Real(5.), y: Real(4.), z: Real(3.), w: Real(2.) };

    assert_eq!(test, correct);
}
