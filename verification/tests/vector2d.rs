use divergence::maths::{Scalar, Vector2D};

/// Single-precision floats as the kernel's scalar, with the arithmetic of
/// the machine.
#[derive(Copy, Clone, Debug, PartialEq)]
struct Real(f32);

impl Scalar for Real {
    fn nil() -> Self { Real(0.) }
    fn unit() -> Self { Real(1.) }
    fn of(n: i32) -> Self { Real(n as f32) }
    fn plus(self, rhs: Self) -> Self { Real(self.0 + rhs.0) }
    fn minus(self, rhs: Self) -> Self { Real(self.0 - rhs.0) }
    fn times(self, rhs: Self) -> Self { Real(self.0 * rhs.0) }
    fn over(self, rhs: Self) -> Self { Real(self.0 / rhs.0) }
    fn negated(self) -> Self { Real(-self.0) }
    fn root(self) -> Self { Real(self.0.powf(1. / 2.)) }
    fn equals(self, rhs: Self) -> bool { self.0 == rhs.0 }
    fn zero() -> Self { Real(0.) }
    fn one() -> Self { Real(1.) }
    fn from_i32(n: i32) -> Self { Real(n as f32) }
    fn add(self, rhs: Self) -> Self { Real(self.0 + rhs.0) }
    fn sub(self, rhs: Self) -> Self { Real(self.0 - rhs.0) }
    fn mul(self, rhs: Self) -> Self { Real(self.0 * rhs.0) }
    fn div(self, rhs: Self) -> Self { Real(self.0 / rhs.0) }
    fn neg(self) -> Self { Real(-self.0) }
    fn sqrt(self) -> Self { Real(self.0.powf(1. / 2.)) }
    fn eq(self, rhs: Self) -> bool { self.0 == rhs.0 }
}

#[test]
fn empty() {
    
}

#[test]
fn vector2d_norm() {
    let test = Vector2D::from((Real(3.), Real(4.))).norm();
    let correct = Real(5.);

    assert_eq!(test, correct);
}

#[test]
fn vector2d_sum() {
    let test = Vector2D::from((Real(3.), Real(4.))).sum();
    let correct = Real(7.);

    assert_eq!(test, correct);
}

#[test]
fn vector2d_x() {
    let test = Vector2D::from((Real(5.), Real(4.))).x();
    let correct = Real(5.);

    assert_eq!(test, correct);
}

#[test]
fn vector2d_y() {
    let test = Vector2D::from((Real(5.), Real(4.))).y();
    let correct = Real(4.);

    assert_eq!(test, correct);
}

#[test]
fn vector2d_xy() {
    let test = Vector2D::from((Real(5.), Real(4.))).xy();
    let correct = (Real(5.), Real(4.));

    assert_eq!(test, correct);
}

#[test]
fn vector2d_add() {
    let test = Vector2D::from((Real(5.), Real(4.))) + Vector2D::from((Real(3.), Real(2.)));
    let correct = Vector2D::from((Real(8.), Real(6.)));

    assert_eq!(test, correct);
}

#[test]
fn vector2d_sub() {
    let test = Vector2D::from((Real(5.), Real(4.))) - Vector2D::from((Real(3.), Real(2.)));
    let correct = Vector2D::from((Real(2.), Real(2.)));

    assert_eq!(test, correct);
}

#[test]
fn vector2d_mul() {
    let test = Vector2D::from((Real(5.), Real(4.))) * Vector2D::from((Real(3.), Real(2.)));
    let correct = Real(23.);

    assert_eq!(test, correct);
}

#[test]
fn vector2d_mul_float() {
    let test = Vector2D::from((Real(5.), Real(4.))) * Real(5.);
    let correct = Vector2D::from((Real(25.), Real(20.)));

    assert_eq!(test, correct);
}

#[test]
fn vector2d_div_float() {
    let test = Vector2D::from((Real(25.), Real(20.))) / Real(5.);
    let correct = Vector2D::from((Real(5.), Real(4.)));

    assert_eq!(test, correct);
}

#[test]
fn vector2d_from() {
    let test = Vector2D::from((Real(5.), Real(4.)));
    let correct = Vector2D { x: Real(5.), y: Real(4.) };

    assert_eq!(test, correct);
}
