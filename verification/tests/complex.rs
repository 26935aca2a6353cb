use divergence::maths::{Complex, Scalar};

/// Single-precision floats as the kernel's scalar, with the arithmetic of
/// the machine.
#[derive(Copy, Clone, Debug, PartialEq)]
struct Real(f32);

impl Scalar for Real {
    fn nil() -> Self { Real(0.) }
    fn unit() -> Self { Real(1.) }
    fn of(n: i32) -> Self { Real(n as f32) }
    fn plus(self, rhs: Self) -> Self { Real(self.0 + rhs.0) }
    fn minus(self, rhs: Self) -> Self { Real(self.0 - rhs.0) }
    fn times(self, rhs: Self) -> Self { Real(self.0 * rhs.0) }
    fn over(self, rhs: Self) -> Self { Real(self.0 / rhs.0) }
    fn negated(self) -> Self { Real(-self.0) }
    fn root(self) -> Self { Real(self.0.powf(1. / 2.)) }
    fn equals(self, rhs: Self) -> bool { self.0 == rhs.0 }
    fn zero() -> Self { Real(0.) }
    fn one() -> Self { Real(1.) }
    fn from_i32(n: i32) -> Self { Real(n as f32) }
    fn add(self, rhs: Self) -> Self { Real(self.0 + rhs.0) }
    fn sub(self, rhs: Self) -> Self { Real(self.0 - rhs.0) }
    fn mul(self, rhs: Self) -> Self { Real(self.0 * rhs.0) }
    fn div(self, rhs: Self) -> Self { Real(self.0 / rhs.0) }
    fn neg(self) -> Self { Real(-self.0) }
    fn sqrt(self) -> Self { Real(self.0.powf(1. / 2.)) }
    fn eq(self, rhs: Self) -> bool { self.0 == rhs.0 }
}

#[test]
fn complex_real() {
    let test = Complex::from((Real(3.), Real(4.))).real_part();
    let correct = Real(3.);

    assert_eq!(test, correct);
}

#[test]
fn imaginary() {
    let test = Complex::from((Real(3.), Real(4.))).imaginary();
    let correct = Real(4.);

    assert_eq!(test, correct);
}

#[test]
fn complex_norm() {
    let test = Complex::from((Real(3.), Real(4.))).norm();
    let correct = Real(5.);

    assert_eq!(test, correct);
}

#[test]
fn complex_conjugate() {
    let test = Complex::from((Real(3.), Real(4.))).conjugate();
    let correct = Complex::from((Real(3.), Real(-4.)));

    assert_eq!(test, correct);
}

#[test]
fn complex_add() {
    let test = Complex::from((Real(3.), Real(4.))) + Complex::from((Real(1.), Real(1.)));
    let correct = Complex::from((Real(4.), Real(5.)));

    assert_eq!(test, correct);
}

#[test]
fn complex_sub() {
    let test = Complex::from((Real(3.), Real(4.))) - Complex::from((Real(1.), Real(1.)));
    let correct = Complex::from((Real(2.), Real(3.)));

    assert_eq!(test, correct);
}

#[test]
fn complex_mul() {
    let test = Complex::from((Real(3.), Real(4.))) * Complex::from((Real(1.), Real(1.)));
    let correct = Complex::from((Real(-1.), Real(7.)));

    assert_eq!(test, correct);
}

#[test]
fn complex_mul_float() {
    let test = Complex::from((Real(3.), Real(4.))) * Real(5.);
    let correct = Complex::from((Real(15.), Real(20.)));

    assert_eq!(test, correct);
}

#[test]
fn div() {
    let test = Complex::from((Real(3.), Real(4.))) / Complex::from((Real(1.), Real(1.)));
    let correct = Complex::from((Real(3.5), Real(0.5)));

    assert_eq!(test, correct);
}

#[test]
fn complex_div_float() {
    let test = Complex::from((Real(0.), Real(1.))) / Real(2.);
    let correct = Complex::from((Real(0.), Real(0.5)));

    assert_eq!(test, correct);
}

#[test]
fn from_tuple() {
    let test = Complex::from((Real(3.), Real(4.)));
    let correct = Complex {
        real: Real(3.),
        imaginary: Real(4.),
    };

    assert_eq!(test, correct);
}
