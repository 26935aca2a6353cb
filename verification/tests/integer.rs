use divergence::maths::scalar::sign;
use divergence::maths::{Scalar, Vector3D};

#[test]
fn integer_zero_and_one() {
    assert_eq!(<i64 as Scalar>::zero(), 0);
    assert_eq!(<i64 as Scalar>::one(), 1);
}

#[test]
fn integer_from_i32() {
    assert_eq!(<i64 as Scalar>::from_i32(-7), -7);
    assert_eq!(<i64 as Scalar>::from_i32(i32::MAX), 2147483647);
    assert_eq!(<i64 as Scalar>::from_i32(i32::MIN), -2147483648);
}

#[test]
fn integer_add_wraps() {
    assert_eq!(Scalar::add(2i64, 3), 5);
    assert_eq!(Scalar::add(i64::MAX, 1), i64::MIN);
    assert_eq!(Scalar::add(i64::MIN, -1), i64::MAX);
}

#[test]
fn integer_sub_wraps() {
    assert_eq!(Scalar::sub(2i64, 3), -1);
    assert_eq!(Scalar::sub(i64::MIN, 1), i64::MAX);
    assert_eq!(Scalar::sub(i64::MAX, -1), i64::MIN);
}

#[test]
fn integer_mul_wraps() {
    assert_eq!(Scalar::mul(-6i64, 7), -42);
    assert_eq!(Scalar::mul(1i64 << 62, 2), i64::MIN);
    assert_eq!(Scalar::mul(1i64 << 32, 1i64 << 32), 0);
    assert_eq!(Scalar::mul(i64::MAX, i64::MAX), 1);
}

#[test]
fn integer_div_rounds_toward_zero() {
    assert_eq!(Scalar::div(7i64, 2), 3);
    assert_eq!(Scalar::div(-7i64, 2), -3);
    assert_eq!(Scalar::div(7i64, -2), -3);
    assert_eq!(Scalar::div(-7i64, -2), 3);
    assert_eq!(Scalar::div(0i64, 5), 0);
}

#[test]
fn integer_div_by_zero_is_zero() {
    assert_eq!(Scalar::div(7i64, 0), 0);
    assert_eq!(Scalar::div(-7i64, 0), 0);
    assert_eq!(Scalar::div(0i64, 0), 0);
}

#[test]
fn integer_div_wraps() {
    assert_eq!(Scalar::div(i64::MIN, -1), i64::MIN);
    assert_eq!(Scalar::div(i64::MIN, 1), i64::MIN);
    assert_eq!(Scalar::div(i64::MAX, -1), -i64::MAX);
}

#[test]
fn integer_neg() {
    assert_eq!(Scalar::neg(5i64), -5);
    assert_eq!(Scalar::neg(-5i64), 5);
    assert_eq!(Scalar::neg(0i64), 0);
    assert_eq!(Scalar::neg(i64::MIN), i64::MIN);
}

#[test]
fn integer_sqrt_is_the_floor_of_the_root() {
    assert_eq!(Scalar::sqrt(0i64), 0);
    assert_eq!(Scalar::sqrt(1i64), 1);
    assert_eq!(Scalar::sqrt(3i64), 1);
    assert_eq!(Scalar::sqrt(4i64), 2);
    assert_eq!(Scalar::sqrt(16i64), 4);
    assert_eq!(Scalar::sqrt(17i64), 4);
    assert_eq!(Scalar::sqrt(24i64), 4);
    assert_eq!(Scalar::sqrt(25i64), 5);
    assert_eq!(Scalar::sqrt(1_000_000i64), 1000);
    assert_eq!(Scalar::sqrt(i64::MAX), 3037000499);
    assert_eq!(Scalar::sqrt(3037000499i64 * 3037000499), 3037000499);
    assert_eq!(Scalar::sqrt(3037000499i64 * 3037000499 - 1), 3037000498);
}

#[test]
fn integer_sqrt_of_a_negative_number_is_zero() {
    assert_eq!(Scalar::sqrt(-1i64), 0);
    assert_eq!(Scalar::sqrt(i64::MIN), 0);
}

#[test]
fn integer_eq() {
    assert!(Scalar::eq(3i64, 3));
    assert!(!Scalar::eq(3i64, -3));
}

#[test]
fn sign_alternates() {
    assert_eq!(sign::<i64>(0), 1);
    assert_eq!(sign::<i64>(1), -1);
    assert_eq!(sign::<i64>(2), 1);
    assert_eq!(sign::<i64>(5), -1);
    assert_eq!(sign::<i64>(6), 1);
}

#[test]
fn integer_on_the_left_of_a_vector() {
    let test = 3 * Vector3D::<i64>::from((1, -2, 4));
    let correct = Vector3D::from((3, -6, 12));

    assert_eq!(test, correct);
}
