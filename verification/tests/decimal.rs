use std::str::FromStr;

use bigdecimal::num_bigint::Sign;
use bigdecimal::{BigDecimal, FromPrimitive};
use elasticsearch_query::decimal::Decimal;

/// The decimal with the digits and the scale of `value`.
fn from_big(value: &BigDecimal) -> Decimal {
    let (unscaled, scale) = value.as_bigint_and_exponent();
    let (sign, digits) = unscaled.to_radix_be(10);
    Decimal::from_digits(sign == Sign::Minus, digits, scale).unwrap()
}

#[test]
fn from_i32_agrees_with_bigdecimal() {
    for value in [0, 1, -1, 9, 10, 11, 99, 100, -100, 2048, 65_535, -7_000_001, i32::MIN, i32::MAX] {
        let big = BigDecimal::from_i32(value).unwrap();
        assert_eq!(Decimal::from_i32(value), from_big(&big));
        assert_eq!(Decimal::from_i32(value).to_text(), big.to_string());
    }
}

#[test]
fn to_text_agrees_with_bigdecimal() {
    for written in [
        "0",
        "0.0",
        "1.1",
        "-123.450",
        "0.0001",
        "-0.5",
        "1e3",
        "-25e-4",
        "123456789012345678901234567890.123456789012345678901234567890",
    ] {
        let big = BigDecimal::from_str(written).unwrap();
        assert_eq!(from_big(&big).to_text(), big.to_string());
    }
}

#[test]
fn from_i32_writes_whole_numbers() {
    assert_eq!(Decimal::from_i32(0).to_text(), "0");
    assert_eq!(Decimal::from_i32(7).to_text(), "7");
    assert_eq!(Decimal::from_i32(10).to_text(), "10");
    assert_eq!(Decimal::from_i32(-1).to_text(), "-1");
    assert_eq!(Decimal::from_i32(1_000_000).to_text(), "1000000");
    assert_eq!(Decimal::from_i32(-305).to_text(), "-305");
}

#[test]
fn from_i32_holds_the_least_and_the_greatest_i32() {
    assert_eq!(Decimal::from_i32(i32::MIN).to_text(), "-2147483648");
    assert_eq!(Decimal::from_i32(i32::MAX).to_text(), "2147483647");
}

#[test]
fn from_i32_gives_digits_sign_and_scale() {
    let decimal = Decimal::from_i32(-2048);
    assert!(decimal.is_negative());
    assert_eq!(decimal.digits(), &vec![2u8, 0, 4, 8]);
    assert_eq!(decimal.scale(), 0);

    let zero = Decimal::from_i32(0);
    assert!(!zero.is_negative());
    assert_eq!(zero.digits(), &vec![0u8]);
    assert_eq!(zero.scale(), 0);

    let least = Decimal::from_i32(i32::MIN);
    assert!(least.is_negative());
    assert_eq!(least.digits(), &vec![2u8, 1, 4, 7, 4, 8, 3, 6, 4, 8]);
}

#[test]
fn from_digits_agrees_with_from_i32() {
    assert_eq!(Decimal::from_digits(false, vec![4, 2], 0), Some(Decimal::from_i32(42)));
    assert_eq!(Decimal::from_digits(true, vec![4, 2], 0), Some(Decimal::from_i32(-42)));
    assert_eq!(Decimal::from_digits(false, vec![0], 0), Some(Decimal::from_i32(0)));
}

#[test]
fn a_positive_scale_puts_digits_behind_the_point() {
    let decimal = Decimal::from_digits(true, vec![1, 2, 3, 4, 5], 2).unwrap();
    assert_eq!(decimal.to_text(), "-123.45");
    let decimal = Decimal::from_digits(false, vec![5], 3).unwrap();
    assert_eq!(decimal.to_text(), "0.005");
    let decimal = Decimal::from_digits(false, vec![1, 0], 1).unwrap();
    assert_eq!(decimal.to_text(), "1.0");
    let decimal = Decimal::from_digits(false, vec![1, 2], 2).unwrap();
    assert_eq!(decimal.to_text(), "0.12");
}

#[test]
fn a_negative_scale_adds_zeros() {
    let decimal = Decimal::from_digits(false, vec![1, 2], -3).unwrap();
    assert_eq!(decimal.to_text(), "12000");
    let decimal = Decimal::from_digits(true, vec![7], -1).unwrap();
    assert_eq!(decimal.to_text(), "-70");
}

#[test]
fn many_digits_are_written_without_rounding() {
    let digits = vec![
        9, 0, 0, 7, 1, 9, 9, 2, 5, 4, 7, 4, 0, 9, 9, 3, 0, 0, 0, 0, 0, 0, 0, 0, 0, 0, 0, 0, 0, 0, 0,
        0, 0, 0, 0, 0, 0, 0, 0, 1,
    ];
    let decimal = Decimal::from_digits(false, digits.clone(), 24).unwrap();
    assert_eq!(decimal.to_text(), "9007199254740993.000000000000000000000001");
    assert_eq!(decimal.digits(), &digits);
    assert_eq!(decimal.scale(), 24);

    let tenth = Decimal::from_digits(false, vec![1], 1).unwrap();
    assert_eq!(tenth.to_text(), "0.1");
    let sum = Decimal::from_digits(false, vec![3, 0, 0, 0, 0, 0, 0, 0, 0, 0, 0, 0, 0, 0, 0, 0, 4], 17)
        .unwrap();
    assert_eq!(sum.to_text(), "0.30000000000000004");
}

#[test]
fn from_digits_refuses_what_is_no_numeral() {
    assert_eq!(Decimal::from_digits(false, vec![], 0), None);
    assert_eq!(Decimal::from_digits(false, vec![1, 10], 0), None);
    assert_eq!(Decimal::from_digits(false, vec![255], 0), None);
    assert_eq!(Decimal::from_digits(false, vec![0, 1], 0), None);
    assert_eq!(Decimal::from_digits(false, vec![0, 0], 0), None);
}

#[test]
fn from_digits_refuses_a_negative_zero() {
    assert_eq!(Decimal::from_digits(true, vec![0], 0), None);
    assert_eq!(Decimal::from_digits(true, vec![0], 5), None);
    assert!(Decimal::from_digits(false, vec![0], 5).is_some());
}

#[test]
fn from_digits_refuses_a_number_too_long_to_write() {
    assert_eq!(Decimal::from_digits(false, vec![1], i64::MAX), None);
    assert_eq!(Decimal::from_digits(false, vec![1], i64::MIN), None);
    assert_eq!(Decimal::from_digits(false, vec![1], i64::MIN + 1), None);
}

#[test]
fn decimals_are_equal_when_unscaled_and_scale_are() {
    let one = Decimal::from_digits(false, vec![1, 0], 1).unwrap();
    assert_eq!(one, one.clone());
    assert_eq!(one, Decimal::from_digits(false, vec![1, 0], 1).unwrap());
    assert_ne!(one, Decimal::from_digits(false, vec![1, 0, 0], 2).unwrap());
    assert_ne!(one, Decimal::from_digits(false, vec![1, 0], 2).unwrap());
    assert_ne!(one, Decimal::from_digits(true, vec![1, 0], 1).unwrap());
    assert_ne!(one, Decimal::from_digits(false, vec![1, 1], 1).unwrap());
    assert_ne!(one, Decimal::from_i32(1));
}

#[test]
fn a_copy_is_written_like_the_decimal() {
    let decimal = Decimal::from_digits(true, vec![9, 9, 9], 4).unwrap();
    let copy = decimal.clone();
    assert_eq!(copy.to_text(), "-0.0999");
    assert_eq!(copy.to_text(), decimal.to_text());
}
