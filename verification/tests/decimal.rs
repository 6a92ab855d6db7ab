use snom_sql::decimal::{signed_decimal, unsigned_decimal};

#[test]
fn zero_is_a_single_digit() {
    assert_eq!(unsigned_decimal(0), "0");
    assert_eq!(signed_decimal(0), "0");
}

#[test]
fn unsigned_numbers_have_no_leading_zero() {
    assert_eq!(unsigned_decimal(7), "7");
    assert_eq!(unsigned_decimal(10), "10");
    assert_eq!(unsigned_decimal(1203), "1203");
    assert_eq!(unsigned_decimal(u64::MAX), "18446744073709551615");
}

#[test]
fn negative_numbers_carry_a_minus_sign() {
    assert_eq!(signed_decimal(-1), "-1");
    assert_eq!(signed_decimal(-9000), "-9000");
    assert_eq!(signed_decimal(i64::MIN), "-9223372036854775808");
}

#[test]
fn positive_numbers_carry_no_sign() {
    assert_eq!(signed_decimal(42), "42");
    assert_eq!(signed_decimal(i64::MAX), "9223372036854775807");
}

#[test]
fn decimal_agrees_with_the_standard_formatting() {
    let samples: [i64; 9] = [0, 1, -1, 9, 10, 99, 100, -123456789, 1_000_000_007];
    for v in samples {
        assert_eq!(signed_decimal(v), format!("{}", v));
    }
}
