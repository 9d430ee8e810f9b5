use perps_core::errors::PerpsError;
use perps_core::fixed_point::{fp_div, fp_mul, from_fp, to_fp, FP};

#[test]
fn test_to_fp_scales_up() {
    assert_eq!(to_fp(0), 0);
    assert_eq!(to_fp(5), 5_000_000);
    assert_eq!(to_fp(u64::MAX), (u64::MAX as u128) * FP);
}

#[test]
fn test_from_fp_truncates() {
    assert_eq!(from_fp(5_000_000), 5);
    assert_eq!(from_fp(5_999_999), 5);
    assert_eq!(from_fp(999_999), 0);
}

#[test]
fn test_fp_round_trip() {
    for x in [0u64, 1, 7, 1_000, u64::MAX] {
        assert_eq!(from_fp(to_fp(x)), x as u128);
    }
}

#[test]
fn test_fp_mul_exact() {
    // 3.0 * 2.0 == 6.0 in fixed point.
    assert_eq!(fp_mul(3_000_000, 2_000_000), Ok(6_000_000));
    // 1.5 * 2.5 == 3.75.
    assert_eq!(fp_mul(1_500_000, 2_500_000), Ok(3_750_000));
    assert_eq!(fp_mul(0, 123), Ok(0));
}

#[test]
fn test_fp_mul_overflow() {
    assert_eq!(fp_mul(u128::MAX, 2), Err(PerpsError::MathOverflow));
}

#[test]
fn test_fp_div_exact() {
    // 6.0 / 2.0 == 3.0 in fixed point.
    assert_eq!(fp_div(6_000_000, 2_000_000), Ok(3_000_000));
    // 1.0 / 3.0 truncates toward zero.
    assert_eq!(fp_div(1_000_000, 3_000_000), Ok(333_333));
}

#[test]
fn test_fp_div_by_zero() {
    assert_eq!(fp_div(1_000_000, 0), Err(PerpsError::DivisionByZero));
}

#[test]
fn test_fp_div_overflow() {
    assert_eq!(fp_div(u128::MAX, 1_000_000), Err(PerpsError::MathOverflow));
}

#[test]
fn test_fp_mul_then_div_within_one_unit() {
    // Multiplying by a factor of at least one and dividing by the same
    // factor loses at most one unit to rounding.
    for (x, f) in [
        (1_000_000u128, 3_000_000u128),
        (7u128, 1_000_000u128),
        (123_456_789u128, 1_999_999u128),
        (1u128, 7_777_777u128),
    ] {
        let y = fp_mul(x, f).unwrap();
        let z = fp_div(y, f).unwrap();
        assert!(z <= x && x - z <= 1, "x={x} f={f} z={z}");
    }
}
