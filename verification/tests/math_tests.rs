use vault_core::errors::ErrorCode;
use vault_core::math::{mul_div, pow10_u64, Rounding, MAX_DECIMALS};

#[test]
fn mul_div_overflow_at_native_width() {
    assert_eq!(
        mul_div(u64::MAX, u64::MAX, 1, Rounding::Floor),
        Err(ErrorCode::ArithmeticOverflow)
    );
}

#[test]
fn mul_div_ceiling_rounds_up() {
    assert_eq!(mul_div(6, 1, 4, Rounding::Ceiling), Ok(2));
}

#[test]
fn mul_div_floor_rounds_down() {
    assert_eq!(mul_div(6, 1, 4, Rounding::Floor), Ok(1));
}

#[test]
fn mul_div_exact_quotient_ignores_rounding() {
    assert_eq!(mul_div(8, 3, 4, Rounding::Floor), Ok(6));
    assert_eq!(mul_div(8, 3, 4, Rounding::Ceiling), Ok(6));
}

#[test]
fn mul_div_zero_divisor_fails() {
    assert_eq!(mul_div(1, 1, 0, Rounding::Floor), Err(ErrorCode::ArithmeticOverflow));
    assert_eq!(mul_div(1, 1, 0, Rounding::Ceiling), Err(ErrorCode::ArithmeticOverflow));
}

#[test]
fn mul_div_widened_intermediate_product() {
    // The intermediate product exceeds 64 bits; the narrowed result fits.
    let a = 1u64 << 40;
    let b = 1u64 << 40;
    let c = 1u64 << 20;
    assert_eq!(mul_div(a, b, c, Rounding::Floor), Ok(1u64 << 60));
}

#[test]
fn mul_div_result_barely_fits() {
    assert_eq!(mul_div(u64::MAX, 1, 1, Rounding::Floor), Ok(u64::MAX));
    assert_eq!(
        mul_div(u64::MAX, 2, 1, Rounding::Floor),
        Err(ErrorCode::ArithmeticOverflow)
    );
}

#[test]
fn mul_div_zero_numerator() {
    assert_eq!(mul_div(0, u64::MAX, 7, Rounding::Ceiling), Ok(0));
}

#[test]
fn pow10_small_exponents() {
    assert_eq!(pow10_u64(0), 1);
    assert_eq!(pow10_u64(1), 10);
    assert_eq!(pow10_u64(2), 100);
    assert_eq!(pow10_u64(9), 1_000_000_000);
}

#[test]
fn pow10_max_exponent() {
    assert_eq!(pow10_u64(MAX_DECIMALS), 1_000_000_000_000_000_000);
}
