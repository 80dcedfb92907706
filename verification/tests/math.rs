use pulse::error::TixError;
use pulse::math::{
    calculate_markup, calculate_percentage, calculate_percentage_with_rounding, safe_add,
    safe_add_u128, safe_div, safe_div_u128, safe_mul, safe_mul_u128, safe_sub, safe_sub_u128,
};

#[test]
fn percentage_rounds_down() {
    assert_eq!(calculate_percentage(1_000_000, 250), Ok(25_000));
    assert_eq!(calculate_percentage(1_000_000, 500), Ok(50_000));
    assert_eq!(calculate_percentage(9_999, 1), Ok(0));
    assert_eq!(calculate_percentage(19_999, 1), Ok(1));
    assert_eq!(calculate_percentage(0, 10_000), Ok(0));
    assert_eq!(calculate_percentage(u64::MAX, 10_000), Ok(u64::MAX));
}

#[test]
fn percentage_above_the_whole_may_not_fit() {
    assert_eq!(calculate_percentage(u64::MAX, 10_001), Err(TixError::MathOverflow));
    assert_eq!(calculate_percentage(100, 20_000), Ok(200));
}

#[test]
fn rounded_percentage_rounds_half_up() {
    assert_eq!(calculate_percentage_with_rounding(9_999, 1), Ok(1));
    assert_eq!(calculate_percentage_with_rounding(5_000, 1), Ok(1));
    assert_eq!(calculate_percentage_with_rounding(4_999, 1), Ok(0));
    assert_eq!(calculate_percentage_with_rounding(1_000_000, 250), Ok(25_000));
    assert_eq!(calculate_percentage_with_rounding(u64::MAX, 65_535), Err(TixError::MathOverflow));
}

#[test]
fn markup_adds_the_percentage() {
    assert_eq!(calculate_markup(100_000, 5_000), Ok(150_000));
    assert_eq!(calculate_markup(100_000, 0), Ok(100_000));
    assert_eq!(calculate_markup(3, 3_333), Ok(3));
    assert_eq!(calculate_markup(u64::MAX, 1), Err(TixError::MathOverflow));
}

#[test]
fn checked_operations_report_what_does_not_fit() {
    assert_eq!(safe_add(1, 2), Ok(3));
    assert_eq!(safe_add(u64::MAX, 1), Err(TixError::MathOverflow));
    assert_eq!(safe_sub(3, 2), Ok(1));
    assert_eq!(safe_sub(2, 3), Err(TixError::MathUnderflow));
    assert_eq!(safe_mul(6, 7), Ok(42));
    assert_eq!(safe_mul(u64::MAX, 2), Err(TixError::MathOverflow));
    assert_eq!(safe_div(7, 2), Ok(3));
    assert_eq!(safe_div(7, 0), Err(TixError::MathOverflow));
}

#[test]
fn checked_operations_in_128_bits() {
    assert_eq!(safe_add_u128(u64::MAX as u128, 1), Ok(1u128 << 64));
    assert_eq!(safe_add_u128(u128::MAX, 1), Err(TixError::MathOverflow));
    assert_eq!(safe_sub_u128(5, 5), Ok(0));
    assert_eq!(safe_sub_u128(0, 1), Err(TixError::MathUnderflow));
    assert_eq!(safe_mul_u128(1u128 << 64, 1u128 << 63), Ok(1u128 << 127));
    assert_eq!(safe_mul_u128(1u128 << 64, 1u128 << 64), Err(TixError::MathOverflow));
    assert_eq!(safe_div_u128(9, 4), Ok(2));
    assert_eq!(safe_div_u128(9, 0), Err(TixError::MathOverflow));
}
