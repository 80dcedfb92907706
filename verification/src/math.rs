//! Checked arithmetic and basis-point percentages.
//!
//! Nothing here wraps or saturates: a result that does not fit is an error.

use vstd::prelude::*;
use crate::error::TixError;

verus! {

/// `bps` basis points of `amount`, rounded down.
pub open spec fn percentage_of(amount: int, bps: int) -> int {
    amount * bps / 10000
}

/// `bps` basis points of `amount`, rounded to the nearest unit, halves up.
pub open spec fn rounded_percentage_of(amount: int, bps: int) -> int {
    (amount * bps + 5000) / 10000
}

/// `amount` marked up by `bps` basis points, rounded down:
/// `amount * (10000 + bps) / 10000`.
pub open spec fn marked_up(amount: int, bps: int) -> int {
    amount * (10000 + bps) / 10000
}

/// A product of a 64-bit and a 17-bit factor fits in 128 bits with room to spare.
pub proof fn lemma_product_bounds(amount: int, factor: int)
    requires
        0 <= amount <= u64::MAX,
        0 <= factor <= 0x2_0000,
    ensures
        0 <= amount * factor <= 0x2_0000 * 0xffff_ffff_ffff_ffff,
{
    assert(0 <= amount * factor <= 0x2_0000 * 0xffff_ffff_ffff_ffff) by (nonlinear_arith)
        requires
            0 <= amount <= 0xffff_ffff_ffff_ffff,
            0 <= factor <= 0x2_0000,
    ;
}

/// A percentage of at most one hundred percent never exceeds the amount.
pub proof fn lemma_percentage_bounded(amount: int, bps: int)
    requires
        0 <= amount,
        0 <= bps <= 10000,
    ensures
        0 <= percentage_of(amount, bps) <= amount,
{
    assert(0 <= amount * bps <= amount * 10000) by (nonlinear_arith)
        requires
            0 <= amount,
            0 <= bps <= 10000,
    ;
}

/// `bps` basis points of `amount`, rounded down, computed in 128 bits.
pub fn calculate_percentage(amount: u64, bps: u16) -> (r: Result<u64, TixError>)
    ensures
        match r {
            Ok(v) => v == percentage_of(amount as int, bps as int),
            Err(e) => e == TixError::MathOverflow && percentage_of(amount as int, bps as int)
                > u64::MAX,
        },
        bps <= 10000 ==> r is Ok,
{
    proof {
        lemma_product_bounds(amount as int, bps as int);
        if bps <= 10000 {
            lemma_percentage_bounded(amount as int, bps as int);
        }
    }
    let product: u128 = (amount as u128) * (bps as u128);
    let result: u128 = product / 10000;
    if result > u64::MAX as u128 {
        Err(TixError::MathOverflow)
    } else {
        Ok(result as u64)
    }
}

/// `bps` basis points of `amount`, rounded half up, computed in 128 bits.
pub fn calculate_percentage_with_rounding(amount: u64, bps: u16) -> (r: Result<u64, TixError>)
    ensures
        match r {
            Ok(v) => v == rounded_percentage_of(amount as int, bps as int),
            Err(e) => e == TixError::MathOverflow && rounded_percentage_of(
                amount as int,
                bps as int,
            ) > u64::MAX,
        },
{
    proof {
        lemma_product_bounds(amount as int, bps as int);
    }
    let product: u128 = (amount as u128) * (bps as u128);
    let result: u128 = (product + 5000) / 10000;
    if result > u64::MAX as u128 {
        Err(TixError::MathOverflow)
    } else {
        Ok(result as u64)
    }
}

/// `amount` marked up by `bps` basis points, rounded down, computed in 128 bits.
pub fn calculate_markup(amount: u64, bps: u16) -> (r: Result<u64, TixError>)
    ensures
        match r {
            Ok(v) => v == marked_up(amount as int, bps as int),
            Err(e) => e == TixError::MathOverflow && marked_up(amount as int, bps as int)
                > u64::MAX,
        },
{
    proof {
        lemma_product_bounds(amount as int, 10000 + bps as int);
    }
    let factor: u128 = 10000u128 + (bps as u128);
    let product: u128 = (amount as u128) * factor;
    let result: u128 = product / 10000;
    if result > u64::MAX as u128 {
        Err(TixError::MathOverflow)
    } else {
        Ok(result as u64)
    }
}

/// `a + b`, or `MathOverflow` when the sum does not fit.
pub fn safe_add(a: u64, b: u64) -> (r: Result<u64, TixError>)
    ensures
        match r {
            Ok(v) => v == a + b,
            Err(e) => e == TixError::MathOverflow && a + b > u64::MAX,
        },
{
    match a.checked_add(b) {
        Some(v) => Ok(v),
        None => Err(TixError::MathOverflow),
    }
}

/// `a - b`, or `MathUnderflow` when `b` exceeds `a`.
pub fn safe_sub(a: u64, b: u64) -> (r: Result<u64, TixError>)
    ensures
        match r {
            Ok(v) => v == a - b,
            Err(e) => e == TixError::MathUnderflow && a < b,
        },
{
    match a.checked_sub(b) {
        Some(v) => Ok(v),
        None => Err(TixError::MathUnderflow),
    }
}

/// `a * b`, or `MathOverflow` when the product does not fit.
pub fn safe_mul(a: u64, b: u64) -> (r: Result<u64, TixError>)
    ensures
        match r {
            Ok(v) => v == a * b,
            Err(e) => e == TixError::MathOverflow && a * b > u64::MAX,
        },
{
    match a.checked_mul(b) {
        Some(v) => Ok(v),
        None => Err(TixError::MathOverflow),
    }
}

/// `a / b` rounded down, or `MathOverflow` when `b` is zero.
pub fn safe_div(a: u64, b: u64) -> (r: Result<u64, TixError>)
    ensures
        match r {
            Ok(v) => b > 0 && v == a / b,
            Err(e) => e == TixError::MathOverflow && b == 0,
        },
{
    if b == 0 {
        Err(TixError::MathOverflow)
    } else {
        Ok(a / b)
    }
}

/// `a + b` in 128 bits, or `MathOverflow` when the sum does not fit.
pub fn safe_add_u128(a: u128, b: u128) -> (r: Result<u128, TixError>)
    ensures
        match r {
            Ok(v) => v == a + b,
            Err(e) => e == TixError::MathOverflow && a + b > u128::MAX,
        },
{
    match a.checked_add(b) {
        Some(v) => Ok(v),
        None => Err(TixError::MathOverflow),
    }
}

/// `a - b` in 128 bits, or `MathUnderflow` when `b` exceeds `a`.
pub fn safe_sub_u128(a: u128, b: u128) -> (r: Result<u128, TixError>)
    ensures
        match r {
            Ok(v) => v == a - b,
            Err(e) => e == TixError::MathUnderflow && a < b,
        },
{
    match a.checked_sub(b) {
        Some(v) => Ok(v),
        None => Err(TixError::MathUnderflow),
    }
}

/// `a * b` in 128 bits, or `MathOverflow` when the product does not fit.
pub fn safe_mul_u128(a: u128, b: u128) -> (r: Result<u128, TixError>)
    ensures
        match r {
            Ok(v) => v == a * b,
            Err(e) => e == TixError::MathOverflow && a * b > u128::MAX,
        },
{
    match a.checked_mul(b) {
        Some(v) => Ok(v),
        None => Err(TixError::MathOverflow),
    }
}

/// `a / b` in 128 bits rounded down, or `MathOverflow` when `b` is zero.
pub fn safe_div_u128(a: u128, b: u128) -> (r: Result<u128, TixError>)
    ensures
        match r {
            Ok(v) => b > 0 && v == a / b,
            Err(e) => e == TixError::MathOverflow && b == 0,
        },
{
    if b == 0 {
        Err(TixError::MathOverflow)
    } else {
        Ok(a / b)
    }
}

} // verus!
