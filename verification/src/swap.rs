//! Slippage guard: pure arithmetic bounding acceptable swap outcomes from a
//! quoted amount and a basis-point tolerance.
//!
//! Multiplication comes before division, so the guard checks for overflow of
//! the 128-bit product and fails with `ArithmeticOverflow` rather than
//! wrapping.

use vstd::prelude::*;
use vstd::arithmetic::div_mod::{
    lemma_div_is_ordered, lemma_div_multiples_vanish, lemma_div_nonincreasing,
    lemma_div_pos_is_pos,
};
use vstd::arithmetic::mul::{lemma_mul_left_inequality, lemma_mul_strictly_positive};
use crate::errors::LeverageError;

verus! {

/// One basis point is 1/10000 of the whole.
pub const BPS_DENOMINATOR: i128 = 10000;

/// Default slippage tolerance applied to router quotes: 50 bps = 0.5%.
pub const DEFAULT_SLIPPAGE_BPS: i128 = 50;

/// Whether a mathematical integer is representable as an `i128`.
pub open spec fn fits_i128(x: int) -> bool {
    i128::MIN <= x <= i128::MAX
}

/// Division as executable `i128` division computes it: truncating toward
/// zero, unlike spec-mode `/`, which is Euclidean on negative operands.
pub open spec fn trunc_div(x: int, d: int) -> int
    recommends
        d != 0,
{
    if x == 0 {
        0
    } else if x > 0 && d > 0 {
        x / d
    } else if x < 0 && d < 0 {
        ((x * -1) / (d * -1))
    } else if x < 0 {
        ((x * -1) / d) * -1
    } else {
        (x / (d * -1)) * -1
    }
}

/// `floor(expected * (10000 - slippage_bps) / 10000)`, truncating toward zero.
pub open spec fn spec_min_amount_out(expected: int, slippage_bps: int) -> int {
    trunc_div(expected * (BPS_DENOMINATOR - slippage_bps), BPS_DENOMINATOR as int)
}

/// `floor(expected * (10000 + slippage_bps) / 10000)`, truncating toward zero.
pub open spec fn spec_max_amount_in(expected: int, slippage_bps: int) -> int {
    trunc_div(expected * (BPS_DENOMINATOR + slippage_bps), BPS_DENOMINATOR as int)
}

/// When the minimum-output bound is computable without overflow.
pub open spec fn min_out_fits(expected: int, slippage_bps: int) -> bool {
    fits_i128(expected * (BPS_DENOMINATOR - slippage_bps))
}

/// When the maximum-input bound is computable without overflow.
pub open spec fn max_in_fits(expected: int, slippage_bps: int) -> bool {
    BPS_DENOMINATOR + slippage_bps <= i128::MAX && fits_i128(
        expected * (BPS_DENOMINATOR + slippage_bps),
    )
}

/// Truncating division keeps a value between zero and the dividend.
pub proof fn lemma_trunc_div_bounds(x: int, d: int)
    requires
        d >= 1,
    ensures
        x >= 0 ==> 0 <= trunc_div(x, d) <= x,
        x < 0 ==> x <= trunc_div(x, d) <= 0,
{
    if x >= 0 {
        lemma_div_pos_is_pos(x, d);
        lemma_div_nonincreasing(x, d);
    } else {
        lemma_div_pos_is_pos(x * -1, d);
        lemma_div_nonincreasing(x * -1, d);
    }
}

/// Divides by the basis-point denominator with truncation toward zero.
pub(crate) fn div_bps(x: i128) -> (r: i128)
    ensures
        r == trunc_div(x as int, BPS_DENOMINATOR as int),
{
    proof {
        lemma_trunc_div_bounds(x as int, BPS_DENOMINATOR as int);
    }
    x.checked_div(BPS_DENOMINATOR).unwrap()
}

/// Minimum acceptable output of a swap, from a quoted output and a tolerance.
///
/// A tolerance at or above 10000 bps would allow a negative bound, so callers
/// must stay below it.
pub fn calculate_min_amount_out(amount_out_expected: i128, slippage_bps: i128) -> (r: Result<
    i128,
    LeverageError,
>)
    requires
        0 <= slippage_bps < BPS_DENOMINATOR,
    ensures
        r is Ok <==> min_out_fits(amount_out_expected as int, slippage_bps as int),
        r matches Ok(v) ==> v == spec_min_amount_out(
            amount_out_expected as int,
            slippage_bps as int,
        ),
        r is Err ==> r == Err::<i128, LeverageError>(LeverageError::ArithmeticOverflow),
{
    let slippage_factor: i128 = BPS_DENOMINATOR - slippage_bps;
    match amount_out_expected.checked_mul(slippage_factor) {
        Some(product) => Ok(div_bps(product)),
        None => Err(LeverageError::ArithmeticOverflow),
    }
}

/// Maximum acceptable input of a swap, from a quoted input and a tolerance.
pub fn calculate_max_amount_in(amount_in_expected: i128, slippage_bps: i128) -> (r: Result<
    i128,
    LeverageError,
>)
    requires
        0 <= slippage_bps,
    ensures
        r is Ok <==> max_in_fits(amount_in_expected as int, slippage_bps as int),
        r matches Ok(v) ==> v == spec_max_amount_in(
            amount_in_expected as int,
            slippage_bps as int,
        ),
        r is Err ==> r == Err::<i128, LeverageError>(LeverageError::ArithmeticOverflow),
{
    match BPS_DENOMINATOR.checked_add(slippage_bps) {
        Some(slippage_factor) => match amount_in_expected.checked_mul(slippage_factor) {
            Some(product) => Ok(div_bps(product)),
            None => Err(LeverageError::ArithmeticOverflow),
        },
        None => Err(LeverageError::ArithmeticOverflow),
    }
}

/// Whether an exact-out swap result respects its bounds: it delivered at
/// least the required output and spent no more than the input cap.
pub open spec fn spec_swap_within_bounds(
    required_out: int,
    max_in: int,
    amount_out: int,
    amount_in_spent: int,
) -> bool {
    amount_out >= required_out && amount_in_spent <= max_in
}

/// Checks an exact-out swap result against its bounds. An out-of-bound
/// result is a full abort for the orchestration, never a partial or a retry.
pub fn swap_within_bounds(
    required_out: i128,
    max_in: i128,
    amount_out: i128,
    amount_in_spent: i128,
) -> (r: bool)
    ensures
        r == spec_swap_within_bounds(
            required_out as int,
            max_in as int,
            amount_out as int,
            amount_in_spent as int,
        ),
{
    amount_out >= required_out && amount_in_spent <= max_in
}

/// Law: for a positive quote and a tolerance below 100%, the minimum
/// acceptable output never exceeds the quote, and the maximum acceptable
/// input is never below it.
pub proof fn lemma_slippage_brackets_quote(expected: int, slippage_bps: int)
    requires
        expected > 0,
        0 <= slippage_bps < BPS_DENOMINATOR,
    ensures
        spec_min_amount_out(expected, slippage_bps) <= expected,
        expected <= spec_max_amount_in(expected, slippage_bps),
{
    let denom = BPS_DENOMINATOR as int;
    let low = denom - slippage_bps;
    let high = denom + slippage_bps;
    lemma_mul_strictly_positive(expected, low);
    lemma_mul_strictly_positive(expected, high);
    lemma_mul_left_inequality(expected, low, denom);
    lemma_mul_left_inequality(expected, denom, high);
    lemma_div_multiples_vanish(expected, denom);
    assert(expected * denom == denom * expected) by (nonlinear_arith);
    lemma_div_is_ordered(expected * low, expected * denom, denom);
    lemma_div_is_ordered(expected * denom, expected * high, denom);
    lemma_trunc_div_bounds(expected * low, denom);
    lemma_trunc_div_bounds(expected * high, denom);
}

} // verus!
