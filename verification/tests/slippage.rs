use leverage::contract::{delever_withdraw_amount, leverage_borrow_amount, BORROW_BPS};
use leverage::errors::LeverageError;
use leverage::swap::{
    calculate_max_amount_in, calculate_min_amount_out, swap_within_bounds, BPS_DENOMINATOR,
    DEFAULT_SLIPPAGE_BPS,
};

#[test]
fn min_out_and_max_in_at_default_tolerance() {
    assert_eq!(calculate_min_amount_out(1000, 50), Ok(995));
    assert_eq!(calculate_max_amount_in(1000, 50), Ok(1005));
}

#[test]
fn constants_hold_their_documented_values() {
    assert_eq!(BPS_DENOMINATOR, 10000);
    assert_eq!(DEFAULT_SLIPPAGE_BPS, 50);
    assert_eq!(BORROW_BPS, 8500);
}

#[test]
fn slippage_brackets_the_quote_on_concrete_values() {
    for &expected in &[1i128, 7, 1000, 99999, 1_000_000_000_000] {
        for &bps in &[0i128, 1, 50, 9999] {
            let min = calculate_min_amount_out(expected, bps).unwrap();
            let max = calculate_max_amount_in(expected, bps).unwrap();
            assert!(min <= expected);
            assert!(expected <= max);
        }
    }
}

#[test]
fn min_out_truncates_toward_zero() {
    // 999 * 9950 / 10000 = 9940050 / 10000 -> 994 with the remainder dropped
    assert_eq!(calculate_min_amount_out(999, 50), Ok(994));
    assert_eq!(calculate_min_amount_out(1, 1), Ok(0));
}

#[test]
fn zero_tolerance_keeps_the_quote() {
    assert_eq!(calculate_min_amount_out(12345, 0), Ok(12345));
    assert_eq!(calculate_max_amount_in(12345, 0), Ok(12345));
}

#[test]
fn slippage_overflow_is_reported() {
    assert_eq!(
        calculate_min_amount_out(i128::MAX, 50),
        Err(LeverageError::ArithmeticOverflow)
    );
    assert_eq!(
        calculate_max_amount_in(i128::MAX, 50),
        Err(LeverageError::ArithmeticOverflow)
    );
    assert_eq!(
        calculate_max_amount_in(1000, i128::MAX),
        Err(LeverageError::ArithmeticOverflow)
    );
}

#[test]
fn borrow_sizer_takes_its_fraction() {
    assert_eq!(leverage_borrow_amount(2000, 8500), Ok(1700));
    assert_eq!(leverage_borrow_amount(2000, BORROW_BPS), Ok(1700));
    // one unit of collateral rounds down to nothing borrowable
    assert_eq!(leverage_borrow_amount(1, 8500), Ok(0));
    assert_eq!(
        leverage_borrow_amount(i128::MAX, 8500),
        Err(LeverageError::ArithmeticOverflow)
    );
}

#[test]
fn withdraw_sizer_leaves_the_required_collateral() {
    // required = 500 * 15000 / 10000 = 750; withdraw 1000 - 750 = 250
    assert_eq!(delever_withdraw_amount(500, 1000, 15000), Ok(250));
    // collateral already at or below the requirement: nothing to withdraw
    assert_eq!(delever_withdraw_amount(500, 750, 15000), Ok(0));
    assert_eq!(delever_withdraw_amount(500, 100, 15000), Ok(0));
}

#[test]
fn withdraw_sizer_takes_everything_once_debt_is_cleared() {
    assert_eq!(delever_withdraw_amount(0, 400, 15000), Ok(400));
    assert_eq!(delever_withdraw_amount(0, 0, 15000), Ok(0));
}

#[test]
fn withdraw_sizer_overflow_is_reported() {
    assert_eq!(
        delever_withdraw_amount(i128::MAX, 1000, 15000),
        Err(LeverageError::ArithmeticOverflow)
    );
}

#[test]
fn swap_bounds_check_is_exact() {
    assert!(swap_within_bounds(1003, 1700, 1003, 1700));
    assert!(swap_within_bounds(1003, 1700, 1004, 0));
    assert!(!swap_within_bounds(1003, 1700, 1002, 100));
    assert!(!swap_within_bounds(1003, 1700, 1003, 1701));
}
