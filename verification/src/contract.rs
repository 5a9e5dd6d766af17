//! Flash-loan callback handler: the orchestration state machine.
//!
//! The handler runs as a dialogue with the host glue. Every decision stands
//! here as a transition from `(state, event)` to `(state, action)`: the host
//! performs the action on the ledger — a pool submission, a router call, a
//! token transfer — and feeds the outcome back as the next event. Any error
//! at any step is fatal: the host discards the whole transaction, so no
//! intermediate state ever persists.
//!
//! A run goes `Received` → the leverage-up or delever sequence → `Settled` →
//! `Repaid`. The transition into `Settled` always emits the one transfer
//! that repays principal plus fee of the flash-loaned asset to the caller,
//! and the only step after it is to finish.

use vstd::prelude::*;
use crate::blend;
use crate::blend::Request;
use crate::errors::LeverageError;
use crate::storage::Config;
use crate::swap;
use crate::swap::{
    fits_i128, max_in_fits, spec_max_amount_in, spec_swap_within_bounds, trunc_div,
    BPS_DENOMINATOR, DEFAULT_SLIPPAGE_BPS,
};

verus! {

/// Fraction of collateral value borrowed on leverage-up, in basis points.
/// The value assumes collateral and debt assets are priced one to one; a
/// production deployment would derive it from the target collateralization
/// and an oracle price, which is why the sizer takes it as a parameter.
pub const BORROW_BPS: i128 = 8500;

/// The inputs of one flash-loan callback: `amount` is the principal
/// advanced, `fee` the premium owed in addition to it.
#[derive(Clone, Copy, Debug, PartialEq, Eq, Structural)]
pub struct FlashLoan {
    pub caller: u64,
    pub asset: u64,
    pub amount: i128,
    pub fee: i128,
}

impl FlashLoan {
    /// Exactly this much of `asset` must go back to `caller` at the end.
    pub open spec fn repay_total(self) -> int {
        self.amount + self.fee
    }
}

/// Where a run stands. Each waiting state names the action whose outcome the
/// machine expects next.
#[derive(Clone, Copy, Debug, PartialEq, Eq, Structural)]
pub enum State {
    /// The callback has been received; nothing dispatched yet.
    Received,
    /// Leverage-up: reading the on-hand collateral balance.
    LevAwaitBalance,
    /// Leverage-up: depositing the full balance into the pool.
    LevAwaitDeposit { total_collateral: i128 },
    /// Leverage-up: borrowing the sized amount of the debt asset.
    LevAwaitBorrow { max_borrow: i128 },
    /// Leverage-up: swapping debt back into collateral, exact out.
    LevAwaitSwap { required_collateral: i128, max_spend: i128 },
    /// Delever: repaying the flash-loaned debt into the pool.
    DelAwaitRepay,
    /// Delever: withdrawing freed collateral.
    DelAwaitWithdraw,
    /// Delever: asking the router what the required debt output costs.
    DelAwaitQuote { required_debt: i128 },
    /// Delever: swapping collateral into debt, exact out.
    DelAwaitSwap { required_debt: i128, max_spend: i128 },
    /// Delever: reading the leftover collateral balance.
    DelAwaitSweepBalance,
    /// Delever: sending leftover collateral to the owner.
    DelAwaitSweepTransfer,
    /// Branch work done; the flash loan is being repaid.
    Settled,
    /// Terminal success.
    Repaid,
}

/// What the host reports back after performing an action. The host has
/// already authenticated the flash-loan caller and the owner before the
/// first event.
#[derive(Clone, Copy, Debug, PartialEq, Eq, Structural)]
pub enum Event {
    /// The callback fired.
    Started,
    /// A token balance of the contract, as read from the ledger.
    Balance { amount: i128 },
    /// Snapshot after a pool call: the liability in the debt asset and the
    /// collateral supply, each zero if absent.
    PoolUpdated { remaining_debt: i128, current_collateral: i128 },
    /// The router's quote: input needed for the requested output.
    Quoted { amount_in: i128 },
    /// An exact-out swap completed with these realized amounts.
    SwapDone { amount_in_spent: i128, amount_out: i128 },
    /// A token transfer completed.
    Transferred,
}

/// What the host must do next on the ledger.
#[derive(Clone, Copy, Debug, PartialEq, Eq, Structural)]
pub enum Action {
    /// Read the contract's balance of the collateral asset.
    ReadCollateralBalance,
    /// Submit this request to the pool; report the resulting snapshot.
    SubmitPool { request: Request },
    /// Ask the router how much `asset_in` the requested `amount_out` costs.
    QuoteAmountIn { amount_out: i128, asset_in: u64, asset_out: u64 },
    /// Execute an exact-out swap: deliver `amount_out` of `asset_out` while
    /// spending at most `max_in` of `asset_in`.
    SwapExactOut { amount_out: i128, max_in: i128, asset_in: u64, asset_out: u64 },
    /// Transfer `amount` of `asset` to `to`.
    Transfer { asset: u64, to: u64, amount: i128 },
    /// Nothing left to do.
    Finish,
}

/// `total_collateral * borrow_bps / 10000`: how much debt may be borrowed
/// against the deposited collateral, assuming one-to-one pricing.
pub open spec fn spec_borrow_amount(total_collateral: int, borrow_bps: int) -> int {
    trunc_div(total_collateral * borrow_bps, BPS_DENOMINATOR as int)
}

/// `remaining_debt * target_c_factor / 10000`: the collateral that must stay
/// behind to hold the position at the target collateralization.
pub open spec fn spec_required_collateral(remaining_debt: int, target_c_factor: int) -> int {
    trunc_div(remaining_debt * target_c_factor, BPS_DENOMINATOR as int)
}

/// How much collateral the delever branch withdraws: everything when the
/// debt is cleared, otherwise whatever stands above the required remainder.
pub open spec fn spec_withdraw_amount(
    remaining_debt: int,
    current_collateral: int,
    target_c_factor: int,
) -> int {
    if remaining_debt == 0 {
        current_collateral
    } else {
        let required = spec_required_collateral(remaining_debt, target_c_factor);
        if current_collateral > required {
            current_collateral - required
        } else {
            0
        }
    }
}

/// When the withdrawal sizing is computable without overflow.
pub open spec fn withdraw_amount_fits(
    remaining_debt: int,
    current_collateral: int,
    target_c_factor: int,
) -> bool {
    remaining_debt == 0 || {
        let required = spec_required_collateral(remaining_debt, target_c_factor);
        fits_i128(remaining_debt * target_c_factor) && (current_collateral <= required
            || fits_i128(current_collateral - required))
    }
}

/// Sizes the leverage-up borrow.
pub fn leverage_borrow_amount(total_collateral: i128, borrow_bps: i128) -> (r: Result<
    i128,
    LeverageError,
>)
    ensures
        r is Ok <==> fits_i128(total_collateral * borrow_bps),
        r matches Ok(v) ==> v == spec_borrow_amount(total_collateral as int, borrow_bps as int),
        r is Err ==> r == Err::<i128, LeverageError>(LeverageError::ArithmeticOverflow),
{
    match total_collateral.checked_mul(borrow_bps) {
        Some(product) => Ok(swap::div_bps(product)),
        None => Err(LeverageError::ArithmeticOverflow),
    }
}

/// Sizes the delever withdrawal from the post-repayment snapshot.
pub fn delever_withdraw_amount(
    remaining_debt: i128,
    current_collateral: i128,
    target_c_factor: i128,
) -> (r: Result<i128, LeverageError>)
    ensures
        r is Ok <==> withdraw_amount_fits(
            remaining_debt as int,
            current_collateral as int,
            target_c_factor as int,
        ),
        r matches Ok(v) ==> v == spec_withdraw_amount(
            remaining_debt as int,
            current_collateral as int,
            target_c_factor as int,
        ),
        r is Err ==> r == Err::<i128, LeverageError>(LeverageError::ArithmeticOverflow),
{
    if remaining_debt == 0 {
        Ok(current_collateral)
    } else {
        match remaining_debt.checked_mul(target_c_factor) {
            Some(product) => {
                let required = swap::div_bps(product);
                if current_collateral > required {
                    match current_collateral.checked_sub(required) {
                        Some(w) => Ok(w),
                        None => Err(LeverageError::ArithmeticOverflow),
                    }
                } else {
                    Ok(0)
                }
            },
            None => Err(LeverageError::ArithmeticOverflow),
        }
    }
}

/// The transition into `Settled`: the one transfer that repays principal
/// plus fee of the flash-loaned asset to the caller.
pub open spec fn spec_settle(loan: FlashLoan) -> Result<(State, Action), LeverageError> {
    if fits_i128(loan.repay_total()) {
        Ok(
            (
                State::Settled,
                Action::Transfer {
                    asset: loan.asset,
                    to: loan.caller,
                    amount: (loan.amount + loan.fee) as i128,
                },
            ),
        )
    } else {
        Err(LeverageError::ArithmeticOverflow)
    }
}

/// Classifies the flash-loaned asset: the collateral asset starts the
/// leverage-up branch, the debt asset the delever branch, anything else is
/// refused outright.
pub open spec fn spec_dispatch(config: Config, loan: FlashLoan) -> Result<
    (State, Action),
    LeverageError,
> {
    if loan.asset == config.collateral_asset {
        Ok((State::LevAwaitBalance, Action::ReadCollateralBalance))
    } else if loan.asset == config.debt_asset {
        if loan.amount <= 0 {
            Err(LeverageError::InvalidAmount)
        } else {
            Ok(
                (
                    State::DelAwaitRepay,
                    Action::SubmitPool {
                        request: blend::spec_repay_request(config, loan.amount),
                    },
                ),
            )
        }
    } else {
        Err(LeverageError::BadRequest)
    }
}

/// Moving toward the quote: the delever branch needs `amount + fee` of the
/// debt asset back on hand before it can settle.
pub open spec fn spec_begin_quote(config: Config, loan: FlashLoan) -> Result<
    (State, Action),
    LeverageError,
> {
    if fits_i128(loan.repay_total()) {
        let required_debt = (loan.amount + loan.fee) as i128;
        Ok(
            (
                State::DelAwaitQuote { required_debt },
                Action::QuoteAmountIn {
                    amount_out: required_debt,
                    asset_in: config.collateral_asset,
                    asset_out: config.debt_asset,
                },
            ),
        )
    } else {
        Err(LeverageError::ArithmeticOverflow)
    }
}

/// The leverage-up transitions: deposit the whole balance, borrow the sized
/// amount, swap debt back into collateral for exactly principal plus fee,
/// spending at most what was borrowed.
pub open spec fn spec_handle_leverage_up(
    config: Config,
    loan: FlashLoan,
    state: State,
    event: Event,
) -> Result<(State, Action), LeverageError> {
    match (state, event) {
        (State::LevAwaitBalance, Event::Balance { amount: total_collateral }) => {
            if total_collateral <= 0 {
                Err(LeverageError::InvalidAmount)
            } else {
                Ok(
                    (
                        State::LevAwaitDeposit { total_collateral },
                        Action::SubmitPool {
                            request: blend::spec_deposit_request(config, total_collateral),
                        },
                    ),
                )
            }
        },
        (State::LevAwaitDeposit { total_collateral }, Event::PoolUpdated { .. }) => {
            if !fits_i128(total_collateral * BORROW_BPS) {
                Err(LeverageError::ArithmeticOverflow)
            } else {
                let max_borrow = spec_borrow_amount(total_collateral as int, BORROW_BPS as int);
                if max_borrow <= 0 {
                    Err(LeverageError::InvalidAmount)
                } else {
                    Ok(
                        (
                            State::LevAwaitBorrow { max_borrow: max_borrow as i128 },
                            Action::SubmitPool {
                                request: blend::spec_borrow_request(config, max_borrow as i128),
                            },
                        ),
                    )
                }
            }
        },
        (State::LevAwaitBorrow { max_borrow }, Event::PoolUpdated { .. }) => {
            if fits_i128(loan.repay_total()) {
                let required_collateral = (loan.amount + loan.fee) as i128;
                Ok(
                    (
                        State::LevAwaitSwap { required_collateral, max_spend: max_borrow },
                        Action::SwapExactOut {
                            amount_out: required_collateral,
                            max_in: max_borrow,
                            asset_in: config.debt_asset,
                            asset_out: config.collateral_asset,
                        },
                    ),
                )
            } else {
                Err(LeverageError::ArithmeticOverflow)
            }
        },
        (
            State::LevAwaitSwap { required_collateral, max_spend },
            Event::SwapDone { amount_in_spent, amount_out },
        ) => {
            if spec_swap_within_bounds(
                required_collateral as int,
                max_spend as int,
                amount_out as int,
                amount_in_spent as int,
            ) {
                spec_settle(loan)
            } else {
                Err(LeverageError::BadRequest)
            }
        },
        _ => Err(LeverageError::BadRequest),
    }
}

/// The delever transitions: repay the flash-loaned debt, withdraw what the
/// sizing frees, quote and cap the swap back into debt, sweep leftover
/// collateral to the owner.
pub open spec fn spec_handle_deleverage(
    config: Config,
    loan: FlashLoan,
    state: State,
    event: Event,
) -> Result<(State, Action), LeverageError> {
    match (state, event) {
        (State::DelAwaitRepay, Event::PoolUpdated { remaining_debt, current_collateral }) => {
            if !withdraw_amount_fits(
                remaining_debt as int,
                current_collateral as int,
                config.target_c_factor as int,
            ) {
                Err(LeverageError::ArithmeticOverflow)
            } else {
                let w = spec_withdraw_amount(
                    remaining_debt as int,
                    current_collateral as int,
                    config.target_c_factor as int,
                );
                if w > 0 {
                    Ok(
                        (
                            State::DelAwaitWithdraw,
                            Action::SubmitPool {
                                request: blend::spec_withdraw_request(config, w as i128),
                            },
                        ),
                    )
                } else {
                    spec_begin_quote(config, loan)
                }
            }
        },
        (State::DelAwaitWithdraw, Event::PoolUpdated { .. }) => spec_begin_quote(config, loan),
        (State::DelAwaitQuote { required_debt }, Event::Quoted { amount_in }) => {
            if !max_in_fits(amount_in as int, DEFAULT_SLIPPAGE_BPS as int) {
                Err(LeverageError::ArithmeticOverflow)
            } else {
                let max_spend = spec_max_amount_in(
                    amount_in as int,
                    DEFAULT_SLIPPAGE_BPS as int,
                ) as i128;
                Ok(
                    (
                        State::DelAwaitSwap { required_debt, max_spend },
                        Action::SwapExactOut {
                            amount_out: required_debt,
                            max_in: max_spend,
                            asset_in: config.collateral_asset,
                            asset_out: config.debt_asset,
                        },
                    ),
                )
            }
        },
        (
            State::DelAwaitSwap { required_debt, max_spend },
            Event::SwapDone { amount_in_spent, amount_out },
        ) => {
            if spec_swap_within_bounds(
                required_debt as int,
                max_spend as int,
                amount_out as int,
                amount_in_spent as int,
            ) {
                Ok((State::DelAwaitSweepBalance, Action::ReadCollateralBalance))
            } else {
                Err(LeverageError::BadRequest)
            }
        },
        (State::DelAwaitSweepBalance, Event::Balance { amount }) => {
            if amount > 0 {
                Ok(
                    (
                        State::DelAwaitSweepTransfer,
                        Action::Transfer {
                            asset: config.collateral_asset,
                            to: config.owner,
                            amount,
                        },
                    ),
                )
            } else {
                spec_settle(loan)
            }
        },
        (State::DelAwaitSweepTransfer, Event::Transferred) => spec_settle(loan),
        _ => Err(LeverageError::BadRequest),
    }
}

/// The whole transition relation of one callback run.
pub open spec fn spec_exec_op(config: Config, loan: FlashLoan, state: State, event: Event) -> Result<
    (State, Action),
    LeverageError,
> {
    match state {
        State::Received => match event {
            Event::Started => spec_dispatch(config, loan),
            _ => Err(LeverageError::BadRequest),
        },
        State::LevAwaitBalance
        | State::LevAwaitDeposit { .. }
        | State::LevAwaitBorrow { .. }
        | State::LevAwaitSwap { .. } => spec_handle_leverage_up(config, loan, state, event),
        State::DelAwaitRepay
        | State::DelAwaitWithdraw
        | State::DelAwaitQuote { .. }
        | State::DelAwaitSwap { .. }
        | State::DelAwaitSweepBalance
        | State::DelAwaitSweepTransfer => spec_handle_deleverage(config, loan, state, event),
        State::Settled => match event {
            Event::Transferred => Ok((State::Repaid, Action::Finish)),
            _ => Err(LeverageError::BadRequest),
        },
        State::Repaid => Err(LeverageError::BadRequest),
    }
}

/// The flash-loan receiver and its branch handlers.
pub struct LeverageContract;

impl LeverageContract {
    /// Settles the run: emits the repayment transfer.
    fn settle(loan: &FlashLoan) -> (r: Result<(State, Action), LeverageError>)
        ensures
            r == spec_settle(*loan),
    {
        match loan.amount.checked_add(loan.fee) {
            Some(total) => Ok(
                (
                    State::Settled,
                    Action::Transfer { asset: loan.asset, to: loan.caller, amount: total },
                ),
            ),
            None => Err(LeverageError::ArithmeticOverflow),
        }
    }

    /// Moves the delever branch to the quoting step.
    fn begin_quote(config: &Config, loan: &FlashLoan) -> (r: Result<
        (State, Action),
        LeverageError,
    >)
        ensures
            r == spec_begin_quote(*config, *loan),
    {
        match loan.amount.checked_add(loan.fee) {
            Some(required_debt) => Ok(
                (
                    State::DelAwaitQuote { required_debt },
                    Action::QuoteAmountIn {
                        amount_out: required_debt,
                        asset_in: config.collateral_asset,
                        asset_out: config.debt_asset,
                    },
                ),
            ),
            None => Err(LeverageError::ArithmeticOverflow),
        }
    }

    /// The leverage-up branch of the dispatcher.
    pub fn handle_leverage_up(config: &Config, loan: &FlashLoan, state: State, event: Event) -> (r:
        Result<(State, Action), LeverageError>)
        ensures
            r == spec_handle_leverage_up(*config, *loan, state, event),
    {
        match (state, event) {
            (State::LevAwaitBalance, Event::Balance { amount: total_collateral }) => {
                let request = blend::deposit(config, total_collateral)?;
                Ok((State::LevAwaitDeposit { total_collateral }, Action::SubmitPool { request }))
            },
            (State::LevAwaitDeposit { total_collateral }, Event::PoolUpdated { .. }) => {
                let max_borrow = leverage_borrow_amount(total_collateral, BORROW_BPS)?;
                let request = blend::borrow(config, max_borrow)?;
                Ok((State::LevAwaitBorrow { max_borrow }, Action::SubmitPool { request }))
            },
            (State::LevAwaitBorrow { max_borrow }, Event::PoolUpdated { .. }) => {
                match loan.amount.checked_add(loan.fee) {
                    Some(required_collateral) => Ok(
                        (
                            State::LevAwaitSwap { required_collateral, max_spend: max_borrow },
                            Action::SwapExactOut {
                                amount_out: required_collateral,
                                max_in: max_borrow,
                                asset_in: config.debt_asset,
                                asset_out: config.collateral_asset,
                            },
                        ),
                    ),
                    None => Err(LeverageError::ArithmeticOverflow),
                }
            },
            (
                State::LevAwaitSwap { required_collateral, max_spend },
                Event::SwapDone { amount_in_spent, amount_out },
            ) => {
                if swap::swap_within_bounds(required_collateral, max_spend, amount_out, amount_in_spent) {
                    Self::settle(loan)
                } else {
                    Err(LeverageError::BadRequest)
                }
            },
            _ => Err(LeverageError::BadRequest),
        }
    }

    /// The delever branch of the dispatcher.
    pub fn handle_deleverage(config: &Config, loan: &FlashLoan, state: State, event: Event) -> (r:
        Result<(State, Action), LeverageError>)
        ensures
            r == spec_handle_deleverage(*config, *loan, state, event),
    {
        match (state, event) {
            (State::DelAwaitRepay, Event::PoolUpdated { remaining_debt, current_collateral }) => {
                let w = delever_withdraw_amount(
                    remaining_debt,
                    current_collateral,
                    config.target_c_factor,
                )?;
                if w > 0 {
                    let request = blend::withdraw(config, w)?;
                    Ok((State::DelAwaitWithdraw, Action::SubmitPool { request }))
                } else {
                    Self::begin_quote(config, loan)
                }
            },
            (State::DelAwaitWithdraw, Event::PoolUpdated { .. }) => Self::begin_quote(config, loan),
            (State::DelAwaitQuote { required_debt }, Event::Quoted { amount_in }) => {
                let max_spend = swap::calculate_max_amount_in(amount_in, DEFAULT_SLIPPAGE_BPS)?;
                Ok(
                    (
                        State::DelAwaitSwap { required_debt, max_spend },
                        Action::SwapExactOut {
                            amount_out: required_debt,
                            max_in: max_spend,
                            asset_in: config.collateral_asset,
                            asset_out: config.debt_asset,
                        },
                    ),
                )
            },
            (
                State::DelAwaitSwap { required_debt, max_spend },
                Event::SwapDone { amount_in_spent, amount_out },
            ) => {
                if swap::swap_within_bounds(required_debt, max_spend, amount_out, amount_in_spent) {
                    Ok((State::DelAwaitSweepBalance, Action::ReadCollateralBalance))
                } else {
                    Err(LeverageError::BadRequest)
                }
            },
            (State::DelAwaitSweepBalance, Event::Balance { amount }) => {
                if amount > 0 {
                    Ok(
                        (
                            State::DelAwaitSweepTransfer,
                            Action::Transfer {
                                asset: config.collateral_asset,
                                to: config.owner,
                                amount,
                            },
                        ),
                    )
                } else {
                    Self::settle(loan)
                }
            },
            (State::DelAwaitSweepTransfer, Event::Transferred) => Self::settle(loan),
            _ => Err(LeverageError::BadRequest),
        }
    }

    /// One step of the flash-loan callback: from the state a run stands in
    /// and the event the host reports, decide the next state and the next
    /// ledger action. Any pair outside the protocol is refused.
    pub fn exec_op(config: &Config, loan: &FlashLoan, state: State, event: Event) -> (r: Result<
        (State, Action),
        LeverageError,
    >)
        ensures
            r == spec_exec_op(*config, *loan, state, event),
    {
        match state {
            State::Received => match event {
                Event::Started => {
                    if loan.asset == config.collateral_asset {
                        Ok((State::LevAwaitBalance, Action::ReadCollateralBalance))
                    } else if loan.asset == config.debt_asset {
                        let request = blend::repay(config, loan.amount)?;
                        Ok((State::DelAwaitRepay, Action::SubmitPool { request }))
                    } else {
                        Err(LeverageError::BadRequest)
                    }
                },
                _ => Err(LeverageError::BadRequest),
            },
            State::LevAwaitBalance
            | State::LevAwaitDeposit { .. }
            | State::LevAwaitBorrow { .. }
            | State::LevAwaitSwap { .. } => Self::handle_leverage_up(config, loan, state, event),
            State::DelAwaitRepay
            | State::DelAwaitWithdraw
            | State::DelAwaitQuote { .. }
            | State::DelAwaitSwap { .. }
            | State::DelAwaitSweepBalance
            | State::DelAwaitSweepTransfer => Self::handle_deleverage(config, loan, state, event),
            State::Settled => match event {
                Event::Transferred => Ok((State::Repaid, Action::Finish)),
                _ => Err(LeverageError::BadRequest),
            },
            State::Repaid => Err(LeverageError::BadRequest),
        }
    }

    /// After the pool reported `claimed` rewards, decides the forwarding
    /// transfer: the full amount goes to `from` exactly when it is positive,
    /// never a part of it.
    pub fn claim(config: &Config, from: u64, claimed: i128) -> (r: Option<Action>)
        ensures
            claimed > 0 ==> r == Some(
                Action::Transfer { asset: config.reward_token, to: from, amount: claimed },
            ),
            claimed <= 0 ==> r is None,
    {
        if claimed > 0 {
            Some(Action::Transfer { asset: config.reward_token, to: from, amount: claimed })
        } else {
            None
        }
    }

    /// The fixed set of pool reserve identifiers rewards are claimed for.
    pub fn claim_reserve_ids() -> (r: Vec<u32>)
        ensures
            r@ == seq![0u32, 1u32],
    {
        let mut ids: Vec<u32> = Vec::new();
        ids.push(0);
        ids.push(1);
        proof {
            assert(ids@ =~= seq![0u32, 1u32]);
        }
        ids
    }
}

/// Law: a swap step never reports success while delivering less than the
/// required output — on leverage-up less collateral than principal plus fee,
/// on delever less debt than principal plus fee.
pub proof fn lemma_swap_never_underdelivers(
    config: Config,
    loan: FlashLoan,
    required: i128,
    max_spend: i128,
    amount_in_spent: i128,
    amount_out: i128,
)
    requires
        amount_out < required,
    ensures
        spec_exec_op(
            config,
            loan,
            State::LevAwaitSwap { required_collateral: required, max_spend },
            Event::SwapDone { amount_in_spent, amount_out },
        ) == Err::<(State, Action), LeverageError>(LeverageError::BadRequest),
        spec_exec_op(
            config,
            loan,
            State::DelAwaitSwap { required_debt: required, max_spend },
            Event::SwapDone { amount_in_spent, amount_out },
        ) == Err::<(State, Action), LeverageError>(LeverageError::BadRequest),
{
}

/// Law: a flash loan of an asset outside the configured collateral/debt pair
/// is refused outright, before any ledger action is issued.
pub proof fn lemma_foreign_asset_rejected(config: Config, loan: FlashLoan)
    requires
        loan.asset != config.collateral_asset,
        loan.asset != config.debt_asset,
    ensures
        spec_exec_op(config, loan, State::Received, Event::Started) == Err::<
            (State, Action),
            LeverageError,
        >(LeverageError::BadRequest),
{
}

/// Law: however a run reaches settlement, the transition into `Settled`
/// emits exactly one transfer — principal plus fee of the flash-loaned asset
/// back to the caller — and the only step after it is to finish.
pub proof fn lemma_settlement_repays_principal_plus_fee(
    config: Config,
    loan: FlashLoan,
    state: State,
    event: Event,
    next: State,
    action: Action,
)
    requires
        spec_exec_op(config, loan, state, event) == Ok::<(State, Action), LeverageError>(
            (next, action),
        ),
        next == State::Settled,
    ensures
        fits_i128(loan.amount + loan.fee),
        action == (Action::Transfer {
            asset: loan.asset,
            to: loan.caller,
            amount: (loan.amount + loan.fee) as i128,
        }),
        spec_exec_op(config, loan, next, Event::Transferred) == Ok::<
            (State, Action),
            LeverageError,
        >((State::Repaid, Action::Finish)),
{
}

} // verus!
