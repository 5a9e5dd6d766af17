use leverage::blend::{Request, RequestType};
use leverage::contract::{Action, Event, FlashLoan, State};
use leverage::errors::LeverageError;
use leverage::storage::Config;
use leverage::LeverageContract;

const OWNER: u64 = 1;
const POOL: u64 = 2;
const COLLATERAL: u64 = 3;
const DEBT: u64 = 4;
const REWARD: u64 = 5;
const ROUTER: u64 = 6;
const CALLER: u64 = 9;

fn config() -> Config {
    Config::new(OWNER, POOL, COLLATERAL, DEBT, REWARD, ROUTER, 15000).unwrap()
}

fn step(cfg: &Config, loan: &FlashLoan, state: State, event: Event) -> (State, Action) {
    LeverageContract::exec_op(cfg, loan, state, event).unwrap()
}

#[test]
fn construction_refuses_a_non_positive_target() {
    assert_eq!(
        Config::new(OWNER, POOL, COLLATERAL, DEBT, REWARD, ROUTER, 0),
        Err(LeverageError::InvalidAmount)
    );
    assert_eq!(
        Config::new(OWNER, POOL, COLLATERAL, DEBT, REWARD, ROUTER, -1),
        Err(LeverageError::InvalidAmount)
    );
    assert!(Config::new(OWNER, POOL, COLLATERAL, DEBT, REWARD, ROUTER, 1).is_ok());
}

#[test]
fn foreign_asset_aborts_with_bad_request() {
    let cfg = config();
    let loan = FlashLoan { caller: CALLER, asset: 77, amount: 1000, fee: 3 };
    assert_eq!(
        LeverageContract::exec_op(&cfg, &loan, State::Received, Event::Started),
        Err(LeverageError::BadRequest)
    );
}

#[test]
fn leverage_up_runs_to_repayment() {
    let cfg = config();
    let loan = FlashLoan { caller: CALLER, asset: COLLATERAL, amount: 1000, fee: 3 };

    let (s, a) = step(&cfg, &loan, State::Received, Event::Started);
    assert_eq!(s, State::LevAwaitBalance);
    assert_eq!(a, Action::ReadCollateralBalance);

    let (s, a) = step(&cfg, &loan, s, Event::Balance { amount: 2000 });
    assert_eq!(s, State::LevAwaitDeposit { total_collateral: 2000 });
    assert_eq!(
        a,
        Action::SubmitPool {
            request: Request {
                request_type: RequestType::SupplyCollateral,
                address: COLLATERAL,
                amount: 2000,
            }
        }
    );

    let (s, a) = step(&cfg, &loan, s, Event::PoolUpdated { remaining_debt: 0, current_collateral: 2000 });
    assert_eq!(s, State::LevAwaitBorrow { max_borrow: 1700 });
    assert_eq!(
        a,
        Action::SubmitPool {
            request: Request { request_type: RequestType::Borrow, address: DEBT, amount: 1700 }
        }
    );

    let (s, a) = step(&cfg, &loan, s, Event::PoolUpdated { remaining_debt: 1700, current_collateral: 2000 });
    assert_eq!(s, State::LevAwaitSwap { required_collateral: 1003, max_spend: 1700 });
    assert_eq!(
        a,
        Action::SwapExactOut { amount_out: 1003, max_in: 1700, asset_in: DEBT, asset_out: COLLATERAL }
    );

    let (s, a) = step(&cfg, &loan, s, Event::SwapDone { amount_in_spent: 1010, amount_out: 1003 });
    assert_eq!(s, State::Settled);
    // the repayment is exactly principal + fee of the flash-loaned asset
    assert_eq!(a, Action::Transfer { asset: COLLATERAL, to: CALLER, amount: 1003 });

    let (s, a) = step(&cfg, &loan, s, Event::Transferred);
    assert_eq!(s, State::Repaid);
    assert_eq!(a, Action::Finish);
}

#[test]
fn leverage_up_swap_below_required_collateral_is_rejected() {
    let cfg = config();
    let loan = FlashLoan { caller: CALLER, asset: COLLATERAL, amount: 1000, fee: 3 };
    let state = State::LevAwaitSwap { required_collateral: 1003, max_spend: 1700 };
    for short in [0i128, 500, 1000, 1002] {
        assert_eq!(
            LeverageContract::exec_op(
                &cfg,
                &loan,
                state,
                Event::SwapDone { amount_in_spent: 1, amount_out: short },
            ),
            Err(LeverageError::BadRequest)
        );
    }
}

#[test]
fn leverage_up_swap_over_the_spending_cap_is_rejected() {
    let cfg = config();
    let loan = FlashLoan { caller: CALLER, asset: COLLATERAL, amount: 1000, fee: 3 };
    let state = State::LevAwaitSwap { required_collateral: 1003, max_spend: 1700 };
    assert_eq!(
        LeverageContract::exec_op(
            &cfg,
            &loan,
            state,
            Event::SwapDone { amount_in_spent: 1701, amount_out: 1003 },
        ),
        Err(LeverageError::BadRequest)
    );
}

#[test]
fn leverage_up_empty_balance_is_invalid() {
    let cfg = config();
    let loan = FlashLoan { caller: CALLER, asset: COLLATERAL, amount: 1000, fee: 3 };
    assert_eq!(
        LeverageContract::exec_op(&cfg, &loan, State::LevAwaitBalance, Event::Balance { amount: 0 }),
        Err(LeverageError::InvalidAmount)
    );
}

#[test]
fn leverage_up_overflowing_sizing_aborts() {
    let cfg = config();
    let loan = FlashLoan { caller: CALLER, asset: COLLATERAL, amount: 1000, fee: 3 };
    assert_eq!(
        LeverageContract::exec_op(
            &cfg,
            &loan,
            State::LevAwaitDeposit { total_collateral: i128::MAX },
            Event::PoolUpdated { remaining_debt: 0, current_collateral: 0 },
        ),
        Err(LeverageError::ArithmeticOverflow)
    );
}

#[test]
fn repay_total_overflow_aborts_before_the_swap() {
    let cfg = config();
    let loan = FlashLoan { caller: CALLER, asset: COLLATERAL, amount: i128::MAX, fee: 1 };
    assert_eq!(
        LeverageContract::exec_op(
            &cfg,
            &loan,
            State::LevAwaitBorrow { max_borrow: 1700 },
            Event::PoolUpdated { remaining_debt: 0, current_collateral: 0 },
        ),
        Err(LeverageError::ArithmeticOverflow)
    );
}

#[test]
fn delever_runs_to_repayment_with_sweep() {
    let cfg = config();
    let loan = FlashLoan { caller: CALLER, asset: DEBT, amount: 500, fee: 2 };

    let (s, a) = step(&cfg, &loan, State::Received, Event::Started);
    assert_eq!(s, State::DelAwaitRepay);
    assert_eq!(
        a,
        Action::SubmitPool {
            request: Request { request_type: RequestType::Repay, address: DEBT, amount: 500 }
        }
    );

    // 500 debt left at a 150% target keeps 750 of the 1000 collateral
    let (s, a) = step(&cfg, &loan, s, Event::PoolUpdated { remaining_debt: 500, current_collateral: 1000 });
    assert_eq!(s, State::DelAwaitWithdraw);
    assert_eq!(
        a,
        Action::SubmitPool {
            request: Request {
                request_type: RequestType::WithdrawCollateral,
                address: COLLATERAL,
                amount: 250,
            }
        }
    );

    let (s, a) = step(&cfg, &loan, s, Event::PoolUpdated { remaining_debt: 500, current_collateral: 750 });
    assert_eq!(s, State::DelAwaitQuote { required_debt: 502 });
    assert_eq!(
        a,
        Action::QuoteAmountIn { amount_out: 502, asset_in: COLLATERAL, asset_out: DEBT }
    );

    // quoted 600 collateral in; 50 bps on top caps the spend at 603
    let (s, a) = step(&cfg, &loan, s, Event::Quoted { amount_in: 600 });
    assert_eq!(s, State::DelAwaitSwap { required_debt: 502, max_spend: 603 });
    assert_eq!(
        a,
        Action::SwapExactOut { amount_out: 502, max_in: 603, asset_in: COLLATERAL, asset_out: DEBT }
    );

    let (s, a) = step(&cfg, &loan, s, Event::SwapDone { amount_in_spent: 601, amount_out: 502 });
    assert_eq!(s, State::DelAwaitSweepBalance);
    assert_eq!(a, Action::ReadCollateralBalance);

    // leftover collateral goes to the owner, not the flash-loan caller
    let (s, a) = step(&cfg, &loan, s, Event::Balance { amount: 40 });
    assert_eq!(s, State::DelAwaitSweepTransfer);
    assert_eq!(a, Action::Transfer { asset: COLLATERAL, to: OWNER, amount: 40 });

    let (s, a) = step(&cfg, &loan, s, Event::Transferred);
    assert_eq!(s, State::Settled);
    assert_eq!(a, Action::Transfer { asset: DEBT, to: CALLER, amount: 502 });

    let (s, a) = step(&cfg, &loan, s, Event::Transferred);
    assert_eq!(s, State::Repaid);
    assert_eq!(a, Action::Finish);
}

#[test]
fn delever_with_cleared_debt_withdraws_everything() {
    let cfg = config();
    let loan = FlashLoan { caller: CALLER, asset: DEBT, amount: 500, fee: 2 };
    let (s, a) = step(&cfg, &loan, State::DelAwaitRepay, Event::PoolUpdated {
        remaining_debt: 0,
        current_collateral: 400,
    });
    assert_eq!(s, State::DelAwaitWithdraw);
    assert_eq!(
        a,
        Action::SubmitPool {
            request: Request {
                request_type: RequestType::WithdrawCollateral,
                address: COLLATERAL,
                amount: 400,
            }
        }
    );
}

#[test]
fn delever_with_nothing_to_withdraw_goes_straight_to_the_quote() {
    let cfg = config();
    let loan = FlashLoan { caller: CALLER, asset: DEBT, amount: 500, fee: 2 };
    let (s, a) = step(&cfg, &loan, State::DelAwaitRepay, Event::PoolUpdated {
        remaining_debt: 500,
        current_collateral: 750,
    });
    assert_eq!(s, State::DelAwaitQuote { required_debt: 502 });
    assert_eq!(
        a,
        Action::QuoteAmountIn { amount_out: 502, asset_in: COLLATERAL, asset_out: DEBT }
    );
}

#[test]
fn delever_swap_below_required_debt_is_rejected() {
    let cfg = config();
    let loan = FlashLoan { caller: CALLER, asset: DEBT, amount: 500, fee: 2 };
    assert_eq!(
        LeverageContract::exec_op(
            &cfg,
            &loan,
            State::DelAwaitSwap { required_debt: 502, max_spend: 603 },
            Event::SwapDone { amount_in_spent: 600, amount_out: 501 },
        ),
        Err(LeverageError::BadRequest)
    );
}

#[test]
fn delever_without_leftover_settles_directly() {
    let cfg = config();
    let loan = FlashLoan { caller: CALLER, asset: DEBT, amount: 500, fee: 2 };
    let (s, a) = step(&cfg, &loan, State::DelAwaitSweepBalance, Event::Balance { amount: 0 });
    assert_eq!(s, State::Settled);
    assert_eq!(a, Action::Transfer { asset: DEBT, to: CALLER, amount: 502 });
}

#[test]
fn delever_of_a_non_positive_amount_is_invalid() {
    let cfg = config();
    let loan = FlashLoan { caller: CALLER, asset: DEBT, amount: 0, fee: 2 };
    assert_eq!(
        LeverageContract::exec_op(&cfg, &loan, State::Received, Event::Started),
        Err(LeverageError::InvalidAmount)
    );
}

#[test]
fn out_of_protocol_events_are_refused() {
    let cfg = config();
    let loan = FlashLoan { caller: CALLER, asset: COLLATERAL, amount: 1000, fee: 3 };
    assert_eq!(
        LeverageContract::exec_op(&cfg, &loan, State::Received, Event::Transferred),
        Err(LeverageError::BadRequest)
    );
    assert_eq!(
        LeverageContract::exec_op(&cfg, &loan, State::LevAwaitBalance, Event::Started),
        Err(LeverageError::BadRequest)
    );
    assert_eq!(
        LeverageContract::exec_op(&cfg, &loan, State::Repaid, Event::Transferred),
        Err(LeverageError::BadRequest)
    );
}

#[test]
fn claim_forwards_positive_rewards_in_full() {
    let cfg = config();
    assert_eq!(
        LeverageContract::claim(&cfg, CALLER, 120),
        Some(Action::Transfer { asset: REWARD, to: CALLER, amount: 120 })
    );
    assert_eq!(LeverageContract::claim(&cfg, CALLER, 0), None);
    assert_eq!(LeverageContract::claim(&cfg, CALLER, -5), None);
}

#[test]
fn claim_targets_the_fixed_reserves() {
    assert_eq!(LeverageContract::claim_reserve_ids(), vec![0u32, 1u32]);
}

#[test]
fn request_codes_match_the_pool_protocol() {
    assert_eq!(RequestType::SupplyCollateral.code(), 2);
    assert_eq!(RequestType::WithdrawCollateral.code(), 3);
    assert_eq!(RequestType::Borrow.code(), 4);
    assert_eq!(RequestType::Repay.code(), 5);
}

#[test]
fn error_names_are_stable() {
    assert_eq!(LeverageError::InvalidAmount.name(), "InvalidAmount");
    assert_eq!(LeverageError::BadRequest.name(), "BadRequest");
    assert_eq!(LeverageError::Unauthorized.name(), "Unauthorized");
    assert_eq!(LeverageError::ArithmeticOverflow.name(), "ArithmeticOverflow");
}
