//! Typed requests into the lending pool.
//!
//! The pool takes a batch of `(request_type, asset, amount)` records through a
//! single submission entry point and answers with a position snapshot. The
//! builders here decide what each record holds and refuse non-positive
//! amounts; the host glue performs the actual submission.

use vstd::prelude::*;
use crate::errors::LeverageError;
use crate::storage::Config;

verus! {

/// The kind of position change asked of the pool.
#[derive(Clone, Copy, Debug, PartialEq, Eq, Structural)]
pub enum RequestType {
    SupplyCollateral,
    WithdrawCollateral,
    Borrow,
    Repay,
}

impl RequestType {
    /// The wire code the pool protocol assigns to this request kind.
    pub open spec fn spec_code(self) -> u32 {
        match self {
            RequestType::SupplyCollateral => 2,
            RequestType::WithdrawCollateral => 3,
            RequestType::Borrow => 4,
            RequestType::Repay => 5,
        }
    }

    /// The wire code the pool protocol assigns to this request kind.
    pub fn code(self) -> (r: u32)
        ensures
            r == self.spec_code(),
    {
        match self {
            RequestType::SupplyCollateral => 2,
            RequestType::WithdrawCollateral => 3,
            RequestType::Borrow => 4,
            RequestType::Repay => 5,
        }
    }
}

/// One record of a pool submission.
#[derive(Clone, Copy, Debug, PartialEq, Eq, Structural)]
pub struct Request {
    pub request_type: RequestType,
    pub address: u64,
    pub amount: i128,
}

/// The record that supplies `amount` of the collateral asset.
pub open spec fn spec_deposit_request(config: Config, amount: i128) -> Request {
    Request { request_type: RequestType::SupplyCollateral, address: config.collateral_asset, amount }
}

/// The record that withdraws `amount` of the collateral asset.
pub open spec fn spec_withdraw_request(config: Config, amount: i128) -> Request {
    Request {
        request_type: RequestType::WithdrawCollateral,
        address: config.collateral_asset,
        amount,
    }
}

/// The record that borrows `amount` of the debt asset.
pub open spec fn spec_borrow_request(config: Config, amount: i128) -> Request {
    Request { request_type: RequestType::Borrow, address: config.debt_asset, amount }
}

/// The record that repays `amount` of the debt asset.
pub open spec fn spec_repay_request(config: Config, amount: i128) -> Request {
    Request { request_type: RequestType::Repay, address: config.debt_asset, amount }
}

/// Builds the supply-collateral request; a non-positive amount is refused.
pub fn deposit(config: &Config, amount: i128) -> (r: Result<Request, LeverageError>)
    ensures
        r is Ok <==> amount > 0,
        r matches Ok(req) ==> req == spec_deposit_request(*config, amount),
        r is Err ==> r == Err::<Request, LeverageError>(LeverageError::InvalidAmount),
{
    if amount <= 0 {
        Err(LeverageError::InvalidAmount)
    } else {
        Ok(Request {
            request_type: RequestType::SupplyCollateral,
            address: config.collateral_asset,
            amount,
        })
    }
}

/// Builds the withdraw-collateral request; a non-positive amount is refused.
pub fn withdraw(config: &Config, amount: i128) -> (r: Result<Request, LeverageError>)
    ensures
        r is Ok <==> amount > 0,
        r matches Ok(req) ==> req == spec_withdraw_request(*config, amount),
        r is Err ==> r == Err::<Request, LeverageError>(LeverageError::InvalidAmount),
{
    if amount <= 0 {
        Err(LeverageError::InvalidAmount)
    } else {
        Ok(Request {
            request_type: RequestType::WithdrawCollateral,
            address: config.collateral_asset,
            amount,
        })
    }
}

/// Builds the borrow request; a non-positive amount is refused.
pub fn borrow(config: &Config, amount: i128) -> (r: Result<Request, LeverageError>)
    ensures
        r is Ok <==> amount > 0,
        r matches Ok(req) ==> req == spec_borrow_request(*config, amount),
        r is Err ==> r == Err::<Request, LeverageError>(LeverageError::InvalidAmount),
{
    if amount <= 0 {
        Err(LeverageError::InvalidAmount)
    } else {
        Ok(Request { request_type: RequestType::Borrow, address: config.debt_asset, amount })
    }
}

/// Builds the repay request; a non-positive amount is refused.
pub fn repay(config: &Config, amount: i128) -> (r: Result<Request, LeverageError>)
    ensures
        r is Ok <==> amount > 0,
        r matches Ok(req) ==> req == spec_repay_request(*config, amount),
        r is Err ==> r == Err::<Request, LeverageError>(LeverageError::InvalidAmount),
{
    if amount <= 0 {
        Err(LeverageError::InvalidAmount)
    } else {
        Ok(Request { request_type: RequestType::Repay, address: config.debt_asset, amount })
    }
}

} // verus!
