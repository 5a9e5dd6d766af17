//! Error kinds of the orchestration engine.
//!
//! Every error is fatal to the current operation: nothing is caught and
//! retried internally, the whole transaction's state changes are discarded by
//! the host and the error is surfaced to the invoker.

use vstd::prelude::*;

verus! {

/// Why an operation was refused.
#[derive(Clone, Copy, Debug, PartialEq, Eq, Structural)]
pub enum LeverageError {
    /// A non-positive amount was requested for a position-changing operation.
    InvalidAmount,
    /// The flash-loan callback received an asset outside the configured
    /// collateral/debt pair, a swap failed to meet its exact-output or
    /// slippage bound, or the caller drove the state machine out of protocol.
    BadRequest,
    /// Caller or owner authorization was missing.
    Unauthorized,
    /// Sizing or slippage arithmetic exceeded the representable range.
    ArithmeticOverflow,
}

impl LeverageError {
    /// A short human-readable name for the error.
    pub fn name(&self) -> (r: &'static str)
        ensures
            r@ == match *self {
                LeverageError::InvalidAmount => "InvalidAmount"@,
                LeverageError::BadRequest => "BadRequest"@,
                LeverageError::Unauthorized => "Unauthorized"@,
                LeverageError::ArithmeticOverflow => "ArithmeticOverflow"@,
            },
    {
        match *self {
            LeverageError::InvalidAmount => "InvalidAmount",
            LeverageError::BadRequest => "BadRequest",
            LeverageError::Unauthorized => "Unauthorized",
            LeverageError::ArithmeticOverflow => "ArithmeticOverflow",
        }
    }
}

} // verus!
