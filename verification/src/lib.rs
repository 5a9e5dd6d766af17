//! Orchestration engine for a leveraged lending position.
//!
//! The library composes three external protocols — a flash-loan source, a
//! lending pool, and a token-swap router — into one atomic operation: either
//! leverage up (deposit collateral, borrow debt, swap debt back into
//! collateral to repay the loan) or delever (repay debt, withdraw freed
//! collateral, swap collateral into debt to repay the loan).
//!
//! Every decision the orchestration makes — dispatch on the flash-loaned
//! asset, position sizing, slippage bounding, and the final repayment of
//! principal plus fee — is a verified function here, phrased as a state
//! machine from `(state, event)` to `(state, action)`. The host glue that
//! performs the actions on the ledger and feeds the resulting events back
//! lives outside the library.

pub mod errors;
pub mod storage;
pub mod blend;
pub mod swap;
pub mod contract;

pub use contract::LeverageContract;
pub use errors::LeverageError;
