//! The immutable configuration of the contract.
//!
//! Identities (owner, pool, assets, router) are opaque to the engine: it only
//! ever compares them for equality, so they are carried as plain integer
//! tokens chosen by the host glue. The host persists the configuration in its
//! own storage under [`DataKey::Config`] and hands it back to the engine on
//! every invocation.

use vstd::prelude::*;
use crate::errors::LeverageError;

verus! {

/// Immutable after creation; read-only thereafter.
#[derive(Clone, Copy, Debug, PartialEq, Eq, Structural)]
pub struct Config {
    /// Identity of the contract owner.
    pub owner: u64,
    /// Identity of the lending pool.
    pub blend_pool: u64,
    /// Identity of the collateral asset.
    pub collateral_asset: u64,
    /// Identity of the debt asset.
    pub debt_asset: u64,
    /// Identity of the reward asset paid out by the pool.
    pub reward_token: u64,
    /// Identity of the swap router.
    pub swap_router: u64,
    /// Target ratio of collateral value to debt value, in basis points.
    pub target_c_factor: i128,
}

impl Config {
    /// The configuration invariant: the target collateralization ratio is
    /// positive.
    pub open spec fn wf(self) -> bool {
        self.target_c_factor > 0
    }

    /// Builds the configuration, establishing its invariant.
    pub fn new(
        owner: u64,
        blend_pool: u64,
        collateral_asset: u64,
        debt_asset: u64,
        reward_token: u64,
        swap_router: u64,
        target_c_factor: i128,
    ) -> (r: Result<Config, LeverageError>)
        ensures
            target_c_factor > 0 <==> r is Ok,
            r matches Ok(c) ==> c == (Config {
                owner,
                blend_pool,
                collateral_asset,
                debt_asset,
                reward_token,
                swap_router,
                target_c_factor,
            }) && c.wf(),
            r is Err ==> r == Err::<Config, LeverageError>(LeverageError::InvalidAmount),
    {
        if target_c_factor <= 0 {
            Err(LeverageError::InvalidAmount)
        } else {
            Ok(Config {
                owner,
                blend_pool,
                collateral_asset,
                debt_asset,
                reward_token,
                swap_router,
                target_c_factor,
            })
        }
    }
}

/// Key under which the host keeps the configuration record.
#[derive(Clone, Copy, Debug, PartialEq, Eq, Structural)]
pub enum DataKey {
    Config,
}

} // verus!
