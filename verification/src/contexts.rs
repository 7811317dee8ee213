//! The accounts that each operation names: the records it reads or writes, as
//! plain values, and the identities it passes on.

use crate::state::{AccountKey, AmmConfig, ObservationState, Pool, Position};
use vstd::prelude::*;

verus! {

/// Accounts of the operation that sets the exchange-wide policy.
#[derive(Clone, Copy, Debug, PartialEq, Eq)]
pub struct InitializeAmm {
    pub authority: AccountKey,
    pub protocol_fee_destination: AccountKey,
    /// Bump seed of the config record's address.
    pub bump: u8,
}

/// Accounts of pool creation.
#[derive(Clone, Copy, Debug, PartialEq, Eq)]
pub struct CreatePool {
    pub amm_config: AmmConfig,
    /// Address of `amm_config`.
    pub amm_config_key: AccountKey,
    /// Address at which the new pool will be stored.
    pub pool_key: AccountKey,
    pub token_mint_0: AccountKey,
    pub token_mint_1: AccountKey,
    pub token_vault_0: AccountKey,
    pub token_vault_1: AccountKey,
    /// Bump seeds of the addresses of the pool, of its authority and of its
    /// observation record.
    pub pool_bump: u8,
    pub pool_authority_bump: u8,
    pub observation_bump: u8,
}

/// Accounts of adding liquidity to a pool, or removing it.
#[derive(Clone, Copy, Debug, PartialEq, Eq)]
pub struct ModifyLiquidity {
    pub pool: Pool,
    pub token_vault_0: AccountKey,
    pub token_vault_1: AccountKey,
    pub user_token_account_0: AccountKey,
    pub user_token_account_1: AccountKey,
    pub pool_authority: AccountKey,
    pub user: AccountKey,
}

/// Accounts of a swap.
#[derive(Clone, Copy, Debug, PartialEq, Eq)]
pub struct Swap {
    pub pool: Pool,
    pub amm_config: AmmConfig,
    pub user_token_account_in: AccountKey,
    pub user_token_account_out: AccountKey,
    pub token_vault_in: AccountKey,
    pub token_vault_out: AccountKey,
    pub pool_authority: AccountKey,
    pub observation_state: ObservationState,
    pub user: AccountKey,
}

/// Accounts of opening a position.
#[derive(Clone, Copy, Debug, PartialEq, Eq)]
pub struct OpenPosition {
    pub pool: Pool,
    /// Address of `pool`.
    pub pool_key: AccountKey,
    pub owner: AccountKey,
    /// Bump seed of the position record's address.
    pub bump: u8,
}

/// Accounts of increasing or decreasing the liquidity of a position.
#[derive(Clone, Copy, Debug, PartialEq, Eq)]
pub struct ModifyPositionLiquidity {
    pub pool: Pool,
    pub position: Position,
    pub owner: AccountKey,
    pub token_vault_0: AccountKey,
    pub token_vault_1: AccountKey,
    pub user_token_account_0: AccountKey,
    pub user_token_account_1: AccountKey,
    pub pool_authority: AccountKey,
}

} // verus!
