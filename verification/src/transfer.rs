//! Token transfers that an operation asks its caller to carry out.

use crate::state::AccountKey;
use vstd::prelude::*;

verus! {

/// Request to move `amount` of one asset from `from` to `to`, authorized by
/// `authority`.
#[derive(Clone, Copy, Debug, PartialEq, Eq)]
pub struct TransferRequest {
    pub from: AccountKey,
    pub to: AccountKey,
    pub authority: AccountKey,
    pub amount: u64,
    /// Whether `authority` is the pool's delegated signing capability rather
    /// than the caller.
    pub signed_by_pool: bool,
}

/// The two transfers of one operation, in the order in which they are to be
/// carried out.
#[derive(Clone, Copy, Debug, PartialEq, Eq)]
pub struct TransferPair {
    pub first: TransferRequest,
    pub second: TransferRequest,
}

/// Transfer into the pool: the caller hands `amount` over to a vault.
pub open spec fn inbound(
    holding: AccountKey,
    vault: AccountKey,
    caller: AccountKey,
    amount: u64,
) -> TransferRequest {
    TransferRequest { from: holding, to: vault, authority: caller, amount, signed_by_pool: false }
}

/// Transfer out of the pool: a vault hands `amount` over to the caller, under
/// the pool's authority.
pub open spec fn outbound(
    vault: AccountKey,
    holding: AccountKey,
    pool_authority: AccountKey,
    amount: u64,
) -> TransferRequest {
    TransferRequest {
        from: vault,
        to: holding,
        authority: pool_authority,
        amount,
        signed_by_pool: true,
    }
}

} // verus!
