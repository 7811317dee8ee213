//! Adding liquidity to a pool as a whole, and removing it.
//!
//! The two assets count as interchangeable units of liquidity: what an
//! operation adds or removes is the plain sum of its two amounts.

use crate::contexts::ModifyLiquidity;
use crate::errors::ErrorCode;
use crate::state::Pool;
use crate::transfer::{inbound, outbound, TransferPair, TransferRequest};
use vstd::prelude::*;

verus! {

/// What adding the two amounts makes of a pool: the new record, or the reason
/// for which the addition is rejected. Both amounts have to be positive, and
/// the pool must be able to hold their sum on top of its liquidity.
pub open spec fn liquidity_added(pool: Pool, amount_token_0: u64, amount_token_1: u64) -> Result<
    Pool,
    ErrorCode,
> {
    if amount_token_0 == 0 || amount_token_1 == 0 {
        Err(ErrorCode::InvalidAmount)
    } else if pool.liquidity + amount_token_0 + amount_token_1 > u128::MAX {
        Err(ErrorCode::LiquidityOverflow)
    } else {
        Ok(Pool { liquidity: (pool.liquidity + amount_token_0 + amount_token_1) as u128, ..pool })
    }
}

/// What removing the two amounts makes of a pool: the new record, or the
/// reason for which the removal is rejected. Both amounts have to be positive,
/// and the pool must hold at least their sum.
pub open spec fn liquidity_removed(
    pool: Pool,
    amount_token_0: u64,
    amount_token_1: u64,
) -> Result<Pool, ErrorCode> {
    if amount_token_0 == 0 || amount_token_1 == 0 {
        Err(ErrorCode::InvalidAmount)
    } else if pool.liquidity == 0 || amount_token_0 + amount_token_1 > pool.liquidity {
        Err(ErrorCode::InsufficientLiquidity)
    } else {
        Ok(Pool { liquidity: (pool.liquidity - amount_token_0 - amount_token_1) as u128, ..pool })
    }
}

/// Adds `amount_token_0 + amount_token_1` to the pool's liquidity.
///
/// On success the two transfers bring the amounts from the user's holdings into
/// the vaults. A rejected addition leaves the pool as it was.
pub fn add_liquidity(ctx: &mut ModifyLiquidity, amount_token_0: u64, amount_token_1: u64) -> (r:
    Result<TransferPair, ErrorCode>)
    ensures
        r matches Err(e) ==> {
            &&& liquidity_added(old(ctx).pool, amount_token_0, amount_token_1) == Err::<
                Pool,
                ErrorCode,
            >(e)
            &&& *final(ctx) == *old(ctx)
        },
        r matches Ok(transfers) ==> {
            &&& liquidity_added(old(ctx).pool, amount_token_0, amount_token_1) == Ok::<
                Pool,
                ErrorCode,
            >(final(ctx).pool)
            &&& *final(ctx) == (ModifyLiquidity { pool: final(ctx).pool, ..*old(ctx) })
            &&& final(ctx).pool.liquidity == old(ctx).pool.liquidity + amount_token_0
                + amount_token_1
            &&& transfers.first == inbound(
                old(ctx).user_token_account_0,
                old(ctx).token_vault_0,
                old(ctx).user,
                amount_token_0,
            )
            &&& transfers.second == inbound(
                old(ctx).user_token_account_1,
                old(ctx).token_vault_1,
                old(ctx).user,
                amount_token_1,
            )
        },
        old(ctx).pool.well_formed() ==> final(ctx).pool.well_formed(),
{
    if amount_token_0 == 0 || amount_token_1 == 0 {
        return Err(ErrorCode::InvalidAmount);
    }
    let delta: u128 = (amount_token_0 as u128) + (amount_token_1 as u128);
    let liquidity: u128 = match ctx.pool.liquidity.checked_add(delta) {
        Some(sum) => sum,
        None => { return Err(ErrorCode::LiquidityOverflow); },
    };
    ctx.pool.liquidity = liquidity;
    Ok(
        TransferPair {
            first: TransferRequest {
                from: ctx.user_token_account_0,
                to: ctx.token_vault_0,
                authority: ctx.user,
                amount: amount_token_0,
                signed_by_pool: false,
            },
            second: TransferRequest {
                from: ctx.user_token_account_1,
                to: ctx.token_vault_1,
                authority: ctx.user,
                amount: amount_token_1,
                signed_by_pool: false,
            },
        },
    )
}

/// Takes `amount_token_0 + amount_token_1` from the pool's liquidity.
///
/// On success the two transfers bring the amounts from the vaults to the user's
/// holdings, under the pool's authority. A rejected removal leaves the pool as
/// it was.
pub fn remove_liquidity(ctx: &mut ModifyLiquidity, amount_token_0: u64, amount_token_1: u64) -> (r:
    Result<TransferPair, ErrorCode>)
    ensures
        r matches Err(e) ==> {
            &&& liquidity_removed(old(ctx).pool, amount_token_0, amount_token_1) == Err::<
                Pool,
                ErrorCode,
            >(e)
            &&& *final(ctx) == *old(ctx)
        },
        r matches Ok(transfers) ==> {
            &&& liquidity_removed(old(ctx).pool, amount_token_0, amount_token_1) == Ok::<
                Pool,
                ErrorCode,
            >(final(ctx).pool)
            &&& *final(ctx) == (ModifyLiquidity { pool: final(ctx).pool, ..*old(ctx) })
            &&& final(ctx).pool.liquidity == old(ctx).pool.liquidity - amount_token_0
                - amount_token_1
            &&& transfers.first == outbound(
                old(ctx).token_vault_0,
                old(ctx).user_token_account_0,
                old(ctx).pool_authority,
                amount_token_0,
            )
            &&& transfers.second == outbound(
                old(ctx).token_vault_1,
                old(ctx).user_token_account_1,
                old(ctx).pool_authority,
                amount_token_1,
            )
        },
        old(ctx).pool.well_formed() ==> final(ctx).pool.well_formed(),
{
    if amount_token_0 == 0 || amount_token_1 == 0 {
        return Err(ErrorCode::InvalidAmount);
    }
    if ctx.pool.liquidity == 0 {
        return Err(ErrorCode::InsufficientLiquidity);
    }
    let delta: u128 = (amount_token_0 as u128) + (amount_token_1 as u128);
    if delta > ctx.pool.liquidity {
        return Err(ErrorCode::InsufficientLiquidity);
    }
    ctx.pool.liquidity = ctx.pool.liquidity - delta;
    Ok(
        TransferPair {
            first: TransferRequest {
                from: ctx.token_vault_0,
                to: ctx.user_token_account_0,
                authority: ctx.pool_authority,
                amount: amount_token_0,
                signed_by_pool: true,
            },
            second: TransferRequest {
                from: ctx.token_vault_1,
                to: ctx.user_token_account_1,
                authority: ctx.pool_authority,
                amount: amount_token_1,
                signed_by_pool: true,
            },
        },
    )
}

} // verus!
