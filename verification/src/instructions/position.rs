//! Opening a position and changing the liquidity it holds.
//!
//! Every change of liquidity first settles the fees that the position has
//! earned since its snapshots, so that no fee is counted twice or dropped.
//! What a position is owed is only recorded here: no operation pays it out, so
//! `tokens_owed` never falls.

use crate::contexts::{ModifyPositionLiquidity, OpenPosition};
use crate::errors::ErrorCode;
use crate::math::{accrue_fees, accrued, fees_earned};
use crate::state::{Pool, Position};
use crate::transfer::{inbound, outbound, TransferPair, TransferRequest};
use vstd::prelude::*;

verus! {

/// The position that [`open_position`] creates: empty, nothing owed, and its
/// snapshots taken from the pool as it stands.
pub open spec fn opened_position(ctx: OpenPosition) -> Position {
    Position {
        bump: ctx.bump,
        pool: ctx.pool_key,
        owner: ctx.owner,
        liquidity: 0,
        fee_growth_entry_0_x64: ctx.pool.fee_growth_global_0_x64,
        fee_growth_entry_1_x64: ctx.pool.fee_growth_global_1_x64,
        tokens_owed_0: 0,
        tokens_owed_1: 0,
    }
}

/// Creates the position of `ctx.owner` on the pool at `ctx.pool_key`.
pub fn open_position(ctx: &OpenPosition) -> (r: Result<Position, ErrorCode>)
    ensures
        r == Ok::<Position, ErrorCode>(opened_position(*ctx)),
{
    Ok(
        Position {
            bump: ctx.bump,
            pool: ctx.pool_key,
            owner: ctx.owner,
            liquidity: 0,
            fee_growth_entry_0_x64: ctx.pool.fee_growth_global_0_x64,
            fee_growth_entry_1_x64: ctx.pool.fee_growth_global_1_x64,
            tokens_owed_0: 0,
            tokens_owed_1: 0,
        },
    )
}

/// The position once the fees it has earned since its snapshots are added to
/// what it is owed and the snapshots are brought up to the pool's accumulators;
/// the liquidity is as before. Asset 0 is settled first; the first amount that
/// cannot be stated gives the error.
pub open spec fn settled(position: Position, pool: Pool) -> Result<Position, ErrorCode> {
    match accrued(
        position.liquidity as int,
        pool.fee_growth_global_0_x64 as int,
        position.fee_growth_entry_0_x64 as int,
        position.tokens_owed_0 as int,
    ) {
        Err(e) => Err(e),
        Ok(owed_0) => match accrued(
            position.liquidity as int,
            pool.fee_growth_global_1_x64 as int,
            position.fee_growth_entry_1_x64 as int,
            position.tokens_owed_1 as int,
        ) {
            Err(e) => Err(e),
            Ok(owed_1) => Ok(
                Position {
                    tokens_owed_0: owed_0,
                    tokens_owed_1: owed_1,
                    fee_growth_entry_0_x64: pool.fee_growth_global_0_x64,
                    fee_growth_entry_1_x64: pool.fee_growth_global_1_x64,
                    ..position
                },
            ),
        },
    }
}

/// Realizes the fees that `position` has earned on `pool` since its snapshots.
pub fn settle_fees(position: &Position, pool: &Pool) -> (r: Result<Position, ErrorCode>)
    ensures
        r == settled(*position, *pool),
{
    let owed_0: u64 = match accrue_fees(
        position.liquidity,
        pool.fee_growth_global_0_x64,
        position.fee_growth_entry_0_x64,
        position.tokens_owed_0,
    ) {
        Ok(owed) => owed,
        Err(e) => { return Err(e); },
    };
    let owed_1: u64 = match accrue_fees(
        position.liquidity,
        pool.fee_growth_global_1_x64,
        position.fee_growth_entry_1_x64,
        position.tokens_owed_1,
    ) {
        Ok(owed) => owed,
        Err(e) => { return Err(e); },
    };
    Ok(
        Position {
            bump: position.bump,
            pool: position.pool,
            owner: position.owner,
            liquidity: position.liquidity,
            fee_growth_entry_0_x64: pool.fee_growth_global_0_x64,
            fee_growth_entry_1_x64: pool.fee_growth_global_1_x64,
            tokens_owed_0: owed_0,
            tokens_owed_1: owed_1,
        },
    )
}

/// What an increase by the two amounts makes of a pool and a position on it:
/// the new pair of records, or the reason for which the increase is rejected.
///
/// Both amounts have to be positive. The fees earned so far are settled first.
/// Then the sum of the two amounts is added to the liquidity of the position
/// and of the pool; an increase that either of them cannot hold is rejected.
pub open spec fn increased(
    pool: Pool,
    position: Position,
    amount_token_0: u64,
    amount_token_1: u64,
) -> Result<(Pool, Position), ErrorCode> {
    let delta = amount_token_0 + amount_token_1;
    if amount_token_0 == 0 || amount_token_1 == 0 {
        Err(ErrorCode::InvalidAmount)
    } else {
        match settled(position, pool) {
            Err(e) => Err(e),
            Ok(paid) => if position.liquidity + delta > u128::MAX || pool.liquidity + delta
                > u128::MAX {
                Err(ErrorCode::LiquidityOverflow)
            } else {
                Ok(
                    (
                        Pool { liquidity: (pool.liquidity + delta) as u128, ..pool },
                        Position { liquidity: (position.liquidity + delta) as u128, ..paid },
                    ),
                )
            },
        }
    }
}

/// What a decrease by the two amounts makes of a pool and a position on it:
/// the new pair of records, or the reason for which the decrease is rejected.
///
/// Both amounts have to be positive, the position must hold liquidity, and
/// their sum may exceed neither the position's liquidity nor the pool's. The
/// fees earned so far are settled first. Then the sum is taken from the
/// liquidity of the position and of the pool.
pub open spec fn decreased(
    pool: Pool,
    position: Position,
    amount_token_0: u64,
    amount_token_1: u64,
) -> Result<(Pool, Position), ErrorCode> {
    let delta = amount_token_0 + amount_token_1;
    if amount_token_0 == 0 || amount_token_1 == 0 {
        Err(ErrorCode::InvalidAmount)
    } else if position.liquidity == 0 {
        Err(ErrorCode::PositionIsEmpty)
    } else if delta > position.liquidity {
        Err(ErrorCode::InsufficientLiquidity)
    } else if delta > pool.liquidity {
        Err(ErrorCode::LiquidityUnderflow)
    } else {
        match settled(position, pool) {
            Err(e) => Err(e),
            Ok(paid) => Ok(
                (
                    Pool { liquidity: (pool.liquidity - delta) as u128, ..pool },
                    Position { liquidity: (position.liquidity - delta) as u128, ..paid },
                ),
            ),
        }
    }
}

/// Adds `amount_token_0 + amount_token_1` to the liquidity of the position and
/// of its pool, after settling the fees the position has earned.
///
/// On success the two transfers bring the amounts from the owner's holdings
/// into the vaults. A rejected increase leaves every record as it was.
pub fn increase_position_liquidity(
    ctx: &mut ModifyPositionLiquidity,
    amount_token_0: u64,
    amount_token_1: u64,
) -> (r: Result<TransferPair, ErrorCode>)
    ensures
        r matches Err(e) ==> {
            &&& increased(old(ctx).pool, old(ctx).position, amount_token_0, amount_token_1)
                == Err::<(Pool, Position), ErrorCode>(e)
            &&& *final(ctx) == *old(ctx)
        },
        r matches Ok(transfers) ==> {
            &&& increased(old(ctx).pool, old(ctx).position, amount_token_0, amount_token_1)
                == Ok::<(Pool, Position), ErrorCode>((final(ctx).pool, final(ctx).position))
            &&& *final(ctx) == (ModifyPositionLiquidity {
                pool: final(ctx).pool,
                position: final(ctx).position,
                ..*old(ctx)
            })
            &&& transfers.first == inbound(
                old(ctx).user_token_account_0,
                old(ctx).token_vault_0,
                old(ctx).owner,
                amount_token_0,
            )
            &&& transfers.second == inbound(
                old(ctx).user_token_account_1,
                old(ctx).token_vault_1,
                old(ctx).owner,
                amount_token_1,
            )
            &&& final(ctx).position.tokens_owed_0 == old(ctx).position.tokens_owed_0
                + fees_earned(
                old(ctx).position.liquidity as int,
                old(ctx).pool.fee_growth_global_0_x64 as int,
                old(ctx).position.fee_growth_entry_0_x64 as int,
            )
            &&& final(ctx).position.tokens_owed_1 == old(ctx).position.tokens_owed_1
                + fees_earned(
                old(ctx).position.liquidity as int,
                old(ctx).pool.fee_growth_global_1_x64 as int,
                old(ctx).position.fee_growth_entry_1_x64 as int,
            )
            &&& final(ctx).position.fee_growth_entry_0_x64 == old(ctx).pool.fee_growth_global_0_x64
            &&& final(ctx).position.fee_growth_entry_1_x64 == old(ctx).pool.fee_growth_global_1_x64
            &&& final(ctx).position.liquidity == old(ctx).position.liquidity + amount_token_0
                + amount_token_1
            &&& final(ctx).pool.liquidity == old(ctx).pool.liquidity + amount_token_0
                + amount_token_1
        },
        old(ctx).pool.well_formed() ==> final(ctx).pool.well_formed(),
{
    if amount_token_0 == 0 || amount_token_1 == 0 {
        return Err(ErrorCode::InvalidAmount);
    }
    let paid: Position = match settle_fees(&ctx.position, &ctx.pool) {
        Ok(paid) => paid,
        Err(e) => { return Err(e); },
    };
    let delta_liquidity: u128 = (amount_token_0 as u128) + (amount_token_1 as u128);
    let position_liquidity: u128 = match ctx.position.liquidity.checked_add(delta_liquidity) {
        Some(sum) => sum,
        None => { return Err(ErrorCode::LiquidityOverflow); },
    };
    let pool_liquidity: u128 = match ctx.pool.liquidity.checked_add(delta_liquidity) {
        Some(sum) => sum,
        None => { return Err(ErrorCode::LiquidityOverflow); },
    };
    ctx.position = paid;
    ctx.position.liquidity = position_liquidity;
    ctx.pool.liquidity = pool_liquidity;
    Ok(
        TransferPair {
            first: TransferRequest {
                from: ctx.user_token_account_0,
                to: ctx.token_vault_0,
                authority: ctx.owner,
                amount: amount_token_0,
                signed_by_pool: false,
            },
            second: TransferRequest {
                from: ctx.user_token_account_1,
                to: ctx.token_vault_1,
                authority: ctx.owner,
                amount: amount_token_1,
                signed_by_pool: false,
            },
        },
    )
}

/// Takes `amount_token_0 + amount_token_1` from the liquidity of the position
/// and of its pool, after settling the fees the position has earned.
///
/// On success the two transfers bring the amounts from the vaults to the
/// owner's holdings, under the pool's authority. A rejected decrease leaves
/// every record as it was.
pub fn decrease_position_liquidity(
    ctx: &mut ModifyPositionLiquidity,
    amount_token_0: u64,
    amount_token_1: u64,
) -> (r: Result<TransferPair, ErrorCode>)
    ensures
        r matches Err(e) ==> {
            &&& decreased(old(ctx).pool, old(ctx).position, amount_token_0, amount_token_1)
                == Err::<(Pool, Position), ErrorCode>(e)
            &&& *final(ctx) == *old(ctx)
        },
        r matches Ok(transfers) ==> {
            &&& decreased(old(ctx).pool, old(ctx).position, amount_token_0, amount_token_1)
                == Ok::<(Pool, Position), ErrorCode>((final(ctx).pool, final(ctx).position))
            &&& *final(ctx) == (ModifyPositionLiquidity {
                pool: final(ctx).pool,
                position: final(ctx).position,
                ..*old(ctx)
            })
            &&& transfers.first == outbound(
                old(ctx).token_vault_0,
                old(ctx).user_token_account_0,
                old(ctx).pool_authority,
                amount_token_0,
            )
            &&& transfers.second == outbound(
                old(ctx).token_vault_1,
                old(ctx).user_token_account_1,
                old(ctx).pool_authority,
                amount_token_1,
            )
            &&& final(ctx).position.tokens_owed_0 == old(ctx).position.tokens_owed_0
                + fees_earned(
                old(ctx).position.liquidity as int,
                old(ctx).pool.fee_growth_global_0_x64 as int,
                old(ctx).position.fee_growth_entry_0_x64 as int,
            )
            &&& final(ctx).position.tokens_owed_1 == old(ctx).position.tokens_owed_1
                + fees_earned(
                old(ctx).position.liquidity as int,
                old(ctx).pool.fee_growth_global_1_x64 as int,
                old(ctx).position.fee_growth_entry_1_x64 as int,
            )
            &&& final(ctx).position.fee_growth_entry_0_x64 == old(ctx).pool.fee_growth_global_0_x64
            &&& final(ctx).position.fee_growth_entry_1_x64 == old(ctx).pool.fee_growth_global_1_x64
            &&& final(ctx).position.liquidity == old(ctx).position.liquidity - amount_token_0
                - amount_token_1
            &&& final(ctx).pool.liquidity == old(ctx).pool.liquidity - amount_token_0
                - amount_token_1
        },
        old(ctx).pool.well_formed() ==> final(ctx).pool.well_formed(),
{
    if amount_token_0 == 0 || amount_token_1 == 0 {
        return Err(ErrorCode::InvalidAmount);
    }
    if ctx.position.liquidity == 0 {
        return Err(ErrorCode::PositionIsEmpty);
    }
    let delta_liquidity: u128 = (amount_token_0 as u128) + (amount_token_1 as u128);
    if delta_liquidity > ctx.position.liquidity {
        return Err(ErrorCode::InsufficientLiquidity);
    }
    if delta_liquidity > ctx.pool.liquidity {
        return Err(ErrorCode::LiquidityUnderflow);
    }
    let paid: Position = match settle_fees(&ctx.position, &ctx.pool) {
        Ok(paid) => paid,
        Err(e) => { return Err(e); },
    };
    ctx.position = paid;
    ctx.position.liquidity = ctx.position.liquidity - delta_liquidity;
    ctx.pool.liquidity = ctx.pool.liquidity - delta_liquidity;
    Ok(
        TransferPair {
            first: TransferRequest {
                from: ctx.token_vault_0,
                to: ctx.user_token_account_0,
                authority: ctx.pool_authority,
                amount: amount_token_0,
                signed_by_pool: true,
            },
            second: TransferRequest {
                from: ctx.token_vault_1,
                to: ctx.user_token_account_1,
                authority: ctx.pool_authority,
                amount: amount_token_1,
                signed_by_pool: true,
            },
        },
    )
}

} // verus!
