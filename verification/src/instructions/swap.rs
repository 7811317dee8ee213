//! Selling one asset of a pool for the other.
//!
//! The pricing rule is the simplest one: half of what is left after the fee is
//! paid out in the other asset. A swap moves neither the pool's price nor its
//! tick, and does not draw on the pool's liquidity range by range.

use crate::contexts::Swap;
use crate::errors::ErrorCode;
use crate::math::{
    after_fee, amount_out_for, fee_growth_increment, fee_on, growth_from_fee,
    saturating_sum_i128, saturating_sum_u128, saturating_sum_u64, swap_fee,
};
use crate::state::{ObservationState, Pool};
use crate::transfer::{inbound, outbound, TransferPair, TransferRequest};
use vstd::prelude::*;

verus! {

/// What a swap has settled: the amounts, and the two transfers that carry them.
#[derive(Clone, Copy, Debug, PartialEq, Eq)]
pub struct SwapReceipt {
    pub fee_amount: u64,
    pub amount_in_after_fee: u64,
    pub amount_out: u64,
    /// First the whole amount sold, from the caller into the input vault; then
    /// the amount bought, from the output vault to the caller.
    pub transfers: TransferPair,
}

/// The reason for which a swap is rejected, if it is: swaps are switched off,
/// nothing is sold, or less would be bought than the caller's floor.
pub open spec fn swap_rejection(
    swap_enabled: bool,
    fee_rate: u16,
    amount_in: u64,
    minimum_amount_out: u64,
) -> Option<ErrorCode> {
    if !swap_enabled {
        Some(ErrorCode::SwapDisabled)
    } else if amount_in == 0 {
        Some(ErrorCode::InvalidAmount)
    } else if amount_out_for(amount_in as int, fee_rate as int) < minimum_amount_out {
        Some(ErrorCode::AmountOutTooLow)
    } else {
        None
    }
}

/// The pool after a swap that was not rejected: the fee is added to the
/// protocol fees of the asset sold and, spread over the pool's liquidity, to
/// that asset's fee growth. Both sums stop at the top of their range.
pub open spec fn pool_after_swap(pool: Pool, amount_in: u64, zero_for_one: bool) -> Pool {
    let fee = fee_on(amount_in as int, pool.fee_rate as int);
    let growth = growth_from_fee(fee, pool.liquidity as int);
    if zero_for_one {
        Pool {
            protocol_fees_token_0: saturating_sum_u64(pool.protocol_fees_token_0 as int, fee) as u64,
            fee_growth_global_0_x64: saturating_sum_u128(
                pool.fee_growth_global_0_x64 as int,
                growth,
            ) as u128,
            ..pool
        }
    } else {
        Pool {
            protocol_fees_token_1: saturating_sum_u64(pool.protocol_fees_token_1 as int, fee) as u64,
            fee_growth_global_1_x64: saturating_sum_u128(
                pool.fee_growth_global_1_x64 as int,
                growth,
            ) as u128,
            ..pool
        }
    }
}

/// The accumulator after a swap at time `now`, for a pool at `tick_current`:
/// where time has passed since the last update, the tick is weighted by the
/// seconds that passed and added, the sum stopping at either end of its range;
/// where the clock stood still or ran backwards, nothing changes.
pub open spec fn observation_after(
    observation: ObservationState,
    tick_current: i32,
    now: i64,
) -> ObservationState {
    if now > observation.last_timestamp {
        ObservationState {
            tick_cumulative: saturating_sum_i128(
                observation.tick_cumulative as int,
                tick_current * (now - observation.last_timestamp),
            ) as i128,
            last_timestamp: now,
            ..observation
        }
    } else {
        observation
    }
}

/// Advances the tick accumulator to `now`.
pub fn observe(observation: &mut ObservationState, tick_current: i32, now: i64)
    ensures
        *final(observation) == observation_after(*old(observation), tick_current, now),
{
    let elapsed: i128 = (now as i128) - (observation.last_timestamp as i128);
    if elapsed > 0 {
        let tick: i128 = tick_current as i128;
        assert(-0x8000_0000 * 0x1_0000_0000_0000_0000 <= tick * elapsed <= 0x8000_0000
            * 0x1_0000_0000_0000_0000) by (nonlinear_arith)
            requires
                -0x8000_0000 <= tick <= 0x8000_0000,
                0 < elapsed <= 0x1_0000_0000_0000_0000,
        ;
        let weighted: i128 = tick * elapsed;
        let cumulative: i128 = match observation.tick_cumulative.checked_add(weighted) {
            Some(sum) => sum,
            None => if weighted > 0 {
                i128::MAX
            } else {
                i128::MIN
            },
        };
        observation.tick_cumulative = cumulative;
        observation.last_timestamp = now;
    }
}

/// Sells `amount_in` of one asset for the other: asset 0 for asset 1 where
/// `zero_for_one` is set, asset 1 for asset 0 where it is not. `now` is the
/// current time in seconds.
///
/// A rejected swap leaves every record as it was. An accepted one charges the
/// fee, credits it to the pool, advances the tick accumulator and names the
/// transfers of the amount sold and of the amount bought.
pub fn handler(
    ctx: &mut Swap,
    amount_in: u64,
    minimum_amount_out: u64,
    zero_for_one: bool,
    now: i64,
) -> (r: Result<SwapReceipt, ErrorCode>)
    ensures
        r is Err <==> swap_rejection(
            old(ctx).amm_config.swap_enabled,
            old(ctx).pool.fee_rate,
            amount_in,
            minimum_amount_out,
        ) is Some,
        r matches Err(e) ==> {
            &&& Some(e) == swap_rejection(
                old(ctx).amm_config.swap_enabled,
                old(ctx).pool.fee_rate,
                amount_in,
                minimum_amount_out,
            )
            &&& *final(ctx) == *old(ctx)
        },
        r matches Ok(receipt) ==> {
            &&& receipt.fee_amount == fee_on(amount_in as int, old(ctx).pool.fee_rate as int)
            &&& receipt.amount_in_after_fee == after_fee(
                amount_in as int,
                old(ctx).pool.fee_rate as int,
            )
            &&& receipt.amount_out == amount_out_for(
                amount_in as int,
                old(ctx).pool.fee_rate as int,
            )
            &&& receipt.amount_out >= minimum_amount_out
            &&& receipt.transfers.first == inbound(
                old(ctx).user_token_account_in,
                old(ctx).token_vault_in,
                old(ctx).user,
                amount_in,
            )
            &&& receipt.transfers.second == outbound(
                old(ctx).token_vault_out,
                old(ctx).user_token_account_out,
                old(ctx).pool_authority,
                receipt.amount_out,
            )
            &&& *final(ctx) == (Swap {
                pool: pool_after_swap(old(ctx).pool, amount_in, zero_for_one),
                observation_state: observation_after(
                    old(ctx).observation_state,
                    old(ctx).pool.tick_current,
                    now,
                ),
                ..*old(ctx)
            })
        },
        minimum_amount_out > amount_out_for(amount_in as int, old(ctx).pool.fee_rate as int) ==> r
            is Err && *final(ctx) == *old(ctx),
        old(ctx).pool.well_formed() ==> final(ctx).pool.well_formed(),
{
    if !ctx.amm_config.swap_enabled {
        return Err(ErrorCode::SwapDisabled);
    }
    if amount_in == 0 {
        return Err(ErrorCode::InvalidAmount);
    }
    let fee_amount: u64 = swap_fee(amount_in, ctx.pool.fee_rate);
    let amount_in_after_fee: u64 = amount_in.saturating_sub(fee_amount);
    let amount_out: u64 = amount_in_after_fee / 2;
    if amount_out < minimum_amount_out {
        return Err(ErrorCode::AmountOutTooLow);
    }
    let increment: u128 = fee_growth_increment(fee_amount, ctx.pool.liquidity);
    if zero_for_one {
        ctx.pool.protocol_fees_token_0 = ctx.pool.protocol_fees_token_0.saturating_add(fee_amount);
        ctx.pool.fee_growth_global_0_x64 = ctx.pool.fee_growth_global_0_x64.saturating_add(
            increment,
        );
    } else {
        ctx.pool.protocol_fees_token_1 = ctx.pool.protocol_fees_token_1.saturating_add(fee_amount);
        ctx.pool.fee_growth_global_1_x64 = ctx.pool.fee_growth_global_1_x64.saturating_add(
            increment,
        );
    }
    let tick_current: i32 = ctx.pool.tick_current;
    observe(&mut ctx.observation_state, tick_current, now);
    let transfers = TransferPair {
        first: TransferRequest {
            from: ctx.user_token_account_in,
            to: ctx.token_vault_in,
            authority: ctx.user,
            amount: amount_in,
            signed_by_pool: false,
        },
        second: TransferRequest {
            from: ctx.token_vault_out,
            to: ctx.user_token_account_out,
            authority: ctx.pool_authority,
            amount: amount_out,
            signed_by_pool: true,
        },
    };
    Ok(SwapReceipt { fee_amount, amount_in_after_fee, amount_out, transfers })
}

} // verus!
