//! Creating a pool and its tick accumulator.

use crate::constants::{
    DEFAULT_FEE_SPLIT_IMPACT_BPS, DEFAULT_FEE_SPLIT_LP_BPS, DEFAULT_FEE_SPLIT_PROTOCOL_BPS,
    MAX_TICK_SPACING, MIN_TICK_SPACING,
};
use crate::contexts::CreatePool;
use crate::errors::ErrorCode;
use crate::math::{price_in_bounds, sqrt_price_to_tick, tick_at_price};
use crate::state::{ObservationState, Pool};
use vstd::prelude::*;

verus! {

/// The reason for which the creation of a pool is rejected, if it is. The
/// checks come in this order: pool creation is switched on; the price lies
/// within its bounds; so does the tick spacing; the first mint comes strictly
/// before the second, which also makes them distinct.
pub open spec fn create_pool_rejection(
    ctx: CreatePool,
    sqrt_price_x64: u128,
    tick_spacing: u16,
) -> Option<ErrorCode> {
    if !ctx.amm_config.create_pool_enabled {
        Some(ErrorCode::CreatePoolDisabled)
    } else if !price_in_bounds(sqrt_price_x64 as int) {
        Some(ErrorCode::InvalidSqrtPrice)
    } else if !(MIN_TICK_SPACING <= tick_spacing <= MAX_TICK_SPACING) {
        Some(ErrorCode::InvalidTickSpacing)
    } else if !ctx.token_mint_0.precedes_spec(ctx.token_mint_1) {
        Some(ErrorCode::InvalidTokenOrder)
    } else {
        None
    }
}

/// The pool that [`handler`] creates: no liquidity and no fees yet, the fee
/// rate of the config, the default fee split, and the tick that belongs to the
/// price.
pub open spec fn created_pool(ctx: CreatePool, sqrt_price_x64: u128, tick_spacing: u16) -> Pool {
    Pool {
        bump: ctx.pool_bump,
        amm_config: ctx.amm_config_key,
        token_mint_0: ctx.token_mint_0,
        token_mint_1: ctx.token_mint_1,
        token_vault_0: ctx.token_vault_0,
        token_vault_1: ctx.token_vault_1,
        auth_bump: ctx.pool_authority_bump,
        liquidity: 0,
        sqrt_price_x64,
        tick_current: tick_at_price(sqrt_price_x64 as int) as i32,
        tick_spacing,
        fee_rate: ctx.amm_config.default_fee_rate,
        protocol_fees_token_0: 0,
        protocol_fees_token_1: 0,
        fee_growth_global_0_x64: 0,
        fee_growth_global_1_x64: 0,
        fee_split_lp_bps: DEFAULT_FEE_SPLIT_LP_BPS,
        fee_split_protocol_bps: DEFAULT_FEE_SPLIT_PROTOCOL_BPS,
        fee_split_impact_bps: DEFAULT_FEE_SPLIT_IMPACT_BPS,
    }
}

/// The accumulator that [`handler`] creates beside the pool: one slot, nothing
/// accumulated, last updated at `now`.
pub open spec fn created_observation(ctx: CreatePool, now: i64) -> ObservationState {
    ObservationState {
        bump: ctx.observation_bump,
        pool: ctx.pool_key,
        index: 0,
        cardinality: 1,
        tick_cumulative: 0,
        last_timestamp: now,
    }
}

/// Creates the pool of the two mints at `sqrt_price_x64`, and its tick
/// accumulator. `now` is the current time in seconds.
pub fn handler(ctx: &CreatePool, sqrt_price_x64: u128, tick_spacing: u16, now: i64) -> (r: Result<
    (Pool, ObservationState),
    ErrorCode,
>)
    ensures
        r is Err <==> create_pool_rejection(*ctx, sqrt_price_x64, tick_spacing) is Some,
        r matches Err(e) ==> Some(e) == create_pool_rejection(*ctx, sqrt_price_x64, tick_spacing),
        r matches Ok(records) ==> {
            &&& records.0 == created_pool(*ctx, sqrt_price_x64, tick_spacing)
            &&& records.1 == created_observation(*ctx, now)
            &&& records.0.tick_current == tick_at_price(sqrt_price_x64 as int)
            &&& ctx.amm_config.well_formed() ==> records.0.well_formed()
        },
{
    if !ctx.amm_config.create_pool_enabled {
        return Err(ErrorCode::CreatePoolDisabled);
    }
    let current_tick: i32 = match sqrt_price_to_tick(sqrt_price_x64) {
        Ok(tick) => tick,
        Err(_) => { return Err(ErrorCode::InvalidSqrtPrice); },
    };
    if tick_spacing < MIN_TICK_SPACING || tick_spacing > MAX_TICK_SPACING {
        return Err(ErrorCode::InvalidTickSpacing);
    }
    if !ctx.token_mint_0.precedes(&ctx.token_mint_1) {
        return Err(ErrorCode::InvalidTokenOrder);
    }
    let pool = Pool {
        bump: ctx.pool_bump,
        amm_config: ctx.amm_config_key,
        token_mint_0: ctx.token_mint_0,
        token_mint_1: ctx.token_mint_1,
        token_vault_0: ctx.token_vault_0,
        token_vault_1: ctx.token_vault_1,
        auth_bump: ctx.pool_authority_bump,
        liquidity: 0,
        sqrt_price_x64,
        tick_current: current_tick,
        tick_spacing,
        fee_rate: ctx.amm_config.default_fee_rate,
        protocol_fees_token_0: 0,
        protocol_fees_token_1: 0,
        fee_growth_global_0_x64: 0,
        fee_growth_global_1_x64: 0,
        fee_split_lp_bps: DEFAULT_FEE_SPLIT_LP_BPS,
        fee_split_protocol_bps: DEFAULT_FEE_SPLIT_PROTOCOL_BPS,
        fee_split_impact_bps: DEFAULT_FEE_SPLIT_IMPACT_BPS,
    };
    let observation = ObservationState {
        bump: ctx.observation_bump,
        pool: ctx.pool_key,
        index: 0,
        cardinality: 1,
        tick_cumulative: 0,
        last_timestamp: now,
    };
    Ok((pool, observation))
}

} // verus!
