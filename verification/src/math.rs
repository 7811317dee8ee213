//! Integer-only price and fee arithmetic.
//!
//! Ticks and square-root prices are tied by linear interpolation between the
//! two ends of their ranges, not by the logarithmic curve of a
//! concentrated-liquidity market.

use crate::constants::{
    FEE_RATE_DENOMINATOR, MAX_SQRT_PRICE, MAX_TICK, MIN_SQRT_PRICE, MIN_TICK, Q64,
};
use crate::errors::ErrorCode;
use vstd::prelude::*;

verus! {

/// Number of tick steps between the two ends of the tick range.
pub open spec fn tick_span() -> int {
    MAX_TICK - MIN_TICK
}

/// Distance between the two ends of the square-root price range.
pub open spec fn price_span() -> int {
    MAX_SQRT_PRICE - MIN_SQRT_PRICE
}

pub open spec fn tick_in_bounds(tick: int) -> bool {
    MIN_TICK <= tick <= MAX_TICK
}

pub open spec fn price_in_bounds(sqrt_price: int) -> bool {
    MIN_SQRT_PRICE <= sqrt_price <= MAX_SQRT_PRICE
}

/// Square-root price of a tick: the point at the tick's share of the way
/// through the price range, rounded down.
pub open spec fn price_at_tick(tick: int) -> int {
    MIN_SQRT_PRICE + ((tick - MIN_TICK) * price_span()) / tick_span()
}

/// Tick of a square-root price: the tick at the price's share of the way
/// through the tick range, rounded down.
pub open spec fn tick_at_price(sqrt_price: int) -> int {
    MIN_TICK + ((sqrt_price - MIN_SQRT_PRICE) * tick_span()) / price_span()
}

/// The price of a tick within bounds is a price within bounds.
pub proof fn lemma_price_at_tick_in_bounds(tick: int)
    requires
        tick_in_bounds(tick),
    ensures
        price_in_bounds(price_at_tick(tick)),
{
}

/// The tick of a price within bounds is a tick within bounds.
pub proof fn lemma_tick_at_price_in_bounds(sqrt_price: int)
    requires
        price_in_bounds(sqrt_price),
    ensures
        tick_in_bounds(tick_at_price(sqrt_price)),
{
}

/// Maps a tick to its square-root price; a tick outside
/// `[MIN_TICK, MAX_TICK]` is rejected.
pub fn tick_to_sqrt_price(tick: i32) -> (r: Result<u128, ErrorCode>)
    ensures
        r is Ok <==> tick_in_bounds(tick as int),
        r matches Ok(price) ==> price == price_at_tick(tick as int) && price_in_bounds(price as int),
        r matches Err(e) ==> e == ErrorCode::TickOutOfBounds,
{
    if tick < MIN_TICK || tick > MAX_TICK {
        return Err(ErrorCode::TickOutOfBounds);
    }
    let span_ticks: u128 = (MAX_TICK - MIN_TICK) as u128;
    let span_price: u128 = MAX_SQRT_PRICE - MIN_SQRT_PRICE;
    let offset: u128 = (tick - MIN_TICK) as u128;
    let price: u128 = MIN_SQRT_PRICE + (offset * span_price) / span_ticks;
    Ok(price)
}

/// Maps a square-root price to its tick; a price outside
/// `[MIN_SQRT_PRICE, MAX_SQRT_PRICE]` is rejected.
pub fn sqrt_price_to_tick(sqrt_price_x64: u128) -> (r: Result<i32, ErrorCode>)
    ensures
        r is Ok <==> price_in_bounds(sqrt_price_x64 as int),
        r matches Ok(tick) ==> tick == tick_at_price(sqrt_price_x64 as int) && tick_in_bounds(tick as int),
        r matches Err(e) ==> e == ErrorCode::PriceOutOfBounds,
{
    if sqrt_price_x64 < MIN_SQRT_PRICE || sqrt_price_x64 > MAX_SQRT_PRICE {
        return Err(ErrorCode::PriceOutOfBounds);
    }
    let span_ticks: u128 = (MAX_TICK - MIN_TICK) as u128;
    let span_price: u128 = MAX_SQRT_PRICE - MIN_SQRT_PRICE;
    let offset_price: u128 = sqrt_price_x64 - MIN_SQRT_PRICE;
    let tick_offset: u128 = (offset_price * span_ticks) / span_price;
    let tick: i32 = MIN_TICK + (tick_offset as i32);
    Ok(tick)
}

/// Going from a tick to its price and back loses at most one tick, and never
/// gains one.
pub proof fn law_tick_round_trip(tick: int)
    requires
        tick_in_bounds(tick),
    ensures
        tick - 1 <= tick_at_price(price_at_tick(tick)) <= tick,
{
    let offset: int = tick - MIN_TICK;
    let q: int = (offset * price_span()) / tick_span();
    assert(q * tick_span() <= offset * price_span());
    assert(offset * price_span() < (q + 1) * tick_span());
    let back: int = (q * tick_span()) / price_span();
    assert(back <= offset);
    assert(back >= offset - 1);
}

/// Both ends of the tick range map onto the ends of the price range, and back.
pub proof fn law_range_ends_correspond()
    ensures
        price_at_tick(MIN_TICK as int) == MIN_SQRT_PRICE,
        price_at_tick(MAX_TICK as int) == MAX_SQRT_PRICE,
        tick_at_price(MIN_SQRT_PRICE as int) == MIN_TICK,
        tick_at_price(MAX_SQRT_PRICE as int) == MAX_TICK,
{
}

/// Trading fee on an amount sold: the rate counts parts per million, rounded
/// down.
pub open spec fn fee_on(amount_in: int, fee_rate: int) -> int {
    (amount_in * fee_rate) / (FEE_RATE_DENOMINATOR as int)
}

/// What is left of the amount sold once the fee is taken; never below zero.
pub open spec fn after_fee(amount_in: int, fee_rate: int) -> int {
    if fee_on(amount_in, fee_rate) <= amount_in {
        amount_in - fee_on(amount_in, fee_rate)
    } else {
        0
    }
}

/// Amount bought for an amount sold: half of what is left after the fee,
/// rounded down.
pub open spec fn amount_out_for(amount_in: int, fee_rate: int) -> int {
    after_fee(amount_in, fee_rate) / 2
}

/// A fee expressed per unit of liquidity, Q64.64, rounded down. Without
/// liquidity there is nobody to attribute the fee to.
pub open spec fn growth_from_fee(fee_amount: int, liquidity: int) -> int {
    if liquidity > 0 {
        (fee_amount * Q64) / liquidity
    } else {
        0
    }
}

/// Fees a position has earned since its snapshot: its liquidity times the
/// growth of the pool's accumulator since then, scaled down from Q64.64 and
/// rounded down.
pub open spec fn fees_earned(liquidity: int, fee_growth_global: int, fee_growth_entry: int) -> int {
    (liquidity * (fee_growth_global - fee_growth_entry)) / (Q64 as int)
}

/// `a + b`, held at the top of the 64-bit range.
pub open spec fn saturating_sum_u64(a: int, b: int) -> int {
    if a + b > u64::MAX {
        u64::MAX as int
    } else {
        a + b
    }
}

/// `a + b`, held at the top of the 128-bit range.
pub open spec fn saturating_sum_u128(a: int, b: int) -> int {
    if a + b > u128::MAX {
        u128::MAX as int
    } else {
        a + b
    }
}

/// `a + b`, held at either end of the signed 128-bit range.
pub open spec fn saturating_sum_i128(a: int, b: int) -> int {
    if a + b > i128::MAX {
        i128::MAX as int
    } else if a + b < i128::MIN {
        i128::MIN as int
    } else {
        a + b
    }
}

/// Computes the trading fee on `amount_in` at `fee_rate` parts per million.
pub fn swap_fee(amount_in: u64, fee_rate: u16) -> (fee: u64)
    ensures
        fee == fee_on(amount_in as int, fee_rate as int),
        fee <= amount_in,
{
    let wide_amount: u128 = amount_in as u128;
    let wide_rate: u128 = fee_rate as u128;
    assert(wide_amount * wide_rate <= wide_amount * 65535) by (nonlinear_arith)
        requires
            wide_rate <= 65535,
    ;
    let product: u128 = wide_amount * wide_rate;
    let fee: u128 = product / FEE_RATE_DENOMINATOR;
    fee as u64
}

/// Expresses `fee_amount` per unit of `liquidity`, Q64.64; zero where the pool
/// holds no liquidity.
pub fn fee_growth_increment(fee_amount: u64, liquidity: u128) -> (increment: u128)
    ensures
        increment == growth_from_fee(fee_amount as int, liquidity as int),
{
    if liquidity == 0 {
        return 0;
    }
    let wide_fee: u128 = fee_amount as u128;
    let scaled: u128 = wide_fee * Q64;
    scaled / liquidity
}

/// Adds to `tokens_owed` the fees that `liquidity` has earned while the pool's
/// accumulator grew from `fee_growth_entry` to `fee_growth_global`.
///
/// Fails with `MathUnderflow` where the snapshot runs ahead of the accumulator,
/// and with `MathOverflow` where the new total does not fit in 64 bits.
pub fn accrue_fees(
    liquidity: u128,
    fee_growth_global: u128,
    fee_growth_entry: u128,
    tokens_owed: u64,
) -> (r: Result<u64, ErrorCode>)
    ensures
        r == accrued(
            liquidity as int,
            fee_growth_global as int,
            fee_growth_entry as int,
            tokens_owed as int,
        ),
{
    if fee_growth_global < fee_growth_entry {
        return Err(ErrorCode::MathUnderflow);
    }
    let growth: u128 = fee_growth_global - fee_growth_entry;
    match liquidity.checked_mul(growth) {
        None => {
            proof {
                lemma_quotient_reaches(liquidity * growth, Q64 as int, Q64 as int);
            }
            Err(ErrorCode::MathOverflow)
        },
        Some(product) => {
            let earned: u128 = product / Q64;
            let wide_owed: u128 = tokens_owed as u128;
            let total: u128 = wide_owed + earned;
            if total > u64::MAX as u128 {
                Err(ErrorCode::MathOverflow)
            } else {
                Ok(total as u64)
            }
        },
    }
}

/// What [`accrue_fees`] returns: the new amount owed, or the reason for which
/// it cannot be stated.
pub open spec fn accrued(
    liquidity: int,
    fee_growth_global: int,
    fee_growth_entry: int,
    tokens_owed: int,
) -> Result<u64, ErrorCode> {
    if fee_growth_global < fee_growth_entry {
        Err(ErrorCode::MathUnderflow)
    } else if tokens_owed + fees_earned(liquidity, fee_growth_global, fee_growth_entry)
        > u64::MAX {
        Err(ErrorCode::MathOverflow)
    } else {
        Ok((tokens_owed + fees_earned(liquidity, fee_growth_global, fee_growth_entry)) as u64)
    }
}

/// A dividend of at least `d * bound` has a quotient by `d` of at least `bound`.
proof fn lemma_quotient_reaches(x: int, d: int, bound: int)
    by (nonlinear_arith)
    requires
        d > 0,
        x >= d * bound,
    ensures
        x / d >= bound,
{
}

} // verus!
