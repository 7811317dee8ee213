//! Bounds and scaling factors shared by all operations.

use vstd::prelude::*;

verus! {

/// Lowest tick index a pool can sit at.
pub const MIN_TICK: i32 = -887272;

/// Highest tick index a pool can sit at.
pub const MAX_TICK: i32 = 887272;

/// Lowest square-root price (Q64.64) a pool can sit at.
pub const MIN_SQRT_PRICE: u128 = 4295128739;

/// Highest square-root price (Q64.64) a pool can sit at: `2^64 - 1`.
pub const MAX_SQRT_PRICE: u128 = 18446744073709551615;

/// Cap on the trading fee rate stored in a config or a pool.
pub const MAX_FEE_RATE: u16 = 10000;

/// Cap on the protocol fee rate stored in a config.
pub const MAX_PROTOCOL_FEE_RATE: u16 = 10000;

/// Widest admissible tick spacing.
pub const MAX_TICK_SPACING: u16 = 16384;

/// Narrowest admissible tick spacing.
pub const MIN_TICK_SPACING: u16 = 1;

/// `2^64`, the scale of the Q64.64 fixed-point accumulators.
pub const Q64: u128 = 18446744073709551616;

/// Denominator of the trading fee rate: the rate counts parts per million.
pub const FEE_RATE_DENOMINATOR: u128 = 1000000;

/// Whole of the basis-point space that the fee-split weights share.
pub const BPS_DENOMINATOR: u16 = 10000;

/// Liquidity-provider share of a new pool's fee split, in basis points.
pub const DEFAULT_FEE_SPLIT_LP_BPS: u16 = 2500;

/// Protocol share of a new pool's fee split, in basis points.
pub const DEFAULT_FEE_SPLIT_PROTOCOL_BPS: u16 = 400;

/// Price-impact share of a new pool's fee split, in basis points.
pub const DEFAULT_FEE_SPLIT_IMPACT_BPS: u16 = 100;

} // verus!
