//! Reasons for which an operation is rejected.

use vstd::prelude::*;

verus! {

/// Tagged failure reason. A rejected operation changes no record and names no
/// transfer.
#[derive(Clone, Copy, Debug, PartialEq, Eq, Hash)]
pub enum ErrorCode {
    InvalidTickRange,
    InvalidTickSpacing,
    InvalidSqrtPrice,
    InsufficientLiquidity,
    SlippageToleranceExceeded,
    InvalidFeeRate,
    PoolNotEnabled,
    SwapNotEnabled,
    InvalidAuthority,
    PositionNotFound,
    TickNotInitialized,
    InvalidTickArray,
    TickOutOfBounds,
    PriceOutOfBounds,
    LiquidityOverflow,
    LiquidityUnderflow,
    MathOverflow,
    MathUnderflow,
    DivisionByZero,
    InvalidTokenAccount,
    InvalidMint,
    InvalidPoolConfig,
    PoolAlreadyExists,
    PositionAlreadyExists,
    RewardNotInitialized,
    RewardAlreadyInitialized,
    InvalidRewardPeriod,
    InsufficientRewards,
    InvalidObservation,
    OracleNotInitialized,
    InvalidTimeWindow,
    InsufficientObservationData,
    InvalidProtocolFeeRate,
    ProtocolFeeCollectionFailed,
    InvalidTickArrayBitmap,
    TickArrayAlreadyInitialized,
    InvalidPositionRange,
    PositionIsEmpty,
    CannotDecreaseLiquidityBelowMinimum,
    InvalidAmount,
    AmountOutBelowMinimum,
    AmountInAboveMaximum,
    InvalidSqrtPriceLimit,
    SwapFailed,
    InvalidFeeCollection,
    Unauthorized,
    AccountNotWritable,
    AccountNotSigner,
    InvalidProgramData,
    NumericalOverflow,
    CreatePoolDisabled,
    SwapDisabled,
    InvalidTokenOrder,
    TickNotAligned,
    AmountOutTooLow,
}

} // verus!
