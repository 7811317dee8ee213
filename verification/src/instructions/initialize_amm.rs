//! Setting the exchange-wide policy.

use crate::constants::{MAX_FEE_RATE, MAX_PROTOCOL_FEE_RATE};
use crate::contexts::InitializeAmm;
use crate::errors::ErrorCode;
use crate::state::AmmConfig;
use vstd::prelude::*;

verus! {

/// The config that [`handler`] creates: the two rates as given, pool creation
/// and swaps both switched on.
pub open spec fn initial_config(
    ctx: InitializeAmm,
    fee_rate: u16,
    protocol_fee_rate: u16,
) -> AmmConfig {
    AmmConfig {
        bump: ctx.bump,
        authority: ctx.authority,
        default_fee_rate: fee_rate,
        protocol_fee_rate,
        protocol_fee_destination: ctx.protocol_fee_destination,
        create_pool_enabled: true,
        swap_enabled: true,
    }
}

/// Creates the config. A fee rate over its cap is rejected with
/// `InvalidFeeRate`; otherwise a protocol fee rate over its cap is rejected
/// with `InvalidProtocolFeeRate`.
pub fn handler(ctx: &InitializeAmm, fee_rate: u16, protocol_fee_rate: u16) -> (r: Result<
    AmmConfig,
    ErrorCode,
>)
    ensures
        r is Ok <==> fee_rate <= MAX_FEE_RATE && protocol_fee_rate <= MAX_PROTOCOL_FEE_RATE,
        r matches Ok(config) ==> config == initial_config(*ctx, fee_rate, protocol_fee_rate)
            && config.well_formed(),
        r matches Err(e) ==> e == (if fee_rate > MAX_FEE_RATE {
            ErrorCode::InvalidFeeRate
        } else {
            ErrorCode::InvalidProtocolFeeRate
        }),
{
    if fee_rate > MAX_FEE_RATE {
        return Err(ErrorCode::InvalidFeeRate);
    }
    if protocol_fee_rate > MAX_PROTOCOL_FEE_RATE {
        return Err(ErrorCode::InvalidProtocolFeeRate);
    }
    Ok(
        AmmConfig {
            bump: ctx.bump,
            authority: ctx.authority,
            default_fee_rate: fee_rate,
            protocol_fee_rate,
            protocol_fee_destination: ctx.protocol_fee_destination,
            create_pool_enabled: true,
            swap_enabled: true,
        },
    )
}

} // verus!
