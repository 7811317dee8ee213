//! A pool together with all positions on it, and what sequences of operations
//! make of them.
//!
//! The ledger is a ghost model: it exists for proofs and is never built at run
//! time. Each step applies the same rule that the matching operation of
//! [`crate::instructions`] is proved to follow; an operation that is rejected
//! leaves the ledger as it was.

use crate::contexts::OpenPosition;
use crate::errors::ErrorCode;
use crate::instructions::liquidity::{liquidity_added, liquidity_removed};
use crate::instructions::position::{decreased, increased, opened_position, settled};
use crate::instructions::swap::{observation_after, pool_after_swap, swap_rejection};
use crate::math::{amount_out_for, fee_on, growth_from_fee};
use crate::state::{AccountKey, AmmConfig, ObservationState, Pool, Position};
use vstd::prelude::*;

verus! {

/// One pool, its config and tick accumulator, and the positions opened on it.
pub struct Ledger {
    pub config: AmmConfig,
    pub pool: Pool,
    pub observation: ObservationState,
    pub positions: Seq<Position>,
}

/// One operation on a ledger. Positions are named by their place in
/// [`Ledger::positions`].
pub enum Operation {
    AddLiquidity { amount_token_0: u64, amount_token_1: u64 },
    RemoveLiquidity { amount_token_0: u64, amount_token_1: u64 },
    OpenPosition { pool_key: AccountKey, owner: AccountKey, bump: u8 },
    IncreasePosition { index: int, amount_token_0: u64, amount_token_1: u64 },
    DecreasePosition { index: int, amount_token_0: u64, amount_token_1: u64 },
    Swap { amount_in: u64, minimum_amount_out: u64, zero_for_one: bool, now: i64 },
}

impl Operation {
    /// Whether the operation changes the liquidity of the pool as a whole,
    /// without a position to account for it.
    pub open spec fn is_pool_level(self) -> bool {
        self is AddLiquidity || self is RemoveLiquidity
    }
}

/// Sum of the liquidity that the positions hold.
pub open spec fn total_liquidity(positions: Seq<Position>) -> int
    decreases positions.len(),
{
    if positions.len() == 0 {
        0
    } else {
        total_liquidity(positions.drop_last()) + positions.last().liquidity
    }
}

impl Ledger {
    /// Liquidity of the pool that no position accounts for.
    pub open spec fn unattached_liquidity(self) -> int {
        self.pool.liquidity - total_liquidity(self.positions)
    }

    /// No snapshot of a position runs ahead of the pool's accumulators.
    pub open spec fn snapshots_follow(self) -> bool {
        forall|i: int| 0 <= i < self.positions.len() ==> (#[trigger] self.positions[i]).follows(self.pool)
    }

    /// The ledger after one operation.
    pub open spec fn step(self, op: Operation) -> Ledger {
        match op {
            Operation::AddLiquidity { amount_token_0, amount_token_1 } => match liquidity_added(
                self.pool,
                amount_token_0,
                amount_token_1,
            ) {
                Ok(pool) => Ledger { pool, ..self },
                Err(_) => self,
            },
            Operation::RemoveLiquidity { amount_token_0, amount_token_1 } => match liquidity_removed(
                self.pool,
                amount_token_0,
                amount_token_1,
            ) {
                Ok(pool) => Ledger { pool, ..self },
                Err(_) => self,
            },
            Operation::OpenPosition { pool_key, owner, bump } => Ledger {
                positions: self.positions.push(
                    opened_position(OpenPosition { pool: self.pool, pool_key, owner, bump }),
                ),
                ..self
            },
            Operation::IncreasePosition { index, amount_token_0, amount_token_1 } => if 0 <= index
                < self.positions.len() {
                match increased(self.pool, self.positions[index], amount_token_0, amount_token_1) {
                    Ok((pool, position)) => Ledger {
                        pool,
                        positions: self.positions.update(index, position),
                        ..self
                    },
                    Err(_) => self,
                }
            } else {
                self
            },
            Operation::DecreasePosition { index, amount_token_0, amount_token_1 } => if 0 <= index
                < self.positions.len() {
                match decreased(self.pool, self.positions[index], amount_token_0, amount_token_1) {
                    Ok((pool, position)) => Ledger {
                        pool,
                        positions: self.positions.update(index, position),
                        ..self
                    },
                    Err(_) => self,
                }
            } else {
                self
            },
            Operation::Swap { amount_in, minimum_amount_out, zero_for_one, now } => if swap_rejection(
                self.config.swap_enabled,
                self.pool.fee_rate,
                amount_in,
                minimum_amount_out,
            ) is None {
                Ledger {
                    pool: pool_after_swap(self.pool, amount_in, zero_for_one),
                    observation: observation_after(self.observation, self.pool.tick_current, now),
                    ..self
                }
            } else {
                self
            },
        }
    }

    /// The ledger after a sequence of operations, first to last.
    pub open spec fn run(self, ops: Seq<Operation>) -> Ledger
        decreases ops.len(),
    {
        if ops.len() == 0 {
            self
        } else {
            self.run(ops.drop_last()).step(ops.last())
        }
    }
}

/// Replacing one position changes the total by the difference of the two
/// liquidities.
proof fn lemma_total_liquidity_update(positions: Seq<Position>, index: int, position: Position)
    requires
        0 <= index < positions.len(),
    ensures
        total_liquidity(positions.update(index, position)) == total_liquidity(positions)
            - positions[index].liquidity + position.liquidity,
    decreases positions.len(),
{
    let updated = positions.update(index, position);
    if index == positions.len() - 1 {
        assert(updated.drop_last() =~= positions.drop_last());
    } else {
        assert(updated.drop_last() =~= positions.drop_last().update(index, position));
        lemma_total_liquidity_update(positions.drop_last(), index, position);
    }
}

/// An operation on positions or a swap leaves the unattached liquidity as it
/// was, whether it is accepted or rejected.
pub proof fn law_step_keeps_unattached_liquidity(ledger: Ledger, op: Operation)
    requires
        !op.is_pool_level(),
    ensures
        ledger.step(op).unattached_liquidity() == ledger.unattached_liquidity(),
{
    match op {
        Operation::OpenPosition { pool_key, owner, bump } => {
            let opened = opened_position(OpenPosition { pool: ledger.pool, pool_key, owner, bump });
            assert(ledger.positions.push(opened).drop_last() =~= ledger.positions);
        },
        Operation::IncreasePosition { index, amount_token_0, amount_token_1 } => {
            if 0 <= index < ledger.positions.len() {
                match increased(ledger.pool, ledger.positions[index], amount_token_0, amount_token_1) {
                    Ok((pool, position)) => {
                        lemma_total_liquidity_update(ledger.positions, index, position);
                    },
                    Err(_) => {},
                }
            }
        },
        Operation::DecreasePosition { index, amount_token_0, amount_token_1 } => {
            if 0 <= index < ledger.positions.len() {
                match decreased(ledger.pool, ledger.positions[index], amount_token_0, amount_token_1) {
                    Ok((pool, position)) => {
                        lemma_total_liquidity_update(ledger.positions, index, position);
                    },
                    Err(_) => {},
                }
            }
        },
        _ => {},
    }
}

/// Liquidity conservation: over any sequence of swaps and of operations on
/// positions, the pool's liquidity moves exactly as the sum of the positions'
/// liquidity does. Where the two were equal before, they are equal after.
pub proof fn law_liquidity_conservation(ledger: Ledger, ops: Seq<Operation>)
    requires
        forall|i: int| 0 <= i < ops.len() ==> !(#[trigger] ops[i]).is_pool_level(),
    ensures
        ledger.run(ops).unattached_liquidity() == ledger.unattached_liquidity(),
        ledger.pool.liquidity == total_liquidity(ledger.positions) ==> ledger.run(ops).pool.liquidity
            == total_liquidity(ledger.run(ops).positions),
    decreases ops.len(),
{
    if ops.len() > 0 {
        law_liquidity_conservation(ledger, ops.drop_last());
        law_step_keeps_unattached_liquidity(ledger.run(ops.drop_last()), ops.last());
    }
}

/// Adding liquidity to the pool as a whole, or removing it, moves the
/// unattached liquidity by the sum of the two amounts where the operation is
/// accepted, and leaves every position as it was.
pub proof fn law_pool_level_step(ledger: Ledger, op: Operation)
    requires
        op.is_pool_level(),
    ensures
        ledger.step(op).positions == ledger.positions,
        op matches Operation::AddLiquidity { amount_token_0, amount_token_1 } ==> {
            let after = ledger.step(op).unattached_liquidity();
            if liquidity_added(ledger.pool, amount_token_0, amount_token_1) is Ok {
                after == ledger.unattached_liquidity() + amount_token_0 + amount_token_1
            } else {
                after == ledger.unattached_liquidity()
            }
        },
        op matches Operation::RemoveLiquidity { amount_token_0, amount_token_1 } ==> {
            let after = ledger.step(op).unattached_liquidity();
            if liquidity_removed(ledger.pool, amount_token_0, amount_token_1) is Ok {
                after == ledger.unattached_liquidity() - amount_token_0 - amount_token_1
            } else {
                after == ledger.unattached_liquidity()
            }
        },
{
}

/// One operation of any kind lowers neither fee-growth accumulator and neither
/// protocol-fee accumulator of the pool.
pub proof fn law_step_fee_growth_monotonic(ledger: Ledger, op: Operation)
    ensures
        ledger.step(op).pool.fee_growth_global_0_x64 >= ledger.pool.fee_growth_global_0_x64,
        ledger.step(op).pool.fee_growth_global_1_x64 >= ledger.pool.fee_growth_global_1_x64,
        ledger.step(op).pool.protocol_fees_token_0 >= ledger.pool.protocol_fees_token_0,
        ledger.step(op).pool.protocol_fees_token_1 >= ledger.pool.protocol_fees_token_1,
{
    match op {
        Operation::Swap { amount_in, minimum_amount_out, zero_for_one, now } => {
            lemma_swap_amounts_nonnegative(
                amount_in as int,
                ledger.pool.fee_rate as int,
                ledger.pool.liquidity as int,
            );
        },
        _ => {},
    }
}

/// The fee on an amount, and what it comes to per unit of liquidity, are never
/// negative.
proof fn lemma_swap_amounts_nonnegative(amount_in: int, fee_rate: int, liquidity: int)
    by (nonlinear_arith)
    requires
        amount_in >= 0,
        fee_rate >= 0,
        liquidity >= 0,
    ensures
        fee_on(amount_in, fee_rate) >= 0,
        growth_from_fee(fee_on(amount_in, fee_rate), liquidity) >= 0,
{
}

/// Fee-growth monotonicity: over any sequence of operations, swaps among them
/// or not, neither fee-growth accumulator and neither protocol-fee accumulator
/// of the pool ever falls.
pub proof fn law_fee_growth_monotonic(ledger: Ledger, ops: Seq<Operation>)
    ensures
        ledger.run(ops).pool.fee_growth_global_0_x64 >= ledger.pool.fee_growth_global_0_x64,
        ledger.run(ops).pool.fee_growth_global_1_x64 >= ledger.pool.fee_growth_global_1_x64,
        ledger.run(ops).pool.protocol_fees_token_0 >= ledger.pool.protocol_fees_token_0,
        ledger.run(ops).pool.protocol_fees_token_1 >= ledger.pool.protocol_fees_token_1,
    decreases ops.len(),
{
    if ops.len() > 0 {
        law_fee_growth_monotonic(ledger, ops.drop_last());
        law_step_fee_growth_monotonic(ledger.run(ops.drop_last()), ops.last());
    }
}

/// Slippage guarantee: a swap that asks for more than the amount sold can buy
/// changes nothing.
pub proof fn law_slippage_guard(
    ledger: Ledger,
    amount_in: u64,
    minimum_amount_out: u64,
    zero_for_one: bool,
    now: i64,
)
    requires
        minimum_amount_out > amount_out_for(amount_in as int, ledger.pool.fee_rate as int),
    ensures
        ledger.step(Operation::Swap { amount_in, minimum_amount_out, zero_for_one, now })
            == ledger,
        ledger.config.swap_enabled && amount_in > 0 ==> swap_rejection(
            ledger.config.swap_enabled,
            ledger.pool.fee_rate,
            amount_in,
            minimum_amount_out,
        ) == Some(ErrorCode::AmountOutTooLow),
{
}

/// One operation of any kind keeps every snapshot at or behind the pool's
/// accumulators.
pub proof fn law_step_snapshots_follow(ledger: Ledger, op: Operation)
    requires
        ledger.snapshots_follow(),
    ensures
        ledger.step(op).snapshots_follow(),
{
    law_step_fee_growth_monotonic(ledger, op);
    let after = ledger.step(op);
    assert forall|i: int| 0 <= i < after.positions.len() implies (#[trigger] after.positions[i]).follows(
        after.pool,
    ) by {
        if i < ledger.positions.len() {
            assert(ledger.positions[i].follows(ledger.pool));
        }
    }
}

/// Over any sequence of operations no snapshot of a position comes to run
/// ahead of the pool's accumulators: the fees of a position can always be
/// settled without underflow.
pub proof fn law_snapshots_follow(ledger: Ledger, ops: Seq<Operation>)
    requires
        ledger.snapshots_follow(),
    ensures
        ledger.run(ops).snapshots_follow(),
        forall|i: int|
            0 <= i < ledger.run(ops).positions.len() ==> settled(
                #[trigger] ledger.run(ops).positions[i],
                ledger.run(ops).pool,
            ) != Err::<Position, ErrorCode>(ErrorCode::MathUnderflow),
    decreases ops.len(),
{
    if ops.len() > 0 {
        law_snapshots_follow(ledger, ops.drop_last());
        law_step_snapshots_follow(ledger.run(ops.drop_last()), ops.last());
    }
    let after = ledger.run(ops);
    assert forall|i: int| 0 <= i < after.positions.len() implies settled(
        #[trigger] after.positions[i],
        after.pool,
    ) != Err::<Position, ErrorCode>(ErrorCode::MathUnderflow) by {
        assert(after.positions[i].follows(after.pool));
    }
}

/// Over any sequence of operations a well-formed pool stays well-formed, and
/// its price, tick, spacing, fee rate and fee split stay what they were.
pub proof fn law_pool_parameters_fixed(ledger: Ledger, ops: Seq<Operation>)
    ensures
        ledger.run(ops).pool.sqrt_price_x64 == ledger.pool.sqrt_price_x64,
        ledger.run(ops).pool.tick_current == ledger.pool.tick_current,
        ledger.run(ops).pool.tick_spacing == ledger.pool.tick_spacing,
        ledger.run(ops).pool.fee_rate == ledger.pool.fee_rate,
        ledger.run(ops).pool.fee_split_lp_bps == ledger.pool.fee_split_lp_bps,
        ledger.run(ops).pool.fee_split_protocol_bps == ledger.pool.fee_split_protocol_bps,
        ledger.run(ops).pool.fee_split_impact_bps == ledger.pool.fee_split_impact_bps,
        ledger.pool.well_formed() ==> ledger.run(ops).pool.well_formed(),
    decreases ops.len(),
{
    if ops.len() > 0 {
        law_pool_parameters_fixed(ledger, ops.drop_last());
    }
}

} // verus!
