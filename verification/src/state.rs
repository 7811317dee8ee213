//! The state records the engine reads and writes, and the identities they name.

use crate::constants::{
    BPS_DENOMINATOR, MAX_FEE_RATE, MAX_PROTOCOL_FEE_RATE, MAX_SQRT_PRICE, MAX_TICK,
    MAX_TICK_SPACING, MIN_SQRT_PRICE, MIN_TICK, MIN_TICK_SPACING,
};
use anchor_lang::prelude::Pubkey;
use vstd::prelude::*;

verus! {

/// Identity of an account: a mint, a vault, a record or a signer.
#[derive(Clone, Copy, Debug, PartialEq, Eq, Hash)]
pub struct AccountKey {
    pub bytes: [u8; 32],
}

/// Lexicographic order on byte strings of equal length: `a` comes before `b`
/// when they differ and `a` holds the smaller byte at the first difference.
pub open spec fn bytes_precede(a: Seq<u8>, b: Seq<u8>) -> bool {
    exists|i: int|
        0 <= i < a.len() && i < b.len() && #[trigger] a[i] < b[i] && a.subrange(0, i)
            == b.subrange(0, i)
}

impl AccountKey {
    /// The canonical order of identities, by which the two mints of a pool are
    /// arranged.
    pub open spec fn precedes_spec(self, other: AccountKey) -> bool {
        bytes_precede(self.bytes@, other.bytes@)
    }

    /// Whether `self` comes strictly before `other` in the canonical order.
    pub fn precedes(&self, other: &AccountKey) -> (r: bool)
        ensures
            r == self.precedes_spec(*other),
    {
        pubkey_lt(&self.bytes, &other.bytes)
    }
}

/// Builds a `Pubkey` from each array with `Pubkey::new_from_array` and compares
/// the two with the `<` of `Pubkey`.
///
/// Trusted, not proved: that this `<` is the lexicographic order of the 32
/// bytes. `Pubkey` derives `PartialOrd` over its single field, the byte array
/// that `new_from_array` stores unchanged, and arrays compare element by
/// element from the front.
#[verifier::external_body]
fn pubkey_lt(a: &[u8; 32], b: &[u8; 32]) -> (r: bool)
    ensures
        r == bytes_precede(a@, b@),
{
    Pubkey::new_from_array(*a) < Pubkey::new_from_array(*b)
}

/// Two byte strings of equal length that agree on their first `n` bytes are
/// equal, or one of them precedes the other.
proof fn lemma_bytes_comparable(a: Seq<u8>, b: Seq<u8>, n: int)
    requires
        a.len() == b.len(),
        0 <= n <= a.len(),
        a.subrange(0, n) == b.subrange(0, n),
    ensures
        a == b || bytes_precede(a, b) || bytes_precede(b, a),
    decreases a.len() - n,
{
    if n == a.len() {
        assert(a.subrange(0, n) =~= a);
        assert(b.subrange(0, n) =~= b);
    } else if a[n] == b[n] {
        let longer_a = a.subrange(0, n + 1);
        let longer_b = b.subrange(0, n + 1);
        assert forall|i: int| 0 <= i < n + 1 implies #[trigger] longer_a[i] == longer_b[i] by {
            if i < n {
                assert(a.subrange(0, n)[i] == b.subrange(0, n)[i]);
            }
        }
        assert(longer_a =~= longer_b);
        lemma_bytes_comparable(a, b, n + 1);
    } else if a[n] < b[n] {
        assert(bytes_precede(a, b));
    } else {
        assert(b[n] < a[n]);
        assert(bytes_precede(b, a));
    }
}

/// The canonical order is strict: no identity precedes itself, and of two
/// identities at most one precedes the other.
pub proof fn law_order_is_strict(a: AccountKey, b: AccountKey)
    ensures
        a.precedes_spec(b) ==> a != b && !b.precedes_spec(a),
{
    if a.precedes_spec(b) {
        let i = choose|i: int|
            0 <= i < a.bytes@.len() && i < b.bytes@.len() && #[trigger] a.bytes@[i] < b.bytes@[i]
                && a.bytes@.subrange(0, i) == b.bytes@.subrange(0, i);
        if b.precedes_spec(a) {
            let j = choose|j: int|
                0 <= j < b.bytes@.len() && j < a.bytes@.len() && #[trigger] b.bytes@[j]
                    < a.bytes@[j] && b.bytes@.subrange(0, j) == a.bytes@.subrange(0, j);
            if i < j {
                assert(b.bytes@.subrange(0, j)[i] == a.bytes@.subrange(0, j)[i]);
            } else if j < i {
                assert(a.bytes@.subrange(0, i)[j] == b.bytes@.subrange(0, i)[j]);
            }
        }
    }
}

/// The canonical order is total: of two different identities one precedes the
/// other, so that exactly one arrangement of two distinct mints is canonical.
pub proof fn law_order_is_total(a: AccountKey, b: AccountKey)
    ensures
        a != b ==> a.precedes_spec(b) || b.precedes_spec(a),
{
    assert(a.bytes@.subrange(0, 0) =~= b.bytes@.subrange(0, 0));
    lemma_bytes_comparable(a.bytes@, b.bytes@, 0);
    if a.bytes@ == b.bytes@ {
        assert(a.bytes =~= b.bytes);
    }
}

/// Exchange-wide policy. Every other record only reads it.
#[derive(Clone, Copy, Debug, PartialEq, Eq)]
pub struct AmmConfig {
    pub bump: u8,
    pub authority: AccountKey,
    pub default_fee_rate: u16,
    pub protocol_fee_rate: u16,
    pub protocol_fee_destination: AccountKey,
    pub create_pool_enabled: bool,
    pub swap_enabled: bool,
}

impl AmmConfig {
    /// Both rates stay within their caps.
    pub open spec fn well_formed(self) -> bool {
        &&& self.default_fee_rate <= MAX_FEE_RATE
        &&& self.protocol_fee_rate <= MAX_PROTOCOL_FEE_RATE
    }
}

/// State of one trading pair.
#[derive(Clone, Copy, Debug, PartialEq, Eq)]
pub struct Pool {
    pub bump: u8,
    pub amm_config: AccountKey,
    pub token_mint_0: AccountKey,
    pub token_mint_1: AccountKey,
    pub token_vault_0: AccountKey,
    pub token_vault_1: AccountKey,
    pub auth_bump: u8,
    /// Total active liquidity.
    pub liquidity: u128,
    /// Current square-root price, Q64.64.
    pub sqrt_price_x64: u128,
    pub tick_current: i32,
    pub tick_spacing: u16,
    /// Trading fee rate, in parts per million of the amount sold.
    pub fee_rate: u16,
    pub protocol_fees_token_0: u64,
    pub protocol_fees_token_1: u64,
    /// Trading fee earned per unit of liquidity since the pool began, Q64.64.
    pub fee_growth_global_0_x64: u128,
    pub fee_growth_global_1_x64: u128,
    pub fee_split_lp_bps: u16,
    pub fee_split_protocol_bps: u16,
    pub fee_split_impact_bps: u16,
}

impl Pool {
    /// Price, tick, spacing and fee rate lie within their bounds and the three
    /// fee-split weights share at most the whole basis-point space.
    pub open spec fn well_formed(self) -> bool {
        &&& MIN_SQRT_PRICE <= self.sqrt_price_x64 <= MAX_SQRT_PRICE
        &&& MIN_TICK <= self.tick_current <= MAX_TICK
        &&& MIN_TICK_SPACING <= self.tick_spacing <= MAX_TICK_SPACING
        &&& self.fee_rate <= MAX_FEE_RATE
        &&& self.fee_split_lp_bps + self.fee_split_protocol_bps + self.fee_split_impact_bps
            <= BPS_DENOMINATOR
    }
}

/// Claim of one liquidity provider against one pool.
#[derive(Clone, Copy, Debug, PartialEq, Eq)]
pub struct Position {
    pub bump: u8,
    pub pool: AccountKey,
    pub owner: AccountKey,
    pub liquidity: u128,
    /// The pool's fee growth at the last change of `liquidity`, per asset.
    pub fee_growth_entry_0_x64: u128,
    pub fee_growth_entry_1_x64: u128,
    /// Fees realized for the owner and not yet paid out, per asset.
    pub tokens_owed_0: u64,
    pub tokens_owed_1: u64,
}

impl Position {
    /// The snapshots were taken from `pool` now or earlier: neither runs ahead
    /// of the pool's accumulator.
    pub open spec fn follows(self, pool: Pool) -> bool {
        &&& self.fee_growth_entry_0_x64 <= pool.fee_growth_global_0_x64
        &&& self.fee_growth_entry_1_x64 <= pool.fee_growth_global_1_x64
    }
}

/// Time-weighted tick accumulator of one pool.
#[derive(Clone, Copy, Debug, PartialEq, Eq)]
pub struct ObservationState {
    pub bump: u8,
    pub pool: AccountKey,
    /// Write cursor of the ring; a single slot is in use.
    pub index: u8,
    /// Number of slots of the ring.
    pub cardinality: u8,
    /// Running sum of `tick_current * elapsed_seconds` since the pool began.
    pub tick_cumulative: i128,
    pub last_timestamp: i64,
}

} // verus!
