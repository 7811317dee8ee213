//! Accounting and swap-math engine of a single liquidity pool.
//!
//! The engine works on plain state records: the exchange-wide [`state::AmmConfig`],
//! the per-pair [`state::Pool`], the per-provider [`state::Position`] and the
//! time-weighted tick accumulator [`state::ObservationState`]. Every operation
//! validates its inputs, computes the new records and names the token transfers
//! that have to accompany it. Moving balances, deriving addresses and persisting
//! records is left to the caller.
//!
//! The operations live in [`instructions`], the arithmetic they share in
//! [`math`]. [`ledger`] states what holds over whole sequences of operations.

pub mod constants;
pub mod contexts;
pub mod errors;
pub mod instructions;
pub mod ledger;
pub mod math;
pub mod state;
pub mod transfer;
