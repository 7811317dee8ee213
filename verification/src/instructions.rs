//! The operations of the engine, one module each.

pub mod create_pool;
pub mod initialize_amm;
pub mod liquidity;
pub mod position;
pub mod swap;
