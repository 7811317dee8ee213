use orca_amm::constants::Q64;
use orca_amm::contexts::{ModifyPositionLiquidity, OpenPosition};
use orca_amm::errors::ErrorCode;
use orca_amm::instructions::position;
use orca_amm::state::{AccountKey, Pool, Position};
use orca_amm::transfer::{TransferPair, TransferRequest};

fn position_key(tag: u8) -> AccountKey {
    AccountKey { bytes: [tag; 32] }
}

fn position_pool() -> Pool {
    Pool {
        bump: 253,
        amm_config: position_key(10),
        token_mint_0: position_key(20),
        token_mint_1: position_key(21),
        token_vault_0: position_key(30),
        token_vault_1: position_key(31),
        auth_bump: 252,
        liquidity: 0,
        sqrt_price_x64: 1u128 << 63,
        tick_current: -1,
        tick_spacing: 64,
        fee_rate: 3000,
        protocol_fees_token_0: 0,
        protocol_fees_token_1: 0,
        fee_growth_global_0_x64: 0,
        fee_growth_global_1_x64: 0,
        fee_split_lp_bps: 2500,
        fee_split_protocol_bps: 400,
        fee_split_impact_bps: 100,
    }
}

fn empty_position(pool: Pool) -> Position {
    position::open_position(&OpenPosition {
        pool,
        pool_key: position_key(11),
        owner: position_key(70),
        bump: 250,
    })
    .unwrap()
}

fn position_accounts(pool: Pool, position: Position) -> ModifyPositionLiquidity {
    ModifyPositionLiquidity {
        pool,
        position,
        owner: position_key(70),
        token_vault_0: position_key(30),
        token_vault_1: position_key(31),
        user_token_account_0: position_key(40),
        user_token_account_1: position_key(41),
        pool_authority: position_key(50),
    }
}

#[test]
fn open_position_starts_empty_at_the_pools_fee_growth() {
    let mut pool = position_pool();
    pool.fee_growth_global_0_x64 = 123;
    pool.fee_growth_global_1_x64 = 456;
    let ctx = OpenPosition { pool, pool_key: position_key(11), owner: position_key(70), bump: 250 };
    assert_eq!(
        position::open_position(&ctx),
        Ok(Position {
            bump: 250,
            pool: position_key(11),
            owner: position_key(70),
            liquidity: 0,
            fee_growth_entry_0_x64: 123,
            fee_growth_entry_1_x64: 456,
            tokens_owed_0: 0,
            tokens_owed_1: 0,
        })
    );
}

#[test]
fn increase_adds_to_position_and_pool() {
    let mut pool = position_pool();
    pool.liquidity = 100;
    let mut ctx = position_accounts(pool, empty_position(pool));
    let transfers = position::increase_position_liquidity(&mut ctx, 30, 12).unwrap();
    assert_eq!(ctx.position.liquidity, 42);
    assert_eq!(ctx.pool.liquidity, 142);
    assert_eq!(
        transfers,
        TransferPair {
            first: TransferRequest {
                from: position_key(40),
                to: position_key(30),
                authority: position_key(70),
                amount: 30,
                signed_by_pool: false,
            },
            second: TransferRequest {
                from: position_key(41),
                to: position_key(31),
                authority: position_key(70),
                amount: 12,
                signed_by_pool: false,
            },
        }
    );
}

#[test]
fn increase_realizes_fees_before_moving_the_snapshot() {
    let mut pool = position_pool();
    pool.liquidity = 10;
    pool.fee_growth_global_0_x64 = 3 * Q64 + Q64 / 2;
    pool.fee_growth_global_1_x64 = 7 * Q64;
    let mut held = empty_position(position_pool());
    held.liquidity = 10;
    held.fee_growth_entry_0_x64 = Q64;
    held.fee_growth_entry_1_x64 = 7 * Q64;
    held.tokens_owed_0 = 4;
    held.tokens_owed_1 = 9;
    let mut ctx = position_accounts(pool, held);
    position::increase_position_liquidity(&mut ctx, 1, 1).unwrap();
    // 10 * 2.5 = 25 on top of the 4 owed before; nothing new of asset 1.
    assert_eq!(ctx.position.tokens_owed_0, 29);
    assert_eq!(ctx.position.tokens_owed_1, 9);
    assert_eq!(ctx.position.fee_growth_entry_0_x64, 3 * Q64 + Q64 / 2);
    assert_eq!(ctx.position.fee_growth_entry_1_x64, 7 * Q64);
    assert_eq!(ctx.position.liquidity, 12);
    assert_eq!(ctx.pool.liquidity, 12);
    // A second change right after finds nothing more to realize.
    position::increase_position_liquidity(&mut ctx, 1, 1).unwrap();
    assert_eq!(ctx.position.tokens_owed_0, 29);
    assert_eq!(ctx.position.tokens_owed_1, 9);
}

#[test]
fn fees_are_realized_with_the_liquidity_held_before_the_change() {
    let mut pool = position_pool();
    pool.liquidity = 3;
    pool.fee_growth_global_1_x64 = Q64 / 2;
    let mut held = empty_position(position_pool());
    held.liquidity = 3;
    let mut ctx = position_accounts(pool, held);
    position::increase_position_liquidity(&mut ctx, 500, 500).unwrap();
    // floor(3 * 0.5) = 1, not floor(1003 * 0.5).
    assert_eq!(ctx.position.tokens_owed_1, 1);
    assert_eq!(ctx.position.tokens_owed_0, 0);
}

#[test]
fn increase_rejects_a_zero_amount() {
    let pool = position_pool();
    let mut ctx = position_accounts(pool, empty_position(pool));
    let before = ctx;
    assert_eq!(position::increase_position_liquidity(&mut ctx, 0, 1), Err(ErrorCode::InvalidAmount));
    assert_eq!(position::increase_position_liquidity(&mut ctx, 1, 0), Err(ErrorCode::InvalidAmount));
    assert_eq!(ctx, before);
}

#[test]
fn increase_rejects_rather_than_saturates() {
    let mut pool = position_pool();
    pool.liquidity = u128::MAX - 1;
    let mut ctx = position_accounts(pool, empty_position(pool));
    let before = ctx;
    assert_eq!(
        position::increase_position_liquidity(&mut ctx, 1, 1),
        Err(ErrorCode::LiquidityOverflow)
    );
    assert_eq!(ctx, before);

    let mut full = empty_position(position_pool());
    full.liquidity = u128::MAX;
    let mut ctx = position_accounts(position_pool(), full);
    let before = ctx;
    assert_eq!(
        position::increase_position_liquidity(&mut ctx, 1, 1),
        Err(ErrorCode::LiquidityOverflow)
    );
    assert_eq!(ctx, before);
}

#[test]
fn increase_rejects_a_snapshot_ahead_of_the_pool() {
    let pool = position_pool();
    let mut ahead = empty_position(pool);
    ahead.fee_growth_entry_1_x64 = 1;
    let mut ctx = position_accounts(pool, ahead);
    let before = ctx;
    assert_eq!(position::increase_position_liquidity(&mut ctx, 1, 1), Err(ErrorCode::MathUnderflow));
    assert_eq!(ctx, before);
}

#[test]
fn increase_rejects_fees_that_do_not_fit() {
    let mut pool = position_pool();
    pool.liquidity = 2;
    pool.fee_growth_global_0_x64 = Q64;
    let mut held = empty_position(position_pool());
    held.liquidity = 2;
    held.tokens_owed_0 = u64::MAX - 1;
    let mut ctx = position_accounts(pool, held);
    let before = ctx;
    assert_eq!(position::increase_position_liquidity(&mut ctx, 1, 1), Err(ErrorCode::MathOverflow));
    assert_eq!(ctx, before);
    // One unit less owed and the fees fit exactly.
    ctx.position.tokens_owed_0 = u64::MAX - 2;
    assert!(position::increase_position_liquidity(&mut ctx, 1, 1).is_ok());
    assert_eq!(ctx.position.tokens_owed_0, u64::MAX);
}

#[test]
fn decrease_takes_from_position_and_pool() {
    let mut pool = position_pool();
    pool.liquidity = 100;
    let mut held = empty_position(pool);
    held.liquidity = 60;
    let mut ctx = position_accounts(pool, held);
    let transfers = position::decrease_position_liquidity(&mut ctx, 25, 15).unwrap();
    assert_eq!(ctx.position.liquidity, 20);
    assert_eq!(ctx.pool.liquidity, 60);
    assert_eq!(
        transfers,
        TransferPair {
            first: TransferRequest {
                from: position_key(30),
                to: position_key(40),
                authority: position_key(50),
                amount: 25,
                signed_by_pool: true,
            },
            second: TransferRequest {
                from: position_key(31),
                to: position_key(41),
                authority: position_key(50),
                amount: 15,
                signed_by_pool: true,
            },
        }
    );
    // The rest can go in one step.
    position::decrease_position_liquidity(&mut ctx, 10, 10).unwrap();
    assert_eq!(ctx.position.liquidity, 0);
    assert_eq!(ctx.pool.liquidity, 40);
}

#[test]
fn decrease_realizes_fees_before_moving_the_snapshot() {
    let mut pool = position_pool();
    pool.liquidity = 8;
    pool.fee_growth_global_0_x64 = Q64 + Q64 / 4;
    pool.fee_growth_global_1_x64 = 2 * Q64;
    let mut held = empty_position(position_pool());
    held.liquidity = 8;
    held.tokens_owed_1 = 5;
    let mut ctx = position_accounts(pool, held);
    position::decrease_position_liquidity(&mut ctx, 4, 4).unwrap();
    assert_eq!(ctx.position.tokens_owed_0, 10);
    assert_eq!(ctx.position.tokens_owed_1, 21);
    assert_eq!(ctx.position.fee_growth_entry_0_x64, Q64 + Q64 / 4);
    assert_eq!(ctx.position.fee_growth_entry_1_x64, 2 * Q64);
    assert_eq!(ctx.position.liquidity, 0);
}

#[test]
fn decrease_rejects_a_zero_amount() {
    let mut pool = position_pool();
    pool.liquidity = 10;
    let mut held = empty_position(pool);
    held.liquidity = 10;
    let mut ctx = position_accounts(pool, held);
    let before = ctx;
    assert_eq!(position::decrease_position_liquidity(&mut ctx, 0, 1), Err(ErrorCode::InvalidAmount));
    assert_eq!(position::decrease_position_liquidity(&mut ctx, 1, 0), Err(ErrorCode::InvalidAmount));
    assert_eq!(ctx, before);
}

#[test]
fn decrease_rejects_an_empty_position() {
    let mut pool = position_pool();
    pool.liquidity = 10;
    let mut ctx = position_accounts(pool, empty_position(pool));
    let before = ctx;
    assert_eq!(
        position::decrease_position_liquidity(&mut ctx, 1, 1),
        Err(ErrorCode::PositionIsEmpty)
    );
    assert_eq!(ctx, before);
}

#[test]
fn decrease_rejects_more_than_the_position_holds() {
    let mut pool = position_pool();
    pool.liquidity = 100;
    let mut held = empty_position(pool);
    held.liquidity = 10;
    let mut ctx = position_accounts(pool, held);
    let before = ctx;
    assert_eq!(
        position::decrease_position_liquidity(&mut ctx, 5, 6),
        Err(ErrorCode::InsufficientLiquidity)
    );
    assert_eq!(ctx, before);
}

#[test]
fn decrease_rejects_more_than_the_pool_holds() {
    let mut pool = position_pool();
    pool.liquidity = 9;
    let mut held = empty_position(pool);
    held.liquidity = 10;
    let mut ctx = position_accounts(pool, held);
    let before = ctx;
    assert_eq!(
        position::decrease_position_liquidity(&mut ctx, 5, 5),
        Err(ErrorCode::LiquidityUnderflow)
    );
    assert_eq!(ctx, before);
    assert!(position::decrease_position_liquidity(&mut ctx, 5, 4).is_ok());
    assert_eq!(ctx.pool.liquidity, 0);
    assert_eq!(ctx.position.liquidity, 1);
}

#[test]
fn decrease_rejects_a_snapshot_ahead_of_the_pool() {
    let mut pool = position_pool();
    pool.liquidity = 10;
    let mut ahead = empty_position(pool);
    ahead.liquidity = 10;
    ahead.fee_growth_entry_0_x64 = 1;
    let mut ctx = position_accounts(pool, ahead);
    let before = ctx;
    assert_eq!(position::decrease_position_liquidity(&mut ctx, 1, 1), Err(ErrorCode::MathUnderflow));
    assert_eq!(ctx, before);
}

#[test]
fn settle_fees_keeps_the_liquidity() {
    let mut pool = position_pool();
    pool.fee_growth_global_0_x64 = 5 * Q64;
    let mut held = empty_position(position_pool());
    held.liquidity = 3;
    let settled = position::settle_fees(&held, &pool).unwrap();
    let mut expected = held;
    expected.tokens_owed_0 = 15;
    expected.fee_growth_entry_0_x64 = 5 * Q64;
    assert_eq!(settled, expected);
}

#[test]
fn settle_fees_reports_asset_0_first() {
    let pool = position_pool();
    let mut held = empty_position(pool);
    held.liquidity = 1;
    // Asset 0 overflows, asset 1 underflows: the first one decides.
    let mut grown = pool;
    grown.fee_growth_global_0_x64 = Q64;
    held.tokens_owed_0 = u64::MAX;
    held.fee_growth_entry_1_x64 = 1;
    assert_eq!(position::settle_fees(&held, &grown), Err(ErrorCode::MathOverflow));
    held.tokens_owed_0 = 0;
    assert_eq!(position::settle_fees(&held, &grown), Err(ErrorCode::MathUnderflow));
}
