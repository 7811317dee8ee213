use orca_amm::constants::MIN_SQRT_PRICE;
use orca_amm::contexts::{
    CreatePool, InitializeAmm, ModifyLiquidity, ModifyPositionLiquidity, OpenPosition, Swap,
};
use orca_amm::errors::ErrorCode;
use orca_amm::instructions::{create_pool, initialize_amm, liquidity, position, swap};
use orca_amm::state::{AccountKey, AmmConfig, ObservationState, Pool, Position};

fn key(tag: u8) -> AccountKey {
    AccountKey { bytes: [tag; 32] }
}

fn new_config() -> AmmConfig {
    initialize_amm::handler(
        &InitializeAmm { authority: key(1), protocol_fee_destination: key(2), bump: 254 },
        3000,
        0,
    )
    .unwrap()
}

fn new_pool(config: AmmConfig) -> (Pool, ObservationState) {
    create_pool::handler(
        &CreatePool {
            amm_config: config,
            amm_config_key: key(10),
            pool_key: key(11),
            token_mint_0: key(20),
            token_mint_1: key(21),
            token_vault_0: key(30),
            token_vault_1: key(31),
            pool_bump: 253,
            pool_authority_bump: 252,
            observation_bump: 251,
        },
        MIN_SQRT_PRICE,
        64,
        1_700_000_000,
    )
    .unwrap()
}

fn open(pool: Pool, owner: u8) -> Position {
    position::open_position(&OpenPosition { pool, pool_key: key(11), owner: key(owner), bump: 250 })
        .unwrap()
}

fn on_pool(pool: Pool) -> ModifyLiquidity {
    ModifyLiquidity {
        pool,
        token_vault_0: key(30),
        token_vault_1: key(31),
        user_token_account_0: key(40),
        user_token_account_1: key(41),
        pool_authority: key(50),
        user: key(60),
    }
}

fn on_position(pool: Pool, held: Position) -> ModifyPositionLiquidity {
    ModifyPositionLiquidity {
        pool,
        position: held,
        owner: held.owner,
        token_vault_0: key(30),
        token_vault_1: key(31),
        user_token_account_0: key(40),
        user_token_account_1: key(41),
        pool_authority: key(50),
    }
}

fn on_swap(config: AmmConfig, pool: Pool, observation: ObservationState) -> Swap {
    Swap {
        pool,
        amm_config: config,
        user_token_account_in: key(40),
        user_token_account_out: key(41),
        token_vault_in: key(30),
        token_vault_out: key(31),
        pool_authority: key(50),
        observation_state: observation,
        user: key(60),
    }
}

#[test]
fn pool_at_the_lowest_price_swaps_as_computed() {
    let config = new_config();
    let (pool, observation) = new_pool(config);
    assert_eq!(pool.fee_rate, 3000);
    assert_eq!(pool.tick_spacing, 64);
    assert_eq!(pool.sqrt_price_x64, MIN_SQRT_PRICE);

    let mut funding = on_pool(pool);
    liquidity::add_liquidity(&mut funding, 1_000_000, 1_000_000).unwrap();
    assert_eq!(funding.pool.liquidity, 2_000_000);

    let mut ctx = on_swap(config, funding.pool, observation);
    let before = ctx;
    assert_eq!(
        swap::handler(&mut ctx, 100_000, 49_851, true, 1_700_000_060),
        Err(ErrorCode::AmountOutTooLow)
    );
    assert_eq!(ctx, before);

    let receipt = swap::handler(&mut ctx, 100_000, 49_850, true, 1_700_000_060).unwrap();
    assert_eq!(receipt.fee_amount, 300);
    assert_eq!(receipt.amount_in_after_fee, 99_700);
    assert_eq!(receipt.amount_out, 49_850);
    assert_eq!(receipt.transfers.first.amount, 100_000);
    assert_eq!(receipt.transfers.second.amount, 49_850);
    assert_eq!(ctx.pool.liquidity, 2_000_000);
    assert_eq!(ctx.pool.protocol_fees_token_0, 300);
    assert_eq!(ctx.observation_state.tick_cumulative, -887272 * 60);
    assert_eq!(ctx.observation_state.last_timestamp, 1_700_000_060);
}

#[test]
fn pool_liquidity_equals_the_sum_of_its_positions() {
    let config = new_config();
    let (mut pool, mut observation) = new_pool(config);
    let mut alice = open(pool, 70);
    let mut bob = open(pool, 71);

    // Accepted and rejected changes alike, with swaps in between.
    let steps: [(bool, bool, u64, u64); 10] = [
        (true, true, 500, 700),
        (false, true, 90, 10),
        (true, false, 600, 600),
        (false, false, 1, 1),
        (true, false, 300, 0),
        (true, true, u64::MAX, u64::MAX),
        (false, true, 200, 100),
        (false, false, 1300, 1),
        (true, false, 0, 9),
        (false, true, 5, 5),
    ];
    for (for_alice, increase, amount_0, amount_1) in steps {
        let held = if for_alice { alice } else { bob };
        let mut ctx = on_position(pool, held);
        let result = if increase {
            position::increase_position_liquidity(&mut ctx, amount_0, amount_1)
        } else {
            position::decrease_position_liquidity(&mut ctx, amount_0, amount_1)
        };
        if result.is_err() {
            assert_eq!(ctx, on_position(pool, held));
        }
        pool = ctx.pool;
        if for_alice {
            alice = ctx.position;
        } else {
            bob = ctx.position;
        }
        assert_eq!(pool.liquidity, alice.liquidity + bob.liquidity);

        let mut trade = on_swap(config, pool, observation);
        swap::handler(&mut trade, 1_000_000, 0, for_alice, 1_700_000_100).unwrap();
        pool = trade.pool;
        observation = trade.observation_state;
        assert_eq!(pool.liquidity, alice.liquidity + bob.liquidity);
    }
    assert_eq!(alice.liquidity, (u64::MAX as u128) * 2);
    assert_eq!(bob.liquidity, 408);
}

#[test]
fn fee_growth_never_falls() {
    let config = new_config();
    let (pool, observation) = new_pool(config);
    let mut funding = on_pool(pool);
    liquidity::add_liquidity(&mut funding, 40, 2).unwrap();
    let mut ctx = on_swap(config, funding.pool, observation);
    let amounts: [u64; 8] = [1, 0, 333, 1_000_000, u64::MAX, 5, u64::MAX, 12];
    let mut now = 1_700_000_000;
    for (i, amount_in) in amounts.into_iter().enumerate() {
        let growth_0 = ctx.pool.fee_growth_global_0_x64;
        let growth_1 = ctx.pool.fee_growth_global_1_x64;
        let fees_0 = ctx.pool.protocol_fees_token_0;
        let fees_1 = ctx.pool.protocol_fees_token_1;
        let _ = swap::handler(&mut ctx, amount_in, if i == 5 { 3 } else { 0 }, i % 2 == 0, now);
        assert!(ctx.pool.fee_growth_global_0_x64 >= growth_0);
        assert!(ctx.pool.fee_growth_global_1_x64 >= growth_1);
        assert!(ctx.pool.protocol_fees_token_0 >= fees_0);
        assert!(ctx.pool.protocol_fees_token_1 >= fees_1);

        let mut change = on_pool(ctx.pool);
        let _ = liquidity::remove_liquidity(&mut change, 1, 1);
        assert_eq!(change.pool.fee_growth_global_0_x64, ctx.pool.fee_growth_global_0_x64);
        assert_eq!(change.pool.fee_growth_global_1_x64, ctx.pool.fee_growth_global_1_x64);
        ctx.pool = change.pool;
        now += 7;
    }
    assert!(ctx.pool.fee_growth_global_0_x64 > 0);
    assert!(ctx.pool.fee_growth_global_1_x64 > 0);
}

#[test]
fn position_earns_the_fees_of_the_swaps_it_sat_through() {
    let config = new_config();
    let (pool, observation) = new_pool(config);
    let mut ctx = on_position(pool, open(pool, 70));
    position::increase_position_liquidity(&mut ctx, 1_000_000, 1_000_000).unwrap();
    assert_eq!(ctx.position.tokens_owed_0, 0);
    assert_eq!(ctx.pool.liquidity, 2_000_000);

    let mut trade = on_swap(config, ctx.pool, observation);
    swap::handler(&mut trade, 100_000, 0, true, 1_700_000_001).unwrap();
    swap::handler(&mut trade, 50_000, 0, false, 1_700_000_002).unwrap();

    let liquidity_before = ctx.position.liquidity;
    let entry_0 = ctx.position.fee_growth_entry_0_x64;
    let entry_1 = ctx.position.fee_growth_entry_1_x64;
    let mut change = on_position(trade.pool, ctx.position);
    position::decrease_position_liquidity(&mut change, 1, 1).unwrap();
    let earned_0 = (liquidity_before * (trade.pool.fee_growth_global_0_x64 - entry_0)) >> 64;
    let earned_1 = (liquidity_before * (trade.pool.fee_growth_global_1_x64 - entry_1)) >> 64;
    assert_eq!(change.position.tokens_owed_0 as u128, earned_0);
    assert_eq!(change.position.tokens_owed_1 as u128, earned_1);
    // The fee was 300 and 150; spreading it over the liquidity rounds down once more.
    assert_eq!(change.position.tokens_owed_0, 299);
    assert_eq!(change.position.tokens_owed_1, 149);
    assert_eq!(change.position.fee_growth_entry_0_x64, trade.pool.fee_growth_global_0_x64);
    assert_eq!(change.position.fee_growth_entry_1_x64, trade.pool.fee_growth_global_1_x64);
}

#[test]
fn a_position_opened_late_earns_nothing_of_earlier_swaps() {
    let config = new_config();
    let (pool, observation) = new_pool(config);
    let mut early = on_position(pool, open(pool, 70));
    position::increase_position_liquidity(&mut early, 500, 500).unwrap();
    let mut trade = on_swap(config, early.pool, observation);
    swap::handler(&mut trade, 1_000_000, 0, true, 1_700_000_001).unwrap();

    let mut late = on_position(trade.pool, open(trade.pool, 71));
    position::increase_position_liquidity(&mut late, 500, 500).unwrap();
    assert_eq!(late.position.tokens_owed_0, 0);
    position::decrease_position_liquidity(&mut late, 250, 250).unwrap();
    assert_eq!(late.position.tokens_owed_0, 0);

    let mut first = on_position(late.pool, early.position);
    position::decrease_position_liquidity(&mut first, 250, 250).unwrap();
    assert_eq!(first.position.tokens_owed_0, 3000);
}
