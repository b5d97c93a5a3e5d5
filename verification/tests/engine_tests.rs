use token_minter::engine::add_liquidity;
use token_minter::engine::add_liquidity_multiply_first;
use token_minter::engine::buy_token;
use token_minter::engine::create_token;
use token_minter::engine::sell_token;
use token_minter::engine::withdraw_balance;
use token_minter::engine::InitTokenParams;
use token_minter::state::initialize;
use token_minter::state::AccountId;
use token_minter::state::CustomError;
use token_minter::state::GlobalInfo;
use token_minter::state::TokenPools;

fn default_config() -> GlobalInfo {
    initialize(AccountId { key: 7 })
}

fn metadata() -> InitTokenParams {
    InitTokenParams {
        name: String::from("Example"),
        symbol: String::from("EXM"),
        uri: String::from("https://example.invalid/token.json"),
        decimals: 9,
    }
}

#[test]
fn create_token_seeds_pool_and_mints() {
    let mut g = default_config();
    let launch = create_token(&mut g, metadata(), 1_000_000_000).unwrap();
    // fee 30_000_000, effective 970_000_000, opening price 20,
    // creator tokens 970_000_000 * 1e9 / 20
    assert_eq!(launch.creator_tokens, 48_500_000_000_000_000);
    assert_eq!(launch.vault_tokens, 951_500_000_000_000_000);
    assert_eq!(launch.pool.sol_reserve, 20_000_000_000);
    assert_eq!(launch.pool.token_reserve, 951_500_000_000_000_000);
    assert_eq!(launch.pool.launched, 0);
    assert_eq!(launch.metadata.name, "Example");
    assert_eq!(g.token_count, 1);
    assert_eq!(launch.creator_tokens + launch.vault_tokens, g.total_supply);
    assert!(launch.pool.sol_reserve > 0 && launch.pool.token_reserve > 0);
}

#[test]
fn create_token_rejects_seed_at_ceiling() {
    let mut g = default_config();
    let before = g;
    let r = create_token(&mut g, metadata(), 20_000_000_000);
    assert!(matches!(r, Err(CustomError::InvalidInitialValue)));
    assert_eq!(g, before);
}

#[test]
fn create_token_rejects_seed_above_ceiling() {
    let mut g = default_config();
    let r = create_token(&mut g, metadata(), 20_000_000_001);
    assert!(matches!(r, Err(CustomError::InvalidInitialValue)));
    assert_eq!(g.token_count, 0);
}

#[test]
fn create_token_rejects_seed_buy_taking_whole_supply() {
    let mut g = default_config();
    g.fee_percent = 0;
    g.total_supply = 6_000_000_000;
    g.initial_amount = 10;
    let before = g;
    // opening price truncates to 1, so a seed of 6 buys the entire supply
    let r = create_token(&mut g, metadata(), 6);
    assert!(matches!(r, Err(CustomError::InvalidTokenAmount)));
    assert_eq!(g, before);
}

#[test]
fn create_token_leaving_some_supply_succeeds() {
    let mut g = default_config();
    g.fee_percent = 0;
    g.total_supply = 6_000_000_000;
    g.initial_amount = 10;
    let launch = create_token(&mut g, metadata(), 5).unwrap();
    assert_eq!(launch.creator_tokens, 5_000_000_000);
    assert_eq!(launch.pool.token_reserve, 1_000_000_000);
    assert!(launch.pool.sol_reserve > 0 && launch.pool.token_reserve > 0);
}

#[test]
fn create_token_rejects_zero_supply() {
    let mut g = default_config();
    g.total_supply = 0;
    let r = create_token(&mut g, metadata(), 1_000_000_000);
    assert!(matches!(r, Err(CustomError::Overflow)));
}

#[test]
fn buy_moves_reserves_by_gross_in_and_tokens_out() {
    let g = default_config();
    let mut pool = TokenPools {
        sol_reserve: 20_000_000_000,
        token_reserve: 1_000_000_000_000_000_000,
        launched: 0,
    };
    let out = buy_token(&g, &mut pool, 1_000_000_000).unwrap();
    assert_eq!(out, 48_500_000_000_000_000);
    assert_eq!(pool.sol_reserve, 21_000_000_000);
    assert_eq!(pool.token_reserve, 951_500_000_000_000_000);
    assert!(pool.sol_reserve > 0 && pool.token_reserve > 0);
}

#[test]
fn buy_rejects_exhausting_token_reserve() {
    let mut g = default_config();
    g.fee_percent = 0;
    // price is exactly one token unit, so tokens out == quote in
    let mut pool = TokenPools { sol_reserve: 1_000_000_000, token_reserve: 1_000_000_000, launched: 0 };
    let before = pool;
    let r = buy_token(&g, &mut pool, 1_000_000_000);
    assert!(matches!(r, Err(CustomError::InvalidTokenAmount)));
    assert_eq!(pool, before);
}

#[test]
fn buy_down_to_one_token_unit_succeeds() {
    let mut g = default_config();
    g.fee_percent = 0;
    let mut pool = TokenPools { sol_reserve: 1_000_000_000, token_reserve: 1_000_000_000, launched: 0 };
    let out = buy_token(&g, &mut pool, 999_999_999).unwrap();
    assert_eq!(out, 999_999_999);
    assert_eq!(pool.token_reserve, 1);
    assert_eq!(pool.sol_reserve, 1_999_999_999);
}

#[test]
fn buy_rejects_fee_rate_above_scale() {
    let mut g = default_config();
    g.fee_percent = 20000;
    let mut pool = TokenPools { sol_reserve: 1_000_000_000, token_reserve: 1_000_000_000, launched: 0 };
    let r = buy_token(&g, &mut pool, 10_000);
    assert!(matches!(r, Err(CustomError::Overflow)));
}

#[test]
fn buy_rejects_empty_token_reserve() {
    let g = default_config();
    let mut pool = TokenPools { sol_reserve: 1_000_000_000, token_reserve: 0, launched: 0 };
    let r = buy_token(&g, &mut pool, 1_000);
    assert!(matches!(r, Err(CustomError::Overflow)));
}

#[test]
fn buy_rejects_zero_truncated_price() {
    let g = default_config();
    let mut pool = TokenPools { sol_reserve: 1, token_reserve: 1_000_000_000_000_000_000, launched: 0 };
    let r = buy_token(&g, &mut pool, 1_000);
    assert!(matches!(r, Err(CustomError::Overflow)));
}

#[test]
fn buy_rejects_quote_reserve_overflow() {
    let mut g = default_config();
    g.fee_percent = 0;
    let mut pool = TokenPools { sol_reserve: u64::MAX, token_reserve: u64::MAX, launched: 0 };
    let r = buy_token(&g, &mut pool, 1);
    assert!(matches!(r, Err(CustomError::Overflow)));
}

#[test]
fn buy_rejects_price_beyond_word_size() {
    let g = default_config();
    let mut pool = TokenPools { sol_reserve: u64::MAX, token_reserve: 1, launched: 0 };
    let r = buy_token(&g, &mut pool, 1_000);
    assert!(matches!(r, Err(CustomError::Overflow)));
}

#[test]
fn sell_moves_reserves_by_gross_in_and_quote_out() {
    let g = default_config();
    // state straight after the opening buy of the scenario above
    let mut pool = TokenPools {
        sol_reserve: 21_000_000_000,
        token_reserve: 951_500_000_000_000_000,
        launched: 0,
    };
    let back = sell_token(&g, &mut pool, 48_500_000_000_000_000).unwrap();
    // fee 1_455_000_000_000_000, price 22 after the buy
    assert_eq!(back, 1_034_990_000);
    assert_eq!(pool.sol_reserve, 19_965_010_000);
    assert_eq!(pool.token_reserve, 1_000_000_000_000_000_000);
    assert!(pool.sol_reserve > 0 && pool.token_reserve > 0);
}

#[test]
fn sell_rejects_draining_quote_reserve() {
    let mut g = default_config();
    g.fee_percent = 0;
    let mut pool = TokenPools { sol_reserve: 10, token_reserve: 1_000_000_000, launched: 0 };
    let before = pool;
    // price 10; selling 2e9 token units asks for 20 quote units
    let r = sell_token(&g, &mut pool, 2_000_000_000);
    assert!(matches!(r, Err(CustomError::InvalidSolAmount)));
    assert_eq!(pool, before);
}

#[test]
fn sell_rejects_empty_token_reserve() {
    let g = default_config();
    let mut pool = TokenPools { sol_reserve: 1_000_000_000, token_reserve: 0, launched: 0 };
    let r = sell_token(&g, &mut pool, 1_000);
    assert!(matches!(r, Err(CustomError::Overflow)));
}

#[test]
fn round_trip_at_stable_price_is_lossy() {
    let g = default_config();
    let mut pool = TokenPools {
        sol_reserve: 1_000_000_000_000,
        token_reserve: 1_000_000_000_000,
        launched: 0,
    };
    let spent: u64 = 1000;
    let out = buy_token(&g, &mut pool, spent).unwrap();
    assert_eq!(out, 970);
    let back = sell_token(&g, &mut pool, out).unwrap();
    assert_eq!(back, 941);
    assert!(back <= spent);
    assert_eq!(pool.sol_reserve, 1_000_000_000_059);
    assert_eq!(pool.token_reserve, 1_000_000_000_000);
}

#[test]
fn round_trip_at_exactly_unchanged_price_is_lossy() {
    let g = default_config();
    let mut pool = TokenPools {
        sol_reserve: 1_000_000_000_000_000,
        token_reserve: 1_000_000_000_000_000,
        launched: 0,
    };
    let p_before = token_minter::math::get_price(pool.sol_reserve, pool.token_reserve);
    let spent: u64 = 1000;
    let out = buy_token(&g, &mut pool, spent).unwrap();
    let p_after = token_minter::math::get_price(pool.sol_reserve, pool.token_reserve);
    // the trade is so small that the truncated price does not move
    assert_eq!(p_before, p_after);
    assert_eq!(out, 970);
    let back = sell_token(&g, &mut pool, out).unwrap();
    assert_eq!(back, 941);
    assert!(back <= spent);
}

#[test]
fn sequential_buys_raise_price_and_lose_no_update() {
    let g = default_config();
    let start = TokenPools {
        sol_reserve: 20_000_000_000,
        token_reserve: 1_000_000_000_000_000_000,
        launched: 0,
    };
    let mut pool = start;
    let p0 = token_minter::math::get_price(pool.sol_reserve, pool.token_reserve);
    let out_a = buy_token(&g, &mut pool, 1_000_000_000).unwrap();
    let p1 = token_minter::math::get_price(pool.sol_reserve, pool.token_reserve);
    let out_b = buy_token(&g, &mut pool, 2_000_000_000).unwrap();
    let p2 = token_minter::math::get_price(pool.sol_reserve, pool.token_reserve);
    assert!(p0 <= p1 && p1 <= p2);
    assert!(p0 < p2);
    // both commits are accounted for: no lost update
    assert_eq!(pool.sol_reserve, start.sol_reserve + 1_000_000_000 + 2_000_000_000);
    assert_eq!(start.token_reserve - pool.token_reserve, out_a + out_b);
}

#[test]
fn sequential_sells_lower_price() {
    let g = default_config();
    let mut pool = TokenPools {
        sol_reserve: 21_000_000_000,
        token_reserve: 951_500_000_000_000_000,
        launched: 0,
    };
    let p0 = token_minter::math::get_price(pool.sol_reserve, pool.token_reserve);
    sell_token(&g, &mut pool, 10_000_000_000_000_000).unwrap();
    let p1 = token_minter::math::get_price(pool.sol_reserve, pool.token_reserve);
    sell_token(&g, &mut pool, 10_000_000_000_000_000).unwrap();
    let p2 = token_minter::math::get_price(pool.sol_reserve, pool.token_reserve);
    assert!(p1 <= p0 && p2 <= p1);
    assert!(p2 < p0);
}

#[test]
fn withdraw_by_owner_reduces_reserve() {
    let g = default_config();
    let mut pool = TokenPools { sol_reserve: 20_000_000_000, token_reserve: 1_000, launched: 0 };
    let r = withdraw_balance(&g, &mut pool, AccountId { key: 7 }, 20_000_000_000, 5_000_000_000);
    assert!(r.is_ok());
    assert_eq!(pool.sol_reserve, 15_000_000_000);
    assert_eq!(pool.token_reserve, 1_000);
}

#[test]
fn withdraw_by_non_owner_changes_nothing() {
    let g = default_config();
    let mut pool = TokenPools { sol_reserve: 20_000_000_000, token_reserve: 1_000, launched: 0 };
    let before = pool;
    let r = withdraw_balance(&g, &mut pool, AccountId { key: 8 }, 20_000_000_000, 5_000_000_000);
    assert_eq!(r, Err(CustomError::NotOwner));
    assert_eq!(pool, before);
}

#[test]
fn withdraw_rejects_unbacked_amount() {
    let g = default_config();
    let mut pool = TokenPools { sol_reserve: 20_000_000_000, token_reserve: 1_000, launched: 0 };
    let before = pool;
    let r = withdraw_balance(&g, &mut pool, AccountId { key: 7 }, 1_000, 5_000_000_000);
    assert_eq!(r, Err(CustomError::InvalidSolAmount));
    assert_eq!(pool, before);
}

#[test]
fn withdraw_of_whole_reserve_changes_nothing() {
    let g = default_config();
    let mut pool = TokenPools { sol_reserve: 20_000_000_000, token_reserve: 1_000, launched: 0 };
    let before = pool;
    let r = withdraw_balance(&g, &mut pool, AccountId { key: 7 }, 20_000_000_000, 20_000_000_000);
    assert_eq!(r, Err(CustomError::InvalidSolAmount));
    assert_eq!(pool, before);
}

#[test]
fn withdraw_down_to_one_quote_unit_succeeds() {
    let g = default_config();
    let mut pool = TokenPools { sol_reserve: 20_000_000_000, token_reserve: 1_000, launched: 0 };
    let r = withdraw_balance(&g, &mut pool, AccountId { key: 7 }, 20_000_000_000, 19_999_999_999);
    assert!(r.is_ok());
    assert_eq!(pool.sol_reserve, 1);
}

#[test]
fn withdraw_rejects_more_than_bookkept_reserve() {
    let g = default_config();
    let mut pool = TokenPools { sol_reserve: 1_000, token_reserve: 1_000, launched: 0 };
    let before = pool;
    let r = withdraw_balance(&g, &mut pool, AccountId { key: 7 }, 5_000_000_000, 2_000);
    assert_eq!(r, Err(CustomError::Overflow));
    assert_eq!(pool, before);
}

#[test]
fn add_liquidity_plans_both_transfers() {
    let g = default_config();
    let pool = TokenPools {
        sol_reserve: 20_000_000_000,
        token_reserve: 1_000_000_000_000_000_000,
        launched: 0,
    };
    let plan = add_liquidity(&g, &pool, 100_000).unwrap();
    // 12000 * 1e9 * 1000 / 100000
    assert_eq!(plan.init_coin_amount, 120_000_000_000);
    // truncated reserve ratio 50_000_000, times the quote side
    assert_eq!(plan.init_pc_amount, 6_000_000_000_000_000_000);
}

#[test]
fn add_liquidity_ratio_truncates_to_zero() {
    let g = default_config();
    let pool = TokenPools { sol_reserve: 1_000, token_reserve: 500, launched: 0 };
    let plan = add_liquidity(&g, &pool, 100_000).unwrap();
    assert_eq!(plan.init_coin_amount, 120_000_000_000);
    assert_eq!(plan.init_pc_amount, 0);
}

#[test]
fn add_liquidity_rejects_zero_price() {
    let g = default_config();
    let pool = TokenPools { sol_reserve: 1_000, token_reserve: 500, launched: 0 };
    let r = add_liquidity(&g, &pool, 0);
    assert!(matches!(r, Err(CustomError::Overflow)));
}

#[test]
fn liquidity_strategies_agree_when_ratio_divides_exactly() {
    let g = default_config();
    let pool = TokenPools {
        sol_reserve: 20_000_000_000,
        token_reserve: 1_000_000_000_000_000_000,
        launched: 0,
    };
    let ratio_plan = add_liquidity(&g, &pool, 100_000).unwrap();
    let multiply_first_plan = add_liquidity_multiply_first(&g, &pool, 100_000).unwrap();
    assert_eq!(ratio_plan, multiply_first_plan);
    assert_eq!(multiply_first_plan.init_pc_amount, 6_000_000_000_000_000_000);
}

#[test]
fn liquidity_multiply_first_keeps_precision_the_ratio_loses() {
    let g = default_config();
    let pool = TokenPools { sol_reserve: 1_000, token_reserve: 500, launched: 0 };
    let ratio_plan = add_liquidity(&g, &pool, 100_000).unwrap();
    let multiply_first_plan = add_liquidity_multiply_first(&g, &pool, 100_000).unwrap();
    assert_eq!(ratio_plan.init_coin_amount, multiply_first_plan.init_coin_amount);
    assert_eq!(ratio_plan.init_pc_amount, 0);
    // 500 * 120_000_000_000 / 1000
    assert_eq!(multiply_first_plan.init_pc_amount, 60_000_000_000);
}
