//! Laws of the engine as a whole: solvency preservation, price
//! monotonicity, the lossiness of a buy/sell round trip, and the
//! serializability of trades against one pool.

use vstd::prelude::*;

verus! {

use vstd::arithmetic::div_mod::lemma_div_by_multiple;
use vstd::arithmetic::div_mod::lemma_div_by_self;
use vstd::arithmetic::div_mod::lemma_div_is_ordered;
use vstd::arithmetic::div_mod::lemma_div_is_ordered_by_denominator;
use vstd::arithmetic::div_mod::lemma_div_multiples_vanish;
use vstd::arithmetic::div_mod::lemma_div_pos_is_pos;
use vstd::arithmetic::mul::lemma_mul_inequality;
use vstd::arithmetic::mul::lemma_mul_is_associative;
use vstd::arithmetic::mul::lemma_mul_is_commutative;
use vstd::arithmetic::mul::lemma_mul_is_distributive_add_other_way;
use vstd::arithmetic::mul::lemma_mul_is_distributive_sub_other_way;
use vstd::arithmetic::mul::lemma_mul_nonnegative;
use crate::engine::buy_transition;
use crate::engine::create_transition;
use crate::engine::liquidity_transition;
use crate::engine::liquidity_transition_multiply_first;
use crate::engine::sell_transition;
use crate::engine::withdraw_transition;
use crate::engine::LiquidityPlan;
use crate::math::fee_of;
use crate::math::lemma_div_superadditive;
use crate::math::lemma_div_times_divisor_le;
use crate::math::lemma_fee_bounds;
use crate::math::lemma_price_monotone;
use crate::math::price_of;
use crate::state::AccountId;
use crate::state::CustomError;
use crate::state::GlobalInfo;
use crate::state::TokenPools;

/// Solvency: a pool with positive reserves keeps positive reserves
/// across every buy that succeeds.
pub proof fn lemma_buy_preserves_solvency(
    cfg: GlobalInfo,
    pool: TokenPools,
    amount: u64,
    p1: TokenPools,
    out: u64,
)
    requires
        pool.wf(),
        buy_transition(cfg, pool, amount) == Ok::<(TokenPools, u64), CustomError>((p1, out)),
    ensures
        p1.wf(),
{
}

/// Solvency: a pool with positive reserves keeps positive reserves
/// across every sell that succeeds.
pub proof fn lemma_sell_preserves_solvency(
    cfg: GlobalInfo,
    pool: TokenPools,
    token_amount: u64,
    p1: TokenPools,
    sol_out: u64,
)
    requires
        pool.wf(),
        sell_transition(cfg, pool, token_amount) == Ok::<(TokenPools, u64), CustomError>((
            p1,
            sol_out,
        )),
    ensures
        p1.wf(),
{
}

/// Solvency: a pool with positive reserves keeps positive reserves
/// across every withdrawal that succeeds — a withdrawal that would
/// drain the quote reserve to zero is rejected.
pub proof fn lemma_withdraw_preserves_solvency(
    cfg: GlobalInfo,
    pool: TokenPools,
    admin: AccountId,
    escrow_balance: u64,
    amount: u64,
    p1: TokenPools,
)
    requires
        pool.wf(),
        withdraw_transition(cfg, pool, admin, escrow_balance, amount) == Ok::<
            TokenPools,
            CustomError,
        >(p1),
    ensures
        p1.wf(),
{
}

/// Solvency at birth: every successful creation opens the pool with
/// positive reserves on both sides.
pub proof fn lemma_create_establishes_solvency(
    cfg: GlobalInfo,
    amount: u64,
    cfg1: GlobalInfo,
    pool: TokenPools,
    creator_tokens: u64,
)
    requires
        create_transition(cfg, amount) == Ok::<(GlobalInfo, TokenPools, u64), CustomError>((
            cfg1,
            pool,
            creator_tokens,
        )),
    ensures
        pool.wf(),
{
}

/// Price monotonicity: every successful buy moves the instantaneous
/// price up or leaves it where it was, never down.
pub proof fn lemma_buy_price_monotone(
    cfg: GlobalInfo,
    pool: TokenPools,
    amount: u64,
    p1: TokenPools,
    out: u64,
)
    requires
        buy_transition(cfg, pool, amount) == Ok::<(TokenPools, u64), CustomError>((p1, out)),
    ensures
        price_of(pool.sol_reserve as int, pool.token_reserve as int) <= price_of(
            p1.sol_reserve as int,
            p1.token_reserve as int,
        ),
{
    lemma_price_monotone(
        pool.sol_reserve as int,
        pool.token_reserve as int,
        p1.sol_reserve as int,
        p1.token_reserve as int,
    );
}

/// Price monotonicity: every successful sell moves the instantaneous
/// price down or leaves it where it was, never up.
pub proof fn lemma_sell_price_monotone(
    cfg: GlobalInfo,
    pool: TokenPools,
    token_amount: u64,
    p1: TokenPools,
    sol_out: u64,
)
    requires
        sell_transition(cfg, pool, token_amount) == Ok::<(TokenPools, u64), CustomError>((
            p1,
            sol_out,
        )),
    ensures
        price_of(p1.sol_reserve as int, p1.token_reserve as int) <= price_of(
            pool.sol_reserve as int,
            pool.token_reserve as int,
        ),
{
    lemma_price_monotone(
        p1.sol_reserve as int,
        p1.token_reserve as int,
        pool.sol_reserve as int,
        pool.token_reserve as int,
    );
}

/// Price strictness: a buy whose gross quote input is worth at least
/// one whole step of the truncated price (`amount * 1e9` at least the
/// token reserve) strictly raises the instantaneous price. (A smaller
/// buy can leave the truncated price exactly where it was.)
pub proof fn lemma_buy_price_strictly_increases(
    cfg: GlobalInfo,
    pool: TokenPools,
    amount: u64,
    p1: TokenPools,
    out: u64,
)
    requires
        buy_transition(cfg, pool, amount) == Ok::<(TokenPools, u64), CustomError>((p1, out)),
        amount as int * 1_000_000_000 >= pool.token_reserve as int,
    ensures
        price_of(pool.sol_reserve as int, pool.token_reserve as int) < price_of(
            p1.sol_reserve as int,
            p1.token_reserve as int,
        ),
{
    let s = pool.sol_reserve as int;
    let t = pool.token_reserve as int;
    let a = amount as int;
    lemma_mul_nonnegative(s + a, 1_000_000_000);
    lemma_div_is_ordered_by_denominator((s + a) * 1_000_000_000, t - out as int, t);
    lemma_mul_is_distributive_add_other_way(1_000_000_000, s, a);
    lemma_mul_nonnegative(s, 1_000_000_000);
    lemma_mul_nonnegative(a, 1_000_000_000);
    lemma_div_superadditive(s * 1_000_000_000, a * 1_000_000_000, t);
    lemma_div_is_ordered(t, a * 1_000_000_000, t);
    lemma_div_by_self(t);
}

/// Price strictness: a sell whose quote output is worth at least one
/// whole step of the truncated price (`sol_out * 1e9` at least the
/// token reserve) strictly lowers the instantaneous price. (A smaller
/// sell can leave the truncated price exactly where it was.)
pub proof fn lemma_sell_price_strictly_decreases(
    cfg: GlobalInfo,
    pool: TokenPools,
    token_amount: u64,
    p1: TokenPools,
    sol_out: u64,
)
    requires
        sell_transition(cfg, pool, token_amount) == Ok::<(TokenPools, u64), CustomError>((
            p1,
            sol_out,
        )),
        sol_out as int * 1_000_000_000 >= pool.token_reserve as int,
    ensures
        price_of(p1.sol_reserve as int, p1.token_reserve as int) < price_of(
            pool.sol_reserve as int,
            pool.token_reserve as int,
        ),
{
    let s = pool.sol_reserve as int;
    let t = pool.token_reserve as int;
    let so = sol_out as int;
    lemma_mul_nonnegative(s - so, 1_000_000_000);
    lemma_div_is_ordered_by_denominator((s - so) * 1_000_000_000, t, t + token_amount as int);
    lemma_mul_is_distributive_sub_other_way(1_000_000_000, s, so);
    lemma_mul_nonnegative(so, 1_000_000_000);
    lemma_div_superadditive((s - so) * 1_000_000_000, so * 1_000_000_000, t);
    lemma_div_is_ordered(t, so * 1_000_000_000, t);
    lemma_div_by_self(t);
}

/// Round trip at a stable price: when a buy leaves the truncated
/// instantaneous price unchanged, selling the purchased tokens
/// straight back returns at most the quote amount spent — the fees
/// and the truncations only ever favor the pool. (When the buy moves
/// the truncated price up, the seller trades at the higher price and
/// the bound need not hold.)
pub proof fn lemma_round_trip_not_profitable(
    cfg: GlobalInfo,
    pool: TokenPools,
    sol_in: u64,
    p1: TokenPools,
    tokens_out: u64,
    p2: TokenPools,
    sol_back: u64,
)
    requires
        cfg.fee_percent <= 10000,
        buy_transition(cfg, pool, sol_in) == Ok::<(TokenPools, u64), CustomError>((p1, tokens_out)),
        price_of(p1.sol_reserve as int, p1.token_reserve as int) == price_of(
            pool.sol_reserve as int,
            pool.token_reserve as int,
        ),
        sell_transition(cfg, p1, tokens_out) == Ok::<(TokenPools, u64), CustomError>((
            p2,
            sol_back,
        )),
    ensures
        sol_back <= sol_in,
{
    let p = price_of(pool.sol_reserve as int, pool.token_reserve as int);
    let fee1 = fee_of(sol_in as int, cfg.fee_percent as int);
    let eff1 = sol_in as int - fee1;
    let fee2 = fee_of(tokens_out as int, cfg.fee_percent as int);
    let eff2 = tokens_out as int - fee2;
    lemma_fee_bounds(sol_in as int, cfg.fee_percent as int);
    lemma_fee_bounds(tokens_out as int, cfg.fee_percent as int);
    assert(tokens_out as int == (eff1 * 1_000_000_000) / p);
    assert(sol_back as int == (eff2 * p) / 1_000_000_000);
    lemma_div_times_divisor_le(eff1 * 1_000_000_000, p);
    lemma_mul_inequality(eff2, tokens_out as int, p);
    lemma_div_is_ordered(eff2 * p, eff1 * 1_000_000_000, 1_000_000_000);
    lemma_mul_is_commutative(eff1, 1_000_000_000);
    lemma_div_multiples_vanish(eff1, 1_000_000_000);
}

/// The two liquidity strategies, compared: on the same inputs the
/// quote sides agree, and the truncated-ratio plan never moves more of
/// the token side than the multiply-first plan — truncating the
/// reserve ratio early can only lose token units.
pub proof fn lemma_liquidity_plans_ordered(
    cfg: GlobalInfo,
    pool: TokenPools,
    sol_price: u64,
    ratio_plan: LiquidityPlan,
    multiply_first_plan: LiquidityPlan,
)
    requires
        liquidity_transition(cfg, pool, sol_price) == Ok::<LiquidityPlan, CustomError>(ratio_plan),
        liquidity_transition_multiply_first(cfg, pool, sol_price) == Ok::<
            LiquidityPlan,
            CustomError,
        >(multiply_first_plan),
    ensures
        ratio_plan.init_coin_amount == multiply_first_plan.init_coin_amount,
        ratio_plan.init_pc_amount <= multiply_first_plan.init_pc_amount,
{
    let t = pool.token_reserve as int;
    let s = pool.sol_reserve as int;
    let ic = ratio_plan.init_coin_amount as int;
    lemma_div_pos_is_pos(t, s);
    lemma_mul_nonnegative(t / s, ic);
    lemma_div_times_divisor_le(t, s);
    lemma_mul_inequality((t / s) * s, t, ic);
    lemma_mul_is_associative(t / s, s, ic);
    lemma_mul_is_commutative(s, ic);
    lemma_mul_is_associative(t / s, ic, s);
    lemma_div_by_multiple((t / s) * ic, s);
    lemma_div_is_ordered(((t / s) * ic) * s, t * ic, s);
}

/// Serialized trades lose no update: when two buys commit one after
/// the other, each computed from the state the previous one left, the
/// final reserves are exactly the sequential application of the two
/// trades — the quote reserve has absorbed both gross inputs and the
/// token reserve has given up both outputs.
pub proof fn lemma_buys_serialize(
    cfg: GlobalInfo,
    pool: TokenPools,
    amount_a: u64,
    amount_b: u64,
    p1: TokenPools,
    out_a: u64,
    p2: TokenPools,
    out_b: u64,
)
    requires
        buy_transition(cfg, pool, amount_a) == Ok::<(TokenPools, u64), CustomError>((p1, out_a)),
        buy_transition(cfg, p1, amount_b) == Ok::<(TokenPools, u64), CustomError>((p2, out_b)),
    ensures
        p2.sol_reserve == pool.sol_reserve + amount_a + amount_b,
        pool.token_reserve - p2.token_reserve == out_a + out_b,
        p2.launched == pool.launched,
{
}

} // verus!
