//! The trading engine: token creation, buys, sells, withdrawals and
//! liquidity migration, each an atomic transition over the pool and
//! configuration records. Every operation is a pure function of the
//! state it reads; the host ledger serializes operations on one pool
//! and moves the balances an `Ok` result reports.

use vstd::prelude::*;

verus! {

use vstd::arithmetic::div_mod::lemma_div_pos_is_pos;
use vstd::arithmetic::mul::lemma_mul_nonnegative;
use vstd::arithmetic::mul::lemma_mul_upper_bound;
use crate::math::fee_of;
use crate::math::price_of;
use crate::math::sol_out_of;
use crate::math::tokens_out_of;
use crate::state::AccountId;
use crate::state::CustomError;
use crate::state::GlobalInfo;
use crate::state::TokenPools;

/// Metadata registered for a newly created token. Purely
/// informational: it never enters the pricing or reserve accounting,
/// and the host passes it on to the metadata registry.
#[derive(Clone, Debug)]
pub struct InitTokenParams {
    pub name: String,
    pub symbol: String,
    pub uri: String,
    pub decimals: u8,
}

/// Everything a successful `create_token` commits: the new pool
/// record, the token units minted to the creator and to the pool
/// vault, and the metadata to register.
#[derive(Clone, Debug)]
pub struct TokenLaunch {
    pub pool: TokenPools,
    /// Token units minted to the creator's destination account.
    pub creator_tokens: u64,
    /// Token units minted to the pool vault; always equals the pool's
    /// initial token reserve.
    pub vault_tokens: u64,
    pub metadata: InitTokenParams,
}

/// The two transfer amounts a liquidity migration instructs the
/// ledger to move to the external market.
#[derive(Clone, Copy, PartialEq, Eq, Structural, Debug)]
pub struct LiquidityPlan {
    /// Quote units moved from the escrow.
    pub init_coin_amount: u64,
    /// Token units moved from the pool vault.
    pub init_pc_amount: u64,
}

/// The whole effect of a successful token creation: the incremented
/// configuration, the new pool record, and the token units minted to
/// the creator. The seed buy prices against the full default reserves
/// (`initial_amount`, `total_supply`), so the pool opens with
/// `sol_reserve == initial_amount` and the creator's tokens already
/// taken out of the token reserve. A seed buy that would take the
/// whole supply is rejected: every pool opens solvent.
pub open spec fn create_transition(cfg: GlobalInfo, amount: u64) -> Result<
    (GlobalInfo, TokenPools, u64),
    CustomError,
> {
    if amount >= cfg.initial_amount {
        Err(CustomError::InvalidInitialValue)
    } else {
        let fee = fee_of(amount as int, cfg.fee_percent as int);
        if fee > amount as int {
            Err(CustomError::Overflow)
        } else if cfg.total_supply == 0 {
            Err(CustomError::Overflow)
        } else {
            let price = price_of(cfg.initial_amount as int, cfg.total_supply as int);
            if price > u64::MAX as int {
                Err(CustomError::Overflow)
            } else if price == 0 {
                Err(CustomError::Overflow)
            } else {
                let out = tokens_out_of(
                    amount as int,
                    cfg.fee_percent as int,
                    cfg.initial_amount as int,
                    cfg.total_supply as int,
                );
                if out >= cfg.total_supply as int {
                    Err(CustomError::InvalidTokenAmount)
                } else if cfg.token_count == u32::MAX {
                    Err(CustomError::Overflow)
                } else {
                    Ok(
                        (
                            GlobalInfo { token_count: (cfg.token_count + 1) as u32, ..cfg },
                            TokenPools {
                                sol_reserve: cfg.initial_amount,
                                token_reserve: (cfg.total_supply - out) as u64,
                                launched: 0,
                            },
                            out as u64,
                        ),
                    )
                }
            }
        }
    }
}

/// Creates a new token and its pool. The creator seeds `amount` quote
/// units (strictly below the configured ceiling), receives the tokens
/// that amount buys at the opening price, and the rest of the fixed
/// supply goes to the pool vault. Fails with `InvalidInitialValue`
/// when `amount >= initial_amount`, with `InvalidTokenAmount` when the
/// seed buy would take the whole supply and open an empty pool, and
/// with `Overflow` on any arithmetic fault; on failure the
/// configuration is unchanged.
pub fn create_token(global_info: &mut GlobalInfo, metadata: InitTokenParams, amount: u64) -> (r:
    Result<TokenLaunch, CustomError>)
    ensures
        (match create_transition(*old(global_info), amount) {
            Ok(step) => {
                &&& *final(global_info) == step.0
                &&& r matches Ok(launch) && launch.pool == step.1 && launch.creator_tokens == step.2
                    && launch.vault_tokens == step.1.token_reserve && launch.metadata == metadata
            },
            Err(e) => {
                &&& r matches Err(ee) && ee == e
                &&& *final(global_info) == *old(global_info)
            },
        }),
        r matches Ok(launch) ==> launch.creator_tokens + launch.vault_tokens
            == old(global_info).total_supply && launch.pool.wf(),
{
    if amount >= global_info.initial_amount {
        return Err(CustomError::InvalidInitialValue);
    }
    proof {
        lemma_mul_upper_bound(
            amount as int,
            u64::MAX as int,
            global_info.fee_percent as int,
            u32::MAX as int,
        );
        lemma_mul_nonnegative(amount as int, global_info.fee_percent as int);
        lemma_div_pos_is_pos(
            amount as int * global_info.fee_percent as int,
            10000,
        );
    }
    let fee: u128 = (amount as u128) * (global_info.fee_percent as u128) / 10000;
    if fee > amount as u128 {
        return Err(CustomError::Overflow);
    }
    if global_info.total_supply == 0 {
        return Err(CustomError::Overflow);
    }
    proof {
        lemma_mul_upper_bound(
            global_info.initial_amount as int,
            u64::MAX as int,
            1_000_000_000,
            1_000_000_000,
        );
        lemma_mul_nonnegative(
            global_info.initial_amount as int,
            1_000_000_000,
        );
        lemma_div_pos_is_pos(
            global_info.initial_amount as int * 1_000_000_000,
            global_info.total_supply as int,
        );
    }
    let price: u128 = (global_info.initial_amount as u128) * 1_000_000_000u128
        / (global_info.total_supply as u128);
    if price > u64::MAX as u128 {
        return Err(CustomError::Overflow);
    }
    if price == 0 {
        return Err(CustomError::Overflow);
    }
    let effective: u128 = amount as u128 - fee;
    proof {
        lemma_mul_upper_bound(
            effective as int,
            u64::MAX as int,
            1_000_000_000,
            1_000_000_000,
        );
        lemma_mul_nonnegative(effective as int, 1_000_000_000);
        lemma_div_pos_is_pos(
            effective as int * 1_000_000_000,
            price as int,
        );
    }
    let token_amount128: u128 = effective * 1_000_000_000u128 / price;
    if token_amount128 >= global_info.total_supply as u128 {
        return Err(CustomError::InvalidTokenAmount);
    }
    let token_amount: u64 = token_amount128 as u64;
    if global_info.token_count == u32::MAX {
        return Err(CustomError::Overflow);
    }
    let pool = TokenPools {
        sol_reserve: global_info.initial_amount,
        token_reserve: global_info.total_supply - token_amount,
        launched: 0,
    };
    let vault_tokens: u64 = global_info.total_supply - token_amount;
    global_info.token_count = global_info.token_count + 1;
    Ok(TokenLaunch { pool, creator_tokens: token_amount, vault_tokens, metadata })
}

/// The new pool record after a successful withdrawal of reserve
/// surplus by the owner. A withdrawal must leave the quote reserve
/// strictly positive: draining it to zero would break the pool's
/// solvency invariant, so taking the whole reserve is rejected, and an
/// amount beyond it is an arithmetic fault.
pub open spec fn withdraw_transition(
    cfg: GlobalInfo,
    pool: TokenPools,
    admin: AccountId,
    escrow_balance: u64,
    amount: u64,
) -> Result<TokenPools, CustomError> {
    if cfg.owner != admin {
        Err(CustomError::NotOwner)
    } else if escrow_balance < amount {
        Err(CustomError::InvalidSolAmount)
    } else if pool.sol_reserve < amount {
        Err(CustomError::Overflow)
    } else if pool.sol_reserve == amount {
        Err(CustomError::InvalidSolAmount)
    } else {
        Ok(TokenPools { sol_reserve: (pool.sol_reserve - amount) as u64, ..pool })
    }
}

/// Withdraws `amount` quote units of reserve surplus to the owner.
/// `escrow_balance` is the physical balance the host reads from the
/// escrow account. Fails with `NotOwner` for any other caller and with
/// `InvalidSolAmount` when the escrow does not back the amount or the
/// withdrawal would not leave a positive quote reserve; every failure
/// leaves the pool record untouched.
pub fn withdraw_balance(
    global_info: &GlobalInfo,
    token_pools: &mut TokenPools,
    admin: AccountId,
    escrow_balance: u64,
    amount: u64,
) -> (r: Result<(), CustomError>)
    ensures
        (match withdraw_transition(*global_info, *old(token_pools), admin, escrow_balance, amount) {
            Ok(p) => r is Ok && *final(token_pools) == p,
            Err(e) => r == Err::<(), CustomError>(e) && *final(token_pools) == *old(token_pools),
        }),
        r is Ok ==> final(token_pools).sol_reserve > 0,
        old(token_pools).wf() && r is Ok ==> final(token_pools).wf(),
{
    if global_info.owner != admin {
        return Err(CustomError::NotOwner);
    }
    if escrow_balance < amount {
        return Err(CustomError::InvalidSolAmount);
    }
    if token_pools.sol_reserve < amount {
        return Err(CustomError::Overflow);
    }
    if token_pools.sol_reserve == amount {
        return Err(CustomError::InvalidSolAmount);
    }
    token_pools.sol_reserve = token_pools.sol_reserve - amount;
    Ok(())
}

/// The transfer amounts of a liquidity migration at external price
/// `sol_price`. The quote side converts the configured target; the
/// token side scales it by the truncated reserve ratio
/// (`token_reserve / sol_reserve`), so a pool whose token reserve is
/// below its quote reserve plans a zero token deposit.
pub open spec fn liquidity_transition(cfg: GlobalInfo, pool: TokenPools, sol_price: u64) -> Result<
    LiquidityPlan,
    CustomError,
> {
    if sol_price == 0 {
        Err(CustomError::Overflow)
    } else {
        let init_coin = (cfg.target_lp_amount as int * 1_000_000_000 * 1000) / sol_price as int;
        if init_coin > u64::MAX as int {
            Err(CustomError::Overflow)
        } else if pool.sol_reserve == 0 {
            Err(CustomError::Overflow)
        } else {
            let init_pc = (pool.token_reserve as int / pool.sol_reserve as int) * init_coin;
            if init_pc > u64::MAX as int {
                Err(CustomError::Overflow)
            } else {
                Ok(
                    (LiquidityPlan {
                        init_coin_amount: init_coin as u64,
                        init_pc_amount: init_pc as u64,
                    }),
                )
            }
        }
    }
}

/// Plans a liquidity migration: how much of the escrow and of the
/// vault the ledger moves to the external market at quoted price
/// `sol_price`. The pool record itself is left untouched, and the
/// `launched` flag stays as it is; committing the move is the host's
/// decision.
pub fn add_liquidity(global_info: &GlobalInfo, token_pools: &TokenPools, sol_price: u64) -> (r:
    Result<LiquidityPlan, CustomError>)
    ensures
        r == liquidity_transition(*global_info, *token_pools, sol_price),
{
    if sol_price == 0 {
        return Err(CustomError::Overflow);
    }
    proof {
        lemma_mul_upper_bound(
            global_info.target_lp_amount as int,
            u64::MAX as int,
            1_000_000_000,
            1_000_000_000,
        );
        lemma_mul_upper_bound(
            global_info.target_lp_amount as int * 1_000_000_000,
            u64::MAX as int * 1_000_000_000,
            1000,
            1000,
        );
        lemma_mul_nonnegative(
            global_info.target_lp_amount as int,
            1_000_000_000,
        );
        lemma_mul_nonnegative(
            global_info.target_lp_amount as int * 1_000_000_000,
            1000,
        );
        lemma_div_pos_is_pos(
            global_info.target_lp_amount as int * 1_000_000_000 * 1000,
            sol_price as int,
        );
    }
    let init_coin128: u128 = (global_info.target_lp_amount as u128) * 1_000_000_000u128 * 1000u128
        / (sol_price as u128);
    if init_coin128 > u64::MAX as u128 {
        return Err(CustomError::Overflow);
    }
    if token_pools.sol_reserve == 0 {
        return Err(CustomError::Overflow);
    }
    let ratio: u64 = token_pools.token_reserve / token_pools.sol_reserve;
    proof {
        lemma_mul_upper_bound(
            ratio as int,
            u64::MAX as int,
            init_coin128 as int,
            u64::MAX as int,
        );
        lemma_mul_nonnegative(ratio as int, init_coin128 as int);
    }
    let init_pc128: u128 = (ratio as u128) * init_coin128;
    if init_pc128 > u64::MAX as u128 {
        return Err(CustomError::Overflow);
    }
    Ok(
        LiquidityPlan {
            init_coin_amount: init_coin128 as u64,
            init_pc_amount: init_pc128 as u64,
        },
    )
}

/// The transfer amounts of a liquidity migration with the token side
/// computed multiply-first: `token_reserve * init_coin_amount /
/// sol_reserve`, truncating only once. This is the precision-keeping
/// alternative to `liquidity_transition`, whose truncated reserve
/// ratio can lose the whole token side; both strategies are exposed so
/// their outcomes can be compared on the same inputs.
pub open spec fn liquidity_transition_multiply_first(
    cfg: GlobalInfo,
    pool: TokenPools,
    sol_price: u64,
) -> Result<LiquidityPlan, CustomError> {
    if sol_price == 0 {
        Err(CustomError::Overflow)
    } else {
        let init_coin = (cfg.target_lp_amount as int * 1_000_000_000 * 1000) / sol_price as int;
        if init_coin > u64::MAX as int {
            Err(CustomError::Overflow)
        } else if pool.sol_reserve == 0 {
            Err(CustomError::Overflow)
        } else {
            let init_pc = (pool.token_reserve as int * init_coin) / pool.sol_reserve as int;
            if init_pc > u64::MAX as int {
                Err(CustomError::Overflow)
            } else {
                Ok(
                    (LiquidityPlan {
                        init_coin_amount: init_coin as u64,
                        init_pc_amount: init_pc as u64,
                    }),
                )
            }
        }
    }
}

/// Plans a liquidity migration with the multiply-first token-side
/// strategy; otherwise exactly as `add_liquidity`. The pool record is
/// left untouched.
pub fn add_liquidity_multiply_first(
    global_info: &GlobalInfo,
    token_pools: &TokenPools,
    sol_price: u64,
) -> (r: Result<LiquidityPlan, CustomError>)
    ensures
        r == liquidity_transition_multiply_first(*global_info, *token_pools, sol_price),
{
    if sol_price == 0 {
        return Err(CustomError::Overflow);
    }
    proof {
        lemma_mul_upper_bound(
            global_info.target_lp_amount as int,
            u64::MAX as int,
            1_000_000_000,
            1_000_000_000,
        );
        lemma_mul_upper_bound(
            global_info.target_lp_amount as int * 1_000_000_000,
            u64::MAX as int * 1_000_000_000,
            1000,
            1000,
        );
        lemma_mul_nonnegative(global_info.target_lp_amount as int, 1_000_000_000);
        lemma_mul_nonnegative(global_info.target_lp_amount as int * 1_000_000_000, 1000);
        lemma_div_pos_is_pos(
            global_info.target_lp_amount as int * 1_000_000_000 * 1000,
            sol_price as int,
        );
    }
    let init_coin128: u128 = (global_info.target_lp_amount as u128) * 1_000_000_000u128 * 1000u128
        / (sol_price as u128);
    if init_coin128 > u64::MAX as u128 {
        return Err(CustomError::Overflow);
    }
    if token_pools.sol_reserve == 0 {
        return Err(CustomError::Overflow);
    }
    proof {
        lemma_mul_upper_bound(
            token_pools.token_reserve as int,
            u64::MAX as int,
            init_coin128 as int,
            u64::MAX as int,
        );
        lemma_mul_nonnegative(token_pools.token_reserve as int, init_coin128 as int);
        lemma_div_pos_is_pos(
            token_pools.token_reserve as int * init_coin128 as int,
            token_pools.sol_reserve as int,
        );
    }
    let init_pc128: u128 = (token_pools.token_reserve as u128) * init_coin128
        / (token_pools.sol_reserve as u128);
    if init_pc128 > u64::MAX as u128 {
        return Err(CustomError::Overflow);
    }
    Ok(
        LiquidityPlan {
            init_coin_amount: init_coin128 as u64,
            init_pc_amount: init_pc128 as u64,
        },
    )
}

/// The whole effect of a successful buy: the new pool record and the
/// token units the vault owes the buyer.
pub open spec fn buy_transition(cfg: GlobalInfo, pool: TokenPools, amount: u64) -> Result<
    (TokenPools, u64),
    CustomError,
> {
    let fee = fee_of(amount as int, cfg.fee_percent as int);
    if fee > amount as int {
        Err(CustomError::Overflow)
    } else if pool.token_reserve == 0 {
        Err(CustomError::Overflow)
    } else {
        let price = price_of(pool.sol_reserve as int, pool.token_reserve as int);
        if price > u64::MAX as int {
            Err(CustomError::Overflow)
        } else if price == 0 {
            Err(CustomError::Overflow)
        } else {
            let out = tokens_out_of(
                amount as int,
                cfg.fee_percent as int,
                pool.sol_reserve as int,
                pool.token_reserve as int,
            );
            if out >= pool.token_reserve as int {
                Err(CustomError::InvalidTokenAmount)
            } else if pool.sol_reserve as int + amount as int > u64::MAX as int {
                Err(CustomError::Overflow)
            } else {
                Ok(
                    (
                        TokenPools {
                            sol_reserve: (pool.sol_reserve + amount) as u64,
                            token_reserve: (pool.token_reserve - out) as u64,
                            launched: pool.launched,
                        },
                        out as u64,
                    ),
                )
            }
        }
    }
}

/// Buys tokens with `amount` quote units. The fee comes off the input,
/// the remainder converts at the instantaneous price, the quote
/// reserve grows by the gross input and the token reserve shrinks by
/// the output. Fails with `InvalidTokenAmount` when the output would
/// leave the token reserve at or below zero, and with `Overflow` on
/// any arithmetic fault.
pub fn buy_token(global_info: &GlobalInfo, token_pools: &mut TokenPools, amount: u64) -> (r: Result<
    u64,
    CustomError,
>)
    ensures
        (match buy_transition(*global_info, *old(token_pools), amount) {
            Ok(step) => r == Ok::<u64, CustomError>(step.1) && *final(token_pools) == step.0,
            Err(e) => r == Err::<u64, CustomError>(e) && *final(token_pools) == *old(token_pools),
        }),
        r is Ok ==> final(token_pools).wf(),
{
    proof {
        lemma_mul_upper_bound(
            amount as int,
            u64::MAX as int,
            global_info.fee_percent as int,
            u32::MAX as int,
        );
        lemma_mul_nonnegative(amount as int, global_info.fee_percent as int);
        lemma_div_pos_is_pos(
            amount as int * global_info.fee_percent as int,
            10000,
        );
    }
    let fee: u128 = (amount as u128) * (global_info.fee_percent as u128) / 10000;
    if fee > amount as u128 {
        return Err(CustomError::Overflow);
    }
    if token_pools.token_reserve == 0 {
        return Err(CustomError::Overflow);
    }
    proof {
        lemma_mul_upper_bound(
            token_pools.sol_reserve as int,
            u64::MAX as int,
            1_000_000_000,
            1_000_000_000,
        );
        lemma_mul_nonnegative(token_pools.sol_reserve as int, 1_000_000_000);
        lemma_div_pos_is_pos(
            token_pools.sol_reserve as int * 1_000_000_000,
            token_pools.token_reserve as int,
        );
    }
    let price: u128 = (token_pools.sol_reserve as u128) * 1_000_000_000u128
        / (token_pools.token_reserve as u128);
    if price > u64::MAX as u128 {
        return Err(CustomError::Overflow);
    }
    if price == 0 {
        return Err(CustomError::Overflow);
    }
    let effective: u128 = amount as u128 - fee;
    proof {
        lemma_mul_upper_bound(
            effective as int,
            u64::MAX as int,
            1_000_000_000,
            1_000_000_000,
        );
        lemma_mul_nonnegative(effective as int, 1_000_000_000);
        lemma_div_pos_is_pos(
            effective as int * 1_000_000_000,
            price as int,
        );
    }
    let token_amount128: u128 = effective * 1_000_000_000u128 / price;
    if token_amount128 >= token_pools.token_reserve as u128 {
        return Err(CustomError::InvalidTokenAmount);
    }
    let token_amount: u64 = token_amount128 as u64;
    if amount > u64::MAX - token_pools.sol_reserve {
        return Err(CustomError::Overflow);
    }
    token_pools.sol_reserve = token_pools.sol_reserve + amount;
    token_pools.token_reserve = token_pools.token_reserve - token_amount;
    Ok(token_amount)
}

/// The whole effect of a successful sell: the new pool record and the
/// quote units the escrow owes the seller.
pub open spec fn sell_transition(cfg: GlobalInfo, pool: TokenPools, token_amount: u64) -> Result<
    (TokenPools, u64),
    CustomError,
> {
    let fee = fee_of(token_amount as int, cfg.fee_percent as int);
    if fee > token_amount as int {
        Err(CustomError::Overflow)
    } else if pool.token_reserve == 0 {
        Err(CustomError::Overflow)
    } else {
        let price = price_of(pool.sol_reserve as int, pool.token_reserve as int);
        if price > u64::MAX as int {
            Err(CustomError::Overflow)
        } else {
            let sol_out = sol_out_of(
                token_amount as int,
                cfg.fee_percent as int,
                pool.sol_reserve as int,
                pool.token_reserve as int,
            );
            if sol_out >= pool.sol_reserve as int {
                Err(CustomError::InvalidSolAmount)
            } else if pool.token_reserve as int + token_amount as int > u64::MAX as int {
                Err(CustomError::Overflow)
            } else {
                Ok(
                    (
                        TokenPools {
                            sol_reserve: (pool.sol_reserve - sol_out) as u64,
                            token_reserve: (pool.token_reserve + token_amount) as u64,
                            launched: pool.launched,
                        },
                        sol_out as u64,
                    ),
                )
            }
        }
    }
}

/// Sells `token_amount` token units back to the pool. The fee comes
/// off the token side, the remainder converts at the instantaneous
/// price, the token reserve grows by the gross input and the quote
/// reserve shrinks by the output. Fails with `InvalidSolAmount` when
/// the output would drain the quote reserve to or below zero, and with
/// `Overflow` on any arithmetic fault.
pub fn sell_token(global_info: &GlobalInfo, token_pools: &mut TokenPools, token_amount: u64) -> (r:
    Result<u64, CustomError>)
    ensures
        (match sell_transition(*global_info, *old(token_pools), token_amount) {
            Ok(step) => r == Ok::<u64, CustomError>(step.1) && *final(token_pools) == step.0,
            Err(e) => r == Err::<u64, CustomError>(e) && *final(token_pools) == *old(token_pools),
        }),
        r is Ok ==> final(token_pools).wf(),
{
    proof {
        lemma_mul_upper_bound(
            token_amount as int,
            u64::MAX as int,
            global_info.fee_percent as int,
            u32::MAX as int,
        );
        lemma_mul_nonnegative(
            token_amount as int,
            global_info.fee_percent as int,
        );
        lemma_div_pos_is_pos(
            token_amount as int * global_info.fee_percent as int,
            10000,
        );
    }
    let fee: u128 = (token_amount as u128) * (global_info.fee_percent as u128) / 10000;
    if fee > token_amount as u128 {
        return Err(CustomError::Overflow);
    }
    if token_pools.token_reserve == 0 {
        return Err(CustomError::Overflow);
    }
    proof {
        lemma_mul_upper_bound(
            token_pools.sol_reserve as int,
            u64::MAX as int,
            1_000_000_000,
            1_000_000_000,
        );
        lemma_mul_nonnegative(token_pools.sol_reserve as int, 1_000_000_000);
        lemma_div_pos_is_pos(
            token_pools.sol_reserve as int * 1_000_000_000,
            token_pools.token_reserve as int,
        );
    }
    let price: u128 = (token_pools.sol_reserve as u128) * 1_000_000_000u128
        / (token_pools.token_reserve as u128);
    if price > u64::MAX as u128 {
        return Err(CustomError::Overflow);
    }
    let effective: u128 = token_amount as u128 - fee;
    proof {
        lemma_mul_upper_bound(
            effective as int,
            u64::MAX as int,
            price as int,
            u64::MAX as int,
        );
        lemma_mul_nonnegative(effective as int, price as int);
        lemma_div_pos_is_pos(
            effective as int * price as int,
            1_000_000_000,
        );
    }
    let sol_out128: u128 = effective * price / 1_000_000_000u128;
    if sol_out128 >= token_pools.sol_reserve as u128 {
        return Err(CustomError::InvalidSolAmount);
    }
    let sol_out: u64 = sol_out128 as u64;
    if token_amount > u64::MAX - token_pools.token_reserve {
        return Err(CustomError::Overflow);
    }
    token_pools.sol_reserve = token_pools.sol_reserve - sol_out;
    token_pools.token_reserve = token_pools.token_reserve + token_amount;
    Ok(sol_out)
}

} // verus!
