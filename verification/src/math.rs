//! Pricing arithmetic of the bonding curve: the protocol fee, the
//! instantaneous price, and the amounts a trade exchanges. All
//! division truncates toward zero, which systematically favors the
//! pool over the trader.

use vstd::prelude::*;

verus! {

use vstd::arithmetic::div_mod::{
    lemma_div_is_ordered,
    lemma_div_is_ordered_by_denominator,
    lemma_div_multiples_vanish,
    lemma_div_pos_is_pos,
    lemma_fundamental_div_mod,
    lemma_mod_bound,
};
use vstd::arithmetic::mul::{
    lemma_mul_inequality,
    lemma_mul_is_commutative,
    lemma_mul_is_distributive_add,
    lemma_mul_nonnegative,
    lemma_mul_upper_bound,
};

/// Base units of one whole token (9 decimals); also the scale of the
/// instantaneous price.
pub const TOKEN_UNIT: u64 = 1_000_000_000;

/// Fee rates are hundredths of a percent: a rate of 100 is 1%, and
/// 10000 is the whole amount.
pub const FEE_SCALE: u32 = 10000;

/// Fee charged on `amount` at rate `fee_percent`, truncating.
pub open spec fn fee_of(amount: int, fee_percent: int) -> int {
    (amount * fee_percent) / 10000
}

/// Quote units per whole token, scaled by `TOKEN_UNIT` and truncated.
/// Meaningful only while the token reserve is positive.
pub open spec fn price_of(sol_reserve: int, token_reserve: int) -> int
    recommends
        token_reserve > 0,
{
    (sol_reserve * 1_000_000_000) / token_reserve
}

/// Token units bought with `sol_in` quote units: the fee comes off the
/// input, and the remainder converts at the instantaneous price.
pub open spec fn tokens_out_of(
    sol_in: int,
    fee_percent: int,
    sol_reserve: int,
    token_reserve: int,
) -> int {
    ((sol_in - fee_of(sol_in, fee_percent)) * 1_000_000_000) / price_of(
        sol_reserve,
        token_reserve,
    )
}

/// Quote units received for `tokens_in` token units: the fee comes off
/// the input side before the conversion, symmetrically to a buy.
pub open spec fn sol_out_of(
    tokens_in: int,
    fee_percent: int,
    sol_reserve: int,
    token_reserve: int,
) -> int {
    ((tokens_in - fee_of(tokens_in, fee_percent)) * price_of(sol_reserve, token_reserve))
        / 1_000_000_000
}

/// The fee is never negative, and at any rate up to the full scale it
/// never exceeds the amount it is charged on.
pub proof fn lemma_fee_bounds(amount: int, fee_percent: int)
    requires
        0 <= amount,
        0 <= fee_percent,
    ensures
        0 <= fee_of(amount, fee_percent),
        fee_percent <= 10000 ==> fee_of(amount, fee_percent) <= amount,
{
    lemma_mul_nonnegative(amount, fee_percent);
    lemma_div_pos_is_pos(amount * fee_percent, 10000);
    if fee_percent <= 10000 {
        lemma_mul_inequality(fee_percent, 10000, amount);
        lemma_mul_is_commutative(amount, fee_percent);
        lemma_mul_is_commutative(10000, amount);
        lemma_div_is_ordered(amount * fee_percent, 10000 * amount, 10000);
        lemma_div_multiples_vanish(amount, 10000);
    }
}

/// Growing the quote reserve while shrinking (but not exhausting) the
/// token reserve never lowers the instantaneous price.
pub proof fn lemma_price_monotone(s1: int, t1: int, s2: int, t2: int)
    requires
        0 <= s1 <= s2,
        0 < t2 <= t1,
    ensures
        price_of(s1, t1) <= price_of(s2, t2),
{
    lemma_mul_inequality(s1, s2, 1_000_000_000);
    lemma_div_is_ordered(s1 * 1_000_000_000, s2 * 1_000_000_000, t1);
    lemma_mul_nonnegative(s2, 1_000_000_000);
    lemma_div_is_ordered_by_denominator(s2 * 1_000_000_000, t2, t1);
}

/// Truncated division is superadditive: dividing two summands
/// separately never beats dividing their sum.
pub proof fn lemma_div_superadditive(x: int, y: int, d: int)
    requires
        0 <= x,
        0 <= y,
        0 < d,
    ensures
        x / d + y / d <= (x + y) / d,
{
    lemma_fundamental_div_mod(x, d);
    lemma_fundamental_div_mod(y, d);
    lemma_mod_bound(x, d);
    lemma_mod_bound(y, d);
    lemma_mul_is_distributive_add(d, x / d, y / d);
    lemma_div_multiples_vanish(x / d + y / d, d);
    lemma_div_is_ordered(d * (x / d + y / d), x + y, d);
}

/// Multiplying a truncated quotient back by the divisor cannot exceed
/// the dividend.
pub proof fn lemma_div_times_divisor_le(a: int, d: int)
    requires
        0 <= a,
        0 < d,
    ensures
        (a / d) * d <= a,
{
    lemma_fundamental_div_mod(a, d);
    lemma_mod_bound(a, d);
    lemma_mul_is_commutative(a / d, d);
}

/// Fee charged on `amount` at rate `fee_percent` (hundredths of a
/// percent), truncating. The product is widened to 128 bits, so no
/// intermediate overflow is possible; the result itself must fit.
pub fn calculate_fee(amount: u64, fee_percent: u32) -> (r: u64)
    requires
        fee_of(amount as int, fee_percent as int) <= u64::MAX,
    ensures
        r == fee_of(amount as int, fee_percent as int),
        fee_percent <= 10000 ==> r <= amount,
{
    proof {
        lemma_mul_upper_bound(amount as int, u64::MAX as int, fee_percent as int, u32::MAX as int);
        lemma_fee_bounds(amount as int, fee_percent as int);
    }
    ((amount as u128) * (fee_percent as u128) / (FEE_SCALE as u128)) as u64
}

/// Instantaneous price of a pool: quote units per whole token, scaled
/// by `TOKEN_UNIT`. The multiply is widened to 128 bits; the caller
/// guarantees the result fits a 64-bit word.
pub fn get_price(sol_reserve: u64, token_reserve: u64) -> (r: u64)
    requires
        token_reserve > 0,
        price_of(sol_reserve as int, token_reserve as int) <= u64::MAX,
    ensures
        r == price_of(sol_reserve as int, token_reserve as int),
{
    proof {
        lemma_mul_upper_bound(
            sol_reserve as int,
            u64::MAX as int,
            1_000_000_000,
            1_000_000_000,
        );
        lemma_mul_nonnegative(sol_reserve as int, 1_000_000_000);
        lemma_div_pos_is_pos(sol_reserve as int * 1_000_000_000, token_reserve as int);
    }
    ((sol_reserve as u128) * (TOKEN_UNIT as u128) / (token_reserve as u128)) as u64
}

} // verus!
