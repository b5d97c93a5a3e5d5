//! The persistent records of the market maker: the protocol-wide
//! configuration singleton and the per-token reserve pool, together
//! with the owner-gated setters that mutate the configuration.

use vstd::prelude::*;

verus! {

/// An authenticated caller identity, as the host hands it to the
/// engine; compared only for exact equality.
#[derive(Clone, Copy, PartialEq, Eq, Structural, Debug)]
pub struct AccountId {
    pub key: u64,
}

/// Why an operation was rejected. Every error aborts the whole
/// transaction: no partial reserve mutation ever commits.
#[derive(Clone, Copy, PartialEq, Eq, Structural, Debug)]
pub enum CustomError {
    /// The creation seed amount was not strictly below the configured
    /// ceiling.
    InvalidInitialValue,
    /// A sell or withdrawal would drain more quote asset than the
    /// escrow backs, or would leave the quote reserve empty.
    InvalidSolAmount,
    /// A buy (or the seed buy of a creation) would exhaust the token
    /// reserve at or below the computed output.
    InvalidTokenAmount,
    /// The caller is not the configured owner of a privileged
    /// operation.
    NotOwner,
    /// An intermediate or committed quantity would not fit its field,
    /// or a divisor was zero; the transaction aborts loudly instead of
    /// wrapping.
    Overflow,
}

/// Protocol-wide configuration; one instance governs every pool.
#[derive(Clone, Copy, PartialEq, Eq, Structural, Debug)]
pub struct GlobalInfo {
    /// Fee rate in hundredths of a percent (100 = 1%).
    pub fee_percent: u32,
    /// Advisory market-cap threshold for liquidity migration.
    pub target_market_cap: u64,
    /// Quote amount that a liquidity migration moves out, before
    /// scaling by the quoted external price.
    pub target_lp_amount: u64,
    /// Fixed token supply minted at creation time, in base units.
    pub total_supply: u64,
    /// Ceiling on the quote amount a creator may seed into a new pool.
    pub initial_amount: u64,
    /// Incremented once per successful token creation.
    pub token_count: u32,
    /// Whether a liquidity migration has been recorded.
    pub liquidity_added: bool,
    /// The sole principal allowed to change this record or withdraw
    /// reserve surplus.
    pub owner: AccountId,
}

/// Reserve bookkeeping for one token's pool.
#[derive(Clone, Copy, PartialEq, Eq, Structural, Debug)]
pub struct TokenPools {
    /// Quote-asset units held against this token.
    pub sol_reserve: u64,
    /// Token units the pool still holds (not yet sold to buyers).
    pub token_reserve: u64,
    /// 0 while the pool trades on the curve, 1 once liquidity has
    /// migrated externally.
    pub launched: u8,
}

impl TokenPools {
    /// Solvency invariant: both reserves stay strictly positive, so
    /// the instantaneous price is always defined.
    pub open spec fn wf(self) -> bool {
        self.sol_reserve > 0 && self.token_reserve > 0
    }
}

/// Creates the configuration singleton with its default parameters and
/// the caller as owner.
pub fn initialize(owner: AccountId) -> (g: GlobalInfo)
    ensures
        g == (GlobalInfo {
            fee_percent: 300,
            target_market_cap: 69000,
            target_lp_amount: 12000,
            total_supply: 1_000_000_000_000_000_000,
            initial_amount: 20_000_000_000,
            token_count: 0,
            liquidity_added: false,
            owner,
        }),
{
    GlobalInfo {
        fee_percent: 300,
        target_market_cap: 69000,
        target_lp_amount: 12000,
        total_supply: 1_000_000_000_000_000_000,
        initial_amount: 20_000_000_000,
        token_count: 0,
        liquidity_added: false,
        owner,
    }
}

/// Sets the fee rate; owner only.
pub fn set_fee_percent(global_info: &mut GlobalInfo, admin: AccountId, fee_percent: u32) -> (r:
    Result<(), CustomError>)
    ensures
        admin == old(global_info).owner ==> r is Ok && *final(global_info) == (GlobalInfo {
            fee_percent,
            ..*old(global_info)
        }),
        admin != old(global_info).owner ==> r == Err::<(), CustomError>(CustomError::NotOwner)
            && *final(global_info) == *old(global_info),
{
    if global_info.owner != admin {
        return Err(CustomError::NotOwner);
    }
    global_info.fee_percent = fee_percent;
    Ok(())
}

/// Sets the advisory market-cap threshold; owner only.
pub fn set_target_market_cap(
    global_info: &mut GlobalInfo,
    admin: AccountId,
    target_market_cap: u64,
) -> (r: Result<(), CustomError>)
    ensures
        admin == old(global_info).owner ==> r is Ok && *final(global_info) == (GlobalInfo {
            target_market_cap,
            ..*old(global_info)
        }),
        admin != old(global_info).owner ==> r == Err::<(), CustomError>(CustomError::NotOwner)
            && *final(global_info) == *old(global_info),
{
    if global_info.owner != admin {
        return Err(CustomError::NotOwner);
    }
    global_info.target_market_cap = target_market_cap;
    Ok(())
}

/// Sets the quote amount a liquidity migration moves out; owner only.
pub fn set_target_lp_amount(
    global_info: &mut GlobalInfo,
    admin: AccountId,
    target_lp_amount: u64,
) -> (r: Result<(), CustomError>)
    ensures
        admin == old(global_info).owner ==> r is Ok && *final(global_info) == (GlobalInfo {
            target_lp_amount,
            ..*old(global_info)
        }),
        admin != old(global_info).owner ==> r == Err::<(), CustomError>(CustomError::NotOwner)
            && *final(global_info) == *old(global_info),
{
    if global_info.owner != admin {
        return Err(CustomError::NotOwner);
    }
    global_info.target_lp_amount = target_lp_amount;
    Ok(())
}

/// Sets the supply minted for each new token; owner only.
pub fn set_total_supply(global_info: &mut GlobalInfo, admin: AccountId, total_supply: u64) -> (r:
    Result<(), CustomError>)
    ensures
        admin == old(global_info).owner ==> r is Ok && *final(global_info) == (GlobalInfo {
            total_supply,
            ..*old(global_info)
        }),
        admin != old(global_info).owner ==> r == Err::<(), CustomError>(CustomError::NotOwner)
            && *final(global_info) == *old(global_info),
{
    if global_info.owner != admin {
        return Err(CustomError::NotOwner);
    }
    global_info.total_supply = total_supply;
    Ok(())
}

/// Sets the creation seed ceiling; owner only.
pub fn set_initial_amount(global_info: &mut GlobalInfo, admin: AccountId, initial_amount: u64) -> (r:
    Result<(), CustomError>)
    ensures
        admin == old(global_info).owner ==> r is Ok && *final(global_info) == (GlobalInfo {
            initial_amount,
            ..*old(global_info)
        }),
        admin != old(global_info).owner ==> r == Err::<(), CustomError>(CustomError::NotOwner)
            && *final(global_info) == *old(global_info),
{
    if global_info.owner != admin {
        return Err(CustomError::NotOwner);
    }
    global_info.initial_amount = initial_amount;
    Ok(())
}

} // verus!
