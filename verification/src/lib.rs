//! A single-asset bonding-curve market maker: reserve accounting and
//! pricing for a fixed-supply token traded against a pooled quote-asset
//! reserve. The library computes fees, instantaneous prices and trade
//! amounts, applies buys, sells, withdrawals and liquidity migration as
//! atomic state transitions over the pool records, and gates privileged
//! configuration changes behind an owner check. Moving actual balances
//! between accounts is the host ledger's job; every operation here
//! returns the amounts the ledger must move.

pub mod engine;
pub mod laws;
pub mod math;
pub mod state;
