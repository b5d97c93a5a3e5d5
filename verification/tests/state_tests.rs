use token_minter::state::initialize;
use token_minter::state::set_fee_percent;
use token_minter::state::set_initial_amount;
use token_minter::state::set_target_lp_amount;
use token_minter::state::set_target_market_cap;
use token_minter::state::set_total_supply;
use token_minter::state::AccountId;
use token_minter::state::CustomError;

#[test]
fn initialize_sets_defaults() {
    let owner = AccountId { key: 7 };
    let g = initialize(owner);
    assert_eq!(g.fee_percent, 300);
    assert_eq!(g.target_market_cap, 69000);
    assert_eq!(g.target_lp_amount, 12000);
    assert_eq!(g.total_supply, 1_000_000_000_000_000_000);
    assert_eq!(g.initial_amount, 20_000_000_000);
    assert_eq!(g.token_count, 0);
    assert!(!g.liquidity_added);
    assert_eq!(g.owner, owner);
}

#[test]
fn owner_can_set_every_field() {
    let owner = AccountId { key: 7 };
    let mut g = initialize(owner);
    assert!(set_fee_percent(&mut g, owner, 500).is_ok());
    assert_eq!(g.fee_percent, 500);
    assert!(set_target_market_cap(&mut g, owner, 70000).is_ok());
    assert_eq!(g.target_market_cap, 70000);
    assert!(set_target_lp_amount(&mut g, owner, 13000).is_ok());
    assert_eq!(g.target_lp_amount, 13000);
    assert!(set_total_supply(&mut g, owner, 2_000_000_000_000_000_000).is_ok());
    assert_eq!(g.total_supply, 2_000_000_000_000_000_000);
    assert!(set_initial_amount(&mut g, owner, 30_000_000_000).is_ok());
    assert_eq!(g.initial_amount, 30_000_000_000);
    assert_eq!(g.owner, owner);
    assert_eq!(g.token_count, 0);
}

#[test]
fn non_owner_cannot_set_any_field() {
    let owner = AccountId { key: 7 };
    let intruder = AccountId { key: 8 };
    let mut g = initialize(owner);
    let before = g;
    assert_eq!(set_fee_percent(&mut g, intruder, 500), Err(CustomError::NotOwner));
    assert_eq!(set_target_market_cap(&mut g, intruder, 70000), Err(CustomError::NotOwner));
    assert_eq!(set_target_lp_amount(&mut g, intruder, 13000), Err(CustomError::NotOwner));
    assert_eq!(set_total_supply(&mut g, intruder, 1), Err(CustomError::NotOwner));
    assert_eq!(set_initial_amount(&mut g, intruder, 1), Err(CustomError::NotOwner));
    assert_eq!(g, before);
}
