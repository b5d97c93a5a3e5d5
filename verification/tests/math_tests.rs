use token_minter::math::calculate_fee;
use token_minter::math::get_price;

#[test]
fn fee_at_default_rate() {
    assert_eq!(calculate_fee(1_000_000_000, 300), 30_000_000);
}

#[test]
fn fee_of_zero_amount_is_zero() {
    assert_eq!(calculate_fee(0, 300), 0);
}

#[test]
fn fee_at_full_scale_is_whole_amount() {
    assert_eq!(calculate_fee(12345, 10000), 12345);
}

#[test]
fn fee_truncates_toward_zero() {
    assert_eq!(calculate_fee(99, 100), 0);
    assert_eq!(calculate_fee(101, 100), 1);
}

#[test]
fn fee_never_exceeds_amount_at_valid_rates() {
    for amount in [0u64, 1, 7, 9999, 10000, 1_000_000_000, u64::MAX] {
        for rate in [0u32, 1, 100, 300, 9999, 10000] {
            assert!(calculate_fee(amount, rate) <= amount);
        }
    }
}

#[test]
fn price_of_default_opening_reserves() {
    assert_eq!(get_price(20_000_000_000, 1_000_000_000_000_000_000), 20);
}

#[test]
fn price_of_equal_reserves_is_one_token_unit() {
    assert_eq!(get_price(1, 1), 1_000_000_000);
}

#[test]
fn price_truncates_toward_zero() {
    assert_eq!(get_price(1, 3), 333_333_333);
}
