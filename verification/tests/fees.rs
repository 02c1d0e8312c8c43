use mugs_marketplace::constants::{
    BASIS_POINTS, DEFAULT_FEE_RATE, MAX_FEE_RATE, MAX_PRICE, MIN_PRICE,
};
use mugs_marketplace::fee_for;

#[test]
fn constants_have_their_published_values() {
    assert_eq!(DEFAULT_FEE_RATE, 250);
    assert_eq!(MAX_FEE_RATE, 1000);
    assert_eq!(BASIS_POINTS, 10000);
    assert_eq!(MIN_PRICE, 1_000_000);
    assert_eq!(MAX_PRICE, 1_000_000_000_000);
}

#[test]
fn fee_at_default_rate() {
    assert_eq!(fee_for(2_000_000, 250), 50_000);
    assert_eq!(fee_for(500_000, 250), 12_500);
}

#[test]
fn fee_rounds_down() {
    assert_eq!(fee_for(39, 250), 0);
    assert_eq!(fee_for(40, 250), 1);
    assert_eq!(fee_for(79, 250), 1);
    assert_eq!(fee_for(1_000_001, 250), 25_000);
    assert_eq!(fee_for(9_999, 1), 0);
    assert_eq!(fee_for(10_000, 1), 1);
}

#[test]
fn fee_at_the_edges_of_the_rate() {
    assert_eq!(fee_for(2_000_000, 0), 0);
    assert_eq!(fee_for(2_000_000, 1000), 200_000);
    assert_eq!(fee_for(2_000_000, 10_000), 2_000_000);
    assert_eq!(fee_for(0, 250), 0);
}

#[test]
fn fee_of_the_largest_price_does_not_overflow() {
    assert_eq!(fee_for(u64::MAX, 1000), 1_844_674_407_370_955_161);
    assert_eq!(fee_for(u64::MAX, 10_000), u64::MAX);
    assert_eq!(fee_for(MAX_PRICE, MAX_FEE_RATE), 100_000_000_000);
}
