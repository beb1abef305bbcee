use solana4626::pricing::{asset_amount, usdc_amount, PRICE_SCALE};

#[test]
fn price_scale_has_six_decimals() {
    assert_eq!(PRICE_SCALE, 1_000_000);
}

#[test]
fn asset_amount_at_price_two() {
    assert_eq!(asset_amount(5_000_000, 2_000_000), Some(2_500_000));
}

#[test]
fn asset_amount_at_par() {
    assert_eq!(asset_amount(123_456, 1_000_000), Some(123_456));
}

#[test]
fn asset_amount_rounds_down() {
    assert_eq!(asset_amount(10, 3_000_000), Some(3));
    assert_eq!(asset_amount(1, 3_000_000), Some(0));
    assert_eq!(asset_amount(2, 1_999_999), Some(1));
    assert_eq!(asset_amount(7, 1_500_000), Some(4));
}

#[test]
fn asset_amount_of_nothing_is_nothing() {
    assert_eq!(asset_amount(0, 2_000_000), Some(0));
}

#[test]
fn asset_amount_at_zero_price_is_undefined() {
    assert_eq!(asset_amount(5_000_000, 0), None);
    assert_eq!(asset_amount(0, 0), None);
}

#[test]
fn asset_amount_at_the_edge_of_the_range() {
    let largest: u64 = u64::MAX / 1_000_000;
    assert_eq!(largest, 18_446_744_073_709);
    assert_eq!(asset_amount(largest, 1), Some(18_446_744_073_709_000_000));
    assert_eq!(asset_amount(largest, 1_000_000), Some(largest));
    assert_eq!(asset_amount(largest + 1, 1_000_000), None);
    assert_eq!(asset_amount(u64::MAX, 1_000_000), None);
}

#[test]
fn usdc_amount_at_price_two() {
    assert_eq!(usdc_amount(2_500_000, 2_000_000), Some(5_000_000));
}

#[test]
fn usdc_amount_rounds_down() {
    assert_eq!(usdc_amount(1, 1_500_000), Some(1));
    assert_eq!(usdc_amount(1, 999_999), Some(0));
    assert_eq!(usdc_amount(3, 3_333_333), Some(9));
    assert_eq!(usdc_amount(3, 3_000_000), Some(9));
}

#[test]
fn usdc_amount_at_zero_price_is_zero() {
    assert_eq!(usdc_amount(5_000_000, 0), Some(0));
}

#[test]
fn usdc_amount_at_the_edge_of_the_range() {
    assert_eq!(usdc_amount(u64::MAX, 1), Some(18_446_744_073_709));
    assert_eq!(usdc_amount(u64::MAX, 2), None);
    assert_eq!(usdc_amount(1 << 32, 1 << 32), None);
    assert_eq!(usdc_amount((1 << 32) - 1, 1 << 32), Some(18_446_744_069_414));
}

#[test]
fn round_trip_never_creates_value() {
    let prices: [u64; 7] = [1, 3, 999_999, 1_000_000, 1_000_001, 2_000_000, 7_654_321];
    let deposits: [u64; 7] = [0, 1, 2, 999, 5_000_000, 123_456_789, 18_446_744_073_709];
    for price in prices {
        for deposit in deposits {
            let minted: u64 = asset_amount(deposit, price).unwrap();
            let back: u64 = usdc_amount(minted, price).unwrap();
            assert!(back <= deposit, "price {price} deposit {deposit} back {back}");
        }
    }
}

#[test]
fn round_trip_loses_what_rounding_withheld() {
    let minted: u64 = asset_amount(10, 3_000_000).unwrap();
    assert_eq!(minted, 3);
    assert_eq!(usdc_amount(minted, 3_000_000), Some(9));
}

#[test]
fn round_trip_loses_less_than_a_token_and_a_unit() {
    let prices: [u64; 7] = [1, 3, 999_999, 1_000_000, 1_000_001, 2_000_000, 7_654_321];
    let deposits: [u64; 7] = [0, 1, 2, 999, 5_000_000, 123_456_789, 18_446_744_073_709];
    for price in prices {
        for deposit in deposits {
            let minted: u64 = asset_amount(deposit, price).unwrap();
            let back: u64 = usdc_amount(minted, price).unwrap();
            let lost: u128 = (deposit - back) as u128;
            assert!(lost * 1_000_000 < price as u128 + 1_000_000, "price {price} deposit {deposit}");
        }
    }
}
