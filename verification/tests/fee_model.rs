use gas_fee_estimator::chain::{select_chain, Chain, InvalidSelection};
use gas_fee_estimator::fee::{
    native_fee, usd_value, FeeBreakdown, FeeError, FeeStrategy, L2FeeEstimation,
    RollupFeeEstimation, WEI_PER_COIN, WEI_PER_GWEI,
};
use gas_fee_estimator::price::{
    AssetPrices, CoinGeckoResponse, CurrencyInfo, PriceFeedError, MICROS_PER_DOLLAR,
};

fn coins(wei: u128) -> f64 {
    wei as f64 / 1e18
}

fn close(a: f64, b: f64) -> bool {
    (a - b).abs() <= 1e-12 * b.abs()
}

#[test]
fn units_are_powers_of_ten() {
    assert_eq!(WEI_PER_GWEI, 1_000_000_000);
    assert_eq!(WEI_PER_COIN, 1_000_000_000_000_000_000);
    assert_eq!(MICROS_PER_DOLLAR, 1_000_000);
    assert_eq!(WEI_PER_GWEI as u128 * WEI_PER_GWEI as u128, WEI_PER_COIN);
}

#[test]
fn native_fee_is_price_times_gas() {
    assert_eq!(native_fee(5 * WEI_PER_GWEI, 21_000), 105_000_000_000_000);
    assert_eq!(native_fee(0, 21_000), 0);
    assert_eq!(native_fee(7, 0), 0);
    assert_eq!(native_fee(1, 1), 1);
    assert_eq!(native_fee(23_500_000_000, 65_000), 1_527_500_000_000_000);
}

#[test]
fn native_fee_never_overflows() {
    let top = u64::MAX as u128;
    assert_eq!(native_fee(u64::MAX, u64::MAX), top * top);
    assert_eq!(native_fee(u64::MAX, 1), top);
}

#[test]
fn native_fee_agrees_with_the_quoted_formula() {
    let cases: [(u64, u64); 5] =
        [(5, 21_000), (0, 21_000), (120, 1_000_000), (1, 1), (9_999, 30_000_000)];
    for (gwei, gas_used) in cases {
        let fee = native_fee(gwei * WEI_PER_GWEI, gas_used);
        let expected = gwei as f64 * gas_used as f64 / 1e9;
        assert!(close(coins(fee), expected), "{} {}", gwei, gas_used);
    }
}

#[test]
fn usd_value_is_fee_times_price() {
    assert_eq!(
        usd_value(105_000_000_000_000, 3_000_000_000),
        Ok(315_000_000_000_000_000_000_000)
    );
    assert_eq!(usd_value(0, 3_000_000_000), Ok(0));
    assert_eq!(usd_value(17, 0), Ok(0));
    assert_eq!(usd_value(u128::MAX, 1), Ok(u128::MAX));
}

#[test]
fn usd_value_overflow_is_an_error() {
    assert_eq!(usd_value(u128::MAX, 2), Err(FeeError::Overflow));
    assert_eq!(usd_value(u128::MAX / 2 + 1, 2), Err(FeeError::Overflow));
    assert_eq!(usd_value(u128::MAX / 2, 2), Ok(u128::MAX - 1));
}

#[test]
fn l2_estimation_keeps_its_inputs() {
    let e = L2FeeEstimation::new(1, 2, 3, 4);
    assert_eq!(e.l2_gas_price, 1);
    assert_eq!(e.l2_gas_used, 2);
    assert_eq!(e.l1_gas_price, 3);
    assert_eq!(e.l1_gas_used, 4);
}

#[test]
fn blended_fee_adds_both_products() {
    let e = L2FeeEstimation::new(2 * WEI_PER_GWEI, 100_000, 30 * WEI_PER_GWEI, 21_000);
    assert_eq!(e.calculate_total_fee_in_mnt(), Ok(830_000_000_000_000));
    assert_eq!(L2FeeEstimation::new(0, 0, 0, 0).calculate_total_fee_in_mnt(), Ok(0));
    assert_eq!(L2FeeEstimation::new(3, 5, 0, 9).calculate_total_fee_in_mnt(), Ok(15));
    assert_eq!(L2FeeEstimation::new(0, 5, 7, 9).calculate_total_fee_in_mnt(), Ok(63));
}

#[test]
fn blended_fee_agrees_with_the_quoted_formula() {
    let cases: [(u64, u64, u64, u64); 3] =
        [(2, 100_000, 30, 21_000), (1, 1, 1, 1), (50, 3_000_000, 200, 500_000)];
    for (l2p, l2u, l1p, l1u) in cases {
        let e = L2FeeEstimation::new(l2p * WEI_PER_GWEI, l2u, l1p * WEI_PER_GWEI, l1u);
        let fee = e.calculate_total_fee_in_mnt().unwrap();
        let expected = (l2p as f64 * l2u as f64 + l1p as f64 * l1u as f64) / 1e9;
        assert!(close(coins(fee), expected));
    }
}

#[test]
fn blended_fee_overflow_is_an_error() {
    let e = L2FeeEstimation::new(u64::MAX, u64::MAX, u64::MAX, u64::MAX);
    assert_eq!(e.calculate_total_fee_in_mnt(), Err(FeeError::Overflow));
    let top = u64::MAX as u128;
    let e = L2FeeEstimation::new(u64::MAX, u64::MAX, 1, 1);
    assert_eq!(e.calculate_total_fee_in_mnt(), Ok(top * top + 1));
}

#[test]
fn rollup_estimation_keeps_its_inputs() {
    let e = RollupFeeEstimation::new(1, 2, 3, 4);
    assert_eq!(e.l2_gas_price, 1);
    assert_eq!(e.l2_gas_used, 2);
    assert_eq!(e.l1_gas_price, 3);
    assert_eq!(e.overhead, 4);
}

#[test]
fn detailed_fee_is_execution_plus_rollup() {
    let prices = AssetPrices { eth_usd: 3_000_000_000, mnt_usd: 600_000 };
    let e = RollupFeeEstimation::new(WEI_PER_GWEI / 50, 100_000, 30 * WEI_PER_GWEI, 2_000);
    let b = e.calculate(&prices).unwrap();
    assert_eq!(b.execution_fee, 2_000_000_000_000);
    assert_eq!(b.rollup_fee, 300_000_000_000_000_000);
    assert_eq!(b.total_fee, 300_002_000_000_000_000);
    assert_eq!(b.total_fee, b.execution_fee + b.rollup_fee);
    let expected_rollup = 30.0 * 2_000.0 * (3000.0 / 0.6) / 1e9;
    assert!(close(coins(b.rollup_fee), expected_rollup));
    let expected_execution = 0.02 * 100_000.0 / 1e9;
    assert!(close(coins(b.execution_fee), expected_execution));
}

#[test]
fn rollup_fee_is_rounded_down() {
    let prices = AssetPrices { eth_usd: 10, mnt_usd: 4 };
    let b = RollupFeeEstimation::new(2, 3, 5, 7).calculate(&prices).unwrap();
    assert_eq!(b, FeeBreakdown { execution_fee: 6, rollup_fee: 87, total_fee: 93 });
    let prices = AssetPrices { eth_usd: 1, mnt_usd: 3 };
    let b = RollupFeeEstimation::new(0, 0, 1, 2).calculate(&prices).unwrap();
    assert_eq!(b, FeeBreakdown { execution_fee: 0, rollup_fee: 0, total_fee: 0 });
}

#[test]
fn detailed_fee_at_a_price_of_zero_is_an_error() {
    let prices = AssetPrices { eth_usd: 3_000_000_000, mnt_usd: 0 };
    let e = RollupFeeEstimation::new(1, 1, 1, 1);
    assert_eq!(e.calculate(&prices), Err(FeeError::ZeroPrice));
    let e = RollupFeeEstimation::new(u64::MAX, u64::MAX, u64::MAX, u64::MAX);
    assert_eq!(e.calculate(&prices), Err(FeeError::ZeroPrice));
}

#[test]
fn detailed_fee_overflow_is_an_error() {
    let prices = AssetPrices { eth_usd: 2, mnt_usd: 1 };
    let e = RollupFeeEstimation::new(0, 0, u64::MAX, u64::MAX);
    assert_eq!(e.calculate(&prices), Err(FeeError::Overflow));
    let prices = AssetPrices { eth_usd: 1, mnt_usd: 1 };
    let e = RollupFeeEstimation::new(u64::MAX, u64::MAX, u64::MAX, u64::MAX);
    assert_eq!(e.calculate(&prices), Err(FeeError::Overflow));
    let e = RollupFeeEstimation::new(0, 0, u64::MAX, u64::MAX);
    let top = u64::MAX as u128;
    assert_eq!(e.calculate(&prices).unwrap().total_fee, top * top);
}

#[test]
fn strategies_are_kept_apart() {
    let prices = AssetPrices { eth_usd: 3_000_000_000, mnt_usd: 600_000 };
    let blended = FeeStrategy::SimpleBlended(L2FeeEstimation::new(10, 100, 30, 2_000));
    let detailed = FeeStrategy::ExecutionPlusRollup(RollupFeeEstimation::new(10, 100, 30, 2_000));
    assert_eq!(blended.total_fee_in_mnt(&prices), Ok(61_000));
    assert_eq!(detailed.total_fee_in_mnt(&prices), Ok(1_000 + 300_000_000));
    let free = AssetPrices { eth_usd: 3_000_000_000, mnt_usd: 0 };
    assert_eq!(blended.total_fee_in_mnt(&free), Ok(61_000));
    assert_eq!(detailed.total_fee_in_mnt(&free), Err(FeeError::ZeroPrice));
    let huge = FeeStrategy::SimpleBlended(L2FeeEstimation::new(
        u64::MAX,
        u64::MAX,
        u64::MAX,
        u64::MAX,
    ));
    assert_eq!(huge.total_fee_in_mnt(&prices), Err(FeeError::Overflow));
}

#[test]
fn selection_one_and_two_name_the_chains() {
    assert_eq!(select_chain(1), Ok(Chain::Ethereum));
    assert_eq!(select_chain(2), Ok(Chain::Mantle));
    assert_eq!(Chain::Ethereum.unit(), "ETH");
    assert_eq!(Chain::Mantle.unit(), "MNT");
}

#[test]
fn any_other_selection_is_rejected() {
    for selection in [3i64, 0, -1, -2, 12, 255, 256, i64::MAX, i64::MIN] {
        assert_eq!(select_chain(selection), Err(InvalidSelection { selection }));
    }
}

#[test]
fn feed_with_both_assets_gives_both_prices() {
    let answer = CoinGeckoResponse {
        ethereum: Some(CurrencyInfo { usd: 3_000_000_000 }),
        mantle: Some(CurrencyInfo { usd: 623_400 }),
    };
    let prices = answer.prices().unwrap();
    assert_eq!(prices, AssetPrices { eth_usd: 3_000_000_000, mnt_usd: 623_400 });
    assert_eq!(prices.price_of(Chain::Ethereum), 3_000_000_000);
    assert_eq!(prices.price_of(Chain::Mantle), 623_400);
}

#[test]
fn feed_that_lacks_an_asset_is_an_error() {
    let info = Some(CurrencyInfo { usd: 1 });
    let answer = CoinGeckoResponse { ethereum: None, mantle: info };
    assert_eq!(answer.prices(), Err(PriceFeedError::EthereumPriceNotFound));
    let answer = CoinGeckoResponse { ethereum: info, mantle: None };
    assert_eq!(answer.prices(), Err(PriceFeedError::MantlePriceNotFound));
    let answer = CoinGeckoResponse { ethereum: None, mantle: None };
    assert_eq!(answer.prices(), Err(PriceFeedError::EthereumPriceNotFound));
}
