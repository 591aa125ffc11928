use gas_fee_estimator::chain::Chain;
use gas_fee_estimator::decimal::{digit_char, push_decimal, push_decimal_padded};
use gas_fee_estimator::fee::WEI_PER_GWEI;
use gas_fee_estimator::price::AssetPrices;
use gas_fee_estimator::report::{
    cents, day_fee_line, day_usd_line, push_coins, push_dollars, rejection_notice, report_lines,
    total_fee_line, total_usd_line, USD_UNITS_PER_CENT,
};
use gas_fee_estimator::simulation::{
    simulate, simulate_with_draws, DayDraw, GasPriceRange, SimulationConfig,
};

fn decimal(n: u128) -> String {
    let mut text = String::new();
    push_decimal(&mut text, n);
    text
}

fn padded(n: u128, width: u32) -> String {
    let mut text = String::new();
    push_decimal_padded(&mut text, n, width);
    text
}

fn coins(wei: u128) -> String {
    let mut text = String::new();
    push_coins(&mut text, wei);
    text
}

fn dollars(usd: u128) -> String {
    let mut text = String::new();
    push_dollars(&mut text, usd);
    text
}

#[test]
fn digits_are_the_ten_characters() {
    let all: Vec<char> = (0u8..10).map(digit_char).collect();
    assert_eq!(all, vec!['0', '1', '2', '3', '4', '5', '6', '7', '8', '9']);
}

#[test]
fn whole_numbers_in_decimal() {
    assert_eq!(decimal(0), "0");
    assert_eq!(decimal(7), "7");
    assert_eq!(decimal(10), "10");
    assert_eq!(decimal(12_345), "12345");
    assert_eq!(decimal(1_000_000), "1000000");
    assert_eq!(decimal(u128::MAX), "340282366920938463463374607431768211455");
    for n in [0u128, 9, 99, 100, 101, 4_294_967_296, u64::MAX as u128] {
        assert_eq!(decimal(n), format!("{}", n));
    }
}

#[test]
fn decimal_is_appended_to_what_is_there() {
    let mut text = String::from("Day ");
    push_decimal(&mut text, 42);
    assert_eq!(text, "Day 42");
    push_decimal_padded(&mut text, 7, 3);
    assert_eq!(text, "Day 42007");
}

#[test]
fn padded_numbers_keep_their_width() {
    assert_eq!(padded(0, 0), "");
    assert_eq!(padded(5, 0), "");
    assert_eq!(padded(0, 2), "00");
    assert_eq!(padded(5, 2), "05");
    assert_eq!(padded(50, 2), "50");
    assert_eq!(padded(99, 2), "99");
    assert_eq!(padded(123, 2), "23");
    assert_eq!(padded(105_000_000_000_000, 18), "000105000000000000");
}

#[test]
fn coins_have_eighteen_places() {
    assert_eq!(coins(0), "0.000000000000000000");
    assert_eq!(coins(1), "0.000000000000000001");
    assert_eq!(coins(105_000_000_000_000), "0.000105000000000000");
    assert_eq!(coins(210_000_000_000_000), "0.000210000000000000");
    assert_eq!(coins(999_999_999_999_999_999), "0.999999999999999999");
    assert_eq!(coins(1_000_000_000_000_000_000), "1.000000000000000000");
    assert_eq!(coins(12_345_678_901_234_567_890_123), "12345.678901234567890123");
    assert_eq!(coins(u128::MAX), "340282366920938463463.374607431768211455");
}

#[test]
fn coins_agree_with_float_formatting() {
    assert_eq!(coins(105_000_000_000_000), format!("{:.18}", 0.000105f64));
    assert_eq!(coins(500_000_000_000_000_000), format!("{:.18}", 0.5f64));
    assert_eq!(coins(0), format!("{:.18}", 0.0f64));
}

#[test]
fn cents_round_to_the_nearest_and_ties_to_even() {
    let cent = USD_UNITS_PER_CENT;
    assert_eq!(cent, 10_000_000_000_000_000_000_000);
    assert_eq!(cents(0), 0);
    assert_eq!(cents(cent), 1);
    assert_eq!(cents(cent / 2 - 1), 0);
    assert_eq!(cents(cent / 2), 0);
    assert_eq!(cents(cent / 2 + 1), 1);
    assert_eq!(cents(cent + cent / 2 - 1), 1);
    assert_eq!(cents(cent + cent / 2), 2);
    assert_eq!(cents(2 * cent + cent / 2), 2);
    assert_eq!(cents(2 * cent + cent / 2 + 1), 3);
    assert_eq!(cents(315_000_000_000_000_000_000_000), 32);
    assert_eq!(cents(630_000_000_000_000_000_000_000), 63);
    assert_eq!(cents(u128::MAX), 34_028_236_692_093_846);
}

#[test]
fn dollars_have_two_places() {
    assert_eq!(dollars(0), "0.00");
    assert_eq!(dollars(630_000_000_000_000_000_000_000), "0.63");
    assert_eq!(dollars(315_000_000_000_000_000_000_000), "0.32");
    assert_eq!(dollars(1_000_000_000_000_000_000_000_000), "1.00");
    assert_eq!(dollars(1_234_567_000_000_000_000_000_000_000), "1234.57");
    assert_eq!(dollars(994_999_999_999_999_999_999_999), "0.99");
    assert_eq!(dollars(995_000_000_000_000_000_000_001), "1.00");
    assert_eq!(dollars(125_000_000_000_000_000_000_000), format!("{:.2}", 0.125f64));
    assert_eq!(dollars(375_000_000_000_000_000_000_000), format!("{:.2}", 0.375f64));
}

#[test]
fn day_lines_have_the_fixed_wording() {
    assert_eq!(
        day_fee_line(Chain::Ethereum, 0, 105_000_000_000_000),
        "Day 0: Total Transaction Fee: 0.000105000000000000 ETH"
    );
    assert_eq!(
        day_fee_line(Chain::Mantle, 17, 830_000_000_000_000),
        "Day 17: Total Transaction Fee: 0.000830000000000000 MNT"
    );
    assert_eq!(day_usd_line(630_000_000_000_000_000_000_000), "(~$0.63 USD)");
    assert_eq!(day_usd_line(0), "(~$0.00 USD)");
    let fee = 0.000105f64;
    assert_eq!(
        day_fee_line(Chain::Ethereum, 3, 105_000_000_000_000),
        format!("Day {}: Total Transaction Fee: {:.18} ETH", 3, fee)
    );
}

#[test]
fn total_lines_have_the_fixed_wording() {
    assert_eq!(
        total_fee_line(Chain::Ethereum, 2, 210_000_000_000_000),
        "Total ETH fees over 2 days: 0.000210000000000000 ETH"
    );
    assert_eq!(
        total_fee_line(Chain::Mantle, 30, 24_900_000_000_000_000),
        "Total MNT fees over 30 days: 0.024900000000000000 MNT"
    );
    assert_eq!(total_usd_line(630_000_000_000_000_000_000_000), "Total USD equivalent: $0.63");
    assert_eq!(total_usd_line(0), "Total USD equivalent: $0.00");
}

#[test]
fn rejection_is_one_notice() {
    assert_eq!(rejection_notice(), "Invalid selection. Please run the program again.");
}

#[test]
fn report_of_no_days_has_the_totals_only() {
    let prices = AssetPrices { eth_usd: 3_000_000_000, mnt_usd: 600_000 };
    let range = GasPriceRange::new(5 * WEI_PER_GWEI, 50 * WEI_PER_GWEI);
    let report = simulate(&SimulationConfig::ethereum(0, range, 21_000), &prices).unwrap();
    assert_eq!(
        report_lines(&report),
        vec![
            "",
            "Total ETH fees over 0 days: 0.000000000000000000 ETH",
            "Total USD equivalent: $0.00",
        ]
    );
    let config = SimulationConfig::mantle(0, range, 21_000, range, 100_000);
    let report = simulate(&config, &prices).unwrap();
    assert_eq!(
        report_lines(&report),
        vec![
            "",
            "Total MNT fees over 0 days: 0.000000000000000000 MNT",
            "Total USD equivalent: $0.00",
        ]
    );
}

#[test]
fn report_of_two_days_on_the_base_chain() {
    let prices = AssetPrices { eth_usd: 3_000_000_000, mnt_usd: 600_000 };
    let x = 5 * WEI_PER_GWEI;
    let config = SimulationConfig::ethereum(2, GasPriceRange::new(x, x), 21_000);
    let report = simulate(&config, &prices).unwrap();
    assert_eq!(
        report_lines(&report),
        vec![
            "Day 0: Total Transaction Fee: 0.000105000000000000 ETH",
            "(~$0.32 USD)",
            "Day 1: Total Transaction Fee: 0.000105000000000000 ETH",
            "(~$0.32 USD)",
            "",
            "Total ETH fees over 2 days: 0.000210000000000000 ETH",
            "Total USD equivalent: $0.63",
        ]
    );
}

#[test]
fn report_lists_the_days_in_order() {
    let prices = AssetPrices { eth_usd: 2_000_000_000, mnt_usd: 500_000 };
    let range = GasPriceRange::new(0, 100 * WEI_PER_GWEI);
    let config = SimulationConfig::mantle(3, range, 21_000, range, 100_000);
    let draws = vec![
        DayDraw { gas_price: 10 * WEI_PER_GWEI, l2_gas_price: WEI_PER_GWEI },
        DayDraw { gas_price: 20 * WEI_PER_GWEI, l2_gas_price: 2 * WEI_PER_GWEI },
        DayDraw { gas_price: 30 * WEI_PER_GWEI, l2_gas_price: 3 * WEI_PER_GWEI },
    ];
    let report = simulate_with_draws(&config, &prices, &draws).unwrap();
    assert_eq!(
        report_lines(&report),
        vec![
            "Day 0: Total Transaction Fee: 0.000310000000000000 MNT",
            "(~$0.00 USD)",
            "Day 1: Total Transaction Fee: 0.000620000000000000 MNT",
            "(~$0.00 USD)",
            "Day 2: Total Transaction Fee: 0.000930000000000000 MNT",
            "(~$0.00 USD)",
            "",
            "Total MNT fees over 3 days: 0.001860000000000000 MNT",
            "Total USD equivalent: $0.00",
        ]
    );
}
