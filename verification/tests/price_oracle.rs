//! Tests of the price oracle: current, average, percentile, and all-in price.

use pricecontrol::price::{average_price, current_price, ratio_price, total_price, PriceRecord};
use pricecontrol::config::Config;
use pricecontrol::{AMOUNT_LIMIT, RATE_SCALE};

fn rec(price: i64, start: i64, end: i64) -> PriceRecord {
    PriceRecord { price, window_start: start, window_end: end }
}

fn config_with_fees(
    grid_fee: i64,
    energy_tax: i64,
    variable_costs: i64,
    spot_fee: i64,
    cert_fee: i64,
    vat: i64,
) -> Config {
    Config {
        api: String::new(),
        area: String::new(),
        currency: String::new(),
        interval: 300,
        webui_port: 8080,
        webui_toggle: false,
        grid_fee,
        energy_tax,
        variable_costs,
        spot_fee,
        cert_fee,
        vat,
        telldus_ip: String::new(),
        telldus_token: String::new(),
    }
}

#[test]
fn current_price_empty_curve_is_none() {
    let curve: Vec<PriceRecord> = Vec::new();
    assert_eq!(current_price(&curve, 1000), None);
}

#[test]
fn current_price_outside_all_windows_is_none() {
    let curve = vec![rec(1500, 0, 3600), rec(2500, 3600, 7200)];
    assert_eq!(current_price(&curve, 7200), None);
    assert_eq!(current_price(&curve, -1), None);
}

#[test]
fn current_price_unique_window_matches() {
    let curve = vec![rec(1500, 0, 3600), rec(2500, 3600, 7200)];
    assert_eq!(current_price(&curve, 0), Some(1500));
    assert_eq!(current_price(&curve, 3599), Some(1500));
    assert_eq!(current_price(&curve, 3600), Some(2500));
}

#[test]
fn current_price_overlapping_windows_first_match_wins() {
    let curve = vec![rec(1500, 0, 7200), rec(2500, 3600, 7200)];
    assert_eq!(current_price(&curve, 3600), Some(1500));
}

#[test]
fn average_price_empty_curve_is_none() {
    let curve: Vec<PriceRecord> = Vec::new();
    assert_eq!(average_price(&curve), None);
}

#[test]
fn average_price_mean() {
    let curve = vec![rec(1000, 0, 1), rec(2000, 1, 2), rec(3000, 2, 3)];
    assert_eq!(average_price(&curve), Some(2000));
}

#[test]
fn average_price_truncates_toward_zero() {
    let curve = vec![rec(-1, 0, 1), rec(-2, 1, 2)];
    assert_eq!(average_price(&curve), Some(-1));
    let curve2 = vec![rec(1, 0, 1), rec(2, 1, 2)];
    assert_eq!(average_price(&curve2), Some(1));
}

#[test]
fn ratio_price_empty_curve_is_none() {
    let curve: Vec<PriceRecord> = Vec::new();
    assert_eq!(ratio_price(&curve, 0), None);
}

#[test]
fn ratio_price_extremes() {
    let curve = vec![rec(3000, 0, 1), rec(1000, 1, 2), rec(2000, 2, 3)];
    assert_eq!(ratio_price(&curve, 0), Some(1000));
    assert_eq!(ratio_price(&curve, RATE_SCALE), Some(3000));
}

#[test]
fn ratio_price_midpoint() {
    let curve = vec![rec(3000, 0, 1), rec(1000, 1, 2), rec(2000, 2, 3)];
    assert_eq!(ratio_price(&curve, RATE_SCALE / 2), Some(2000));
}

#[test]
fn ratio_price_clamps_out_of_range_ratios() {
    let curve = vec![rec(3000, 0, 1), rec(1000, 1, 2), rec(2000, 2, 3)];
    assert_eq!(ratio_price(&curve, -5 * RATE_SCALE), Some(1000));
    assert_eq!(ratio_price(&curve, 2 * RATE_SCALE), Some(3000));
}

#[test]
fn ratio_price_with_ties_keeps_rank() {
    let curve = vec![rec(2000, 0, 1), rec(2000, 1, 2), rec(1000, 2, 3)];
    assert_eq!(ratio_price(&curve, RATE_SCALE / 2), Some(2000));
}

#[test]
fn ratio_price_result_is_in_the_curve_for_many_ratios() {
    let curve = vec![rec(700, 0, 1), rec(-200, 1, 2), rec(1500, 2, 3), rec(300, 3, 4)];
    let prices: Vec<i64> = curve.iter().map(|r| r.price).collect();
    let mut ratio: i64 = 0;
    while ratio <= RATE_SCALE {
        let p = ratio_price(&curve, ratio).unwrap();
        assert!(prices.contains(&p));
        ratio += RATE_SCALE / 8;
    }
    let low = ratio_price(&curve, 0).unwrap();
    let high = ratio_price(&curve, RATE_SCALE).unwrap();
    assert!(low <= high);
}

#[test]
fn ratio_price_is_deterministic() {
    let curve = vec![rec(700, 0, 1), rec(-200, 1, 2), rec(1500, 2, 3)];
    let first = ratio_price(&curve, 333_333);
    let second = ratio_price(&curve, 333_333);
    assert_eq!(first, second);
}

#[test]
fn ratio_price_single_record() {
    let curve = vec![rec(42, 0, 1)];
    assert_eq!(ratio_price(&curve, 0), Some(42));
    assert_eq!(ratio_price(&curve, RATE_SCALE), Some(42));
}

#[test]
fn total_price_zero_everything_is_zero() {
    let config = config_with_fees(0, 0, 0, 0, 0, 0);
    assert_eq!(total_price(0, &config), 0);
}

#[test]
fn total_price_exact_value() {
    // 0.5 spot + 0.25 + 0.1 + 0.05 + 0.03 + 0.07 in fees = 1.0; with 25% VAT
    // the all-in price is 1.25, scaled by RATE_SCALE.
    let config = config_with_fees(250, 100, 50, 30, 70, 250_000);
    let total = total_price(500, &config);
    assert_eq!(total, 1000 * (RATE_SCALE + 250_000));
    assert_eq!(total, 1_250_000_000);
}

#[test]
fn total_price_is_linear_in_spot_and_fees() {
    let vat = 190_000;
    let c1 = config_with_fees(250, 100, 50, 30, 70, vat);
    let c2 = config_with_fees(110, 40, 20, 10, 5, vat);
    let csum = config_with_fees(360, 140, 70, 40, 75, vat);
    let t1 = total_price(500, &c1);
    let t2 = total_price(200, &c2);
    let tsum = total_price(700, &csum);
    assert_eq!(tsum, t1 + t2);
    let zero = config_with_fees(0, 0, 0, 0, 0, 0);
    assert_eq!(total_price(0, &zero), 0);
}

#[test]
fn total_price_with_extreme_amounts_stays_exact() {
    let config = config_with_fees(
        AMOUNT_LIMIT,
        AMOUNT_LIMIT,
        AMOUNT_LIMIT,
        AMOUNT_LIMIT,
        AMOUNT_LIMIT,
        RATE_SCALE,
    );
    let total = total_price(AMOUNT_LIMIT, &config);
    assert_eq!(total, 6 * AMOUNT_LIMIT * (2 * RATE_SCALE));
}
