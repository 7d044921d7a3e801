//! Tests of the calendar helpers, the RFC 3339 boundary, the ratio clamp,
//! and the default configuration text.

use pricecontrol::calendar::{make_today, make_tomorrow, next_day};
use pricecontrol::clock::{parse_local_datetime, record_from_strings};
use pricecontrol::config::{generate_config, Config};
use pricecontrol::device_model::clamp_ratio;
use pricecontrol::{AMOUNT_LIMIT, RATE_SCALE};

fn base_config() -> Config {
    Config {
        api: "https://prices.example/api/v1/prices/".to_string(),
        area: "SE3".to_string(),
        currency: "SEK".to_string(),
        interval: 300,
        webui_port: 8080,
        webui_toggle: false,
        grid_fee: 0,
        energy_tax: 0,
        variable_costs: 0,
        spot_fee: 0,
        cert_fee: 0,
        vat: 0,
        telldus_ip: String::new(),
        telldus_token: String::new(),
    }
}

#[test]
fn make_today_builds_url_and_file() {
    let config = base_config();
    let day = make_today(&config, 2024, 1, 5);
    assert_eq!(day.url, "https://prices.example/api/v1/prices/2024/01-05_SE3.json");
    assert_eq!(day.file, "2024-01-05_SE3.json");
    assert_eq!((day.year, day.month, day.day), (2024, 1, 5));
}

#[test]
fn make_tomorrow_rolls_over_month_end() {
    let config = base_config();
    let day = make_tomorrow(&config, 2024, 1, 31);
    assert_eq!((day.year, day.month, day.day), (2024, 2, 1));
    assert_eq!(day.file, "2024-02-01_SE3.json");
}

#[test]
fn make_tomorrow_rolls_over_year_end() {
    let config = base_config();
    let day = make_tomorrow(&config, 2024, 12, 31);
    assert_eq!((day.year, day.month, day.day), (2025, 1, 1));
    assert_eq!(day.url, "https://prices.example/api/v1/prices/2025/01-01_SE3.json");
}

#[test]
fn next_day_handles_leap_years() {
    assert_eq!(next_day(2024, 2, 28), (2024, 2, 29));
    assert_eq!(next_day(2024, 2, 29), (2024, 3, 1));
    assert_eq!(next_day(2023, 2, 28), (2023, 3, 1));
    assert_eq!(next_day(2000, 2, 28), (2000, 2, 29));
    assert_eq!(next_day(1900, 2, 28), (1900, 3, 1));
    assert_eq!(next_day(2024, 4, 30), (2024, 5, 1));
    assert_eq!(next_day(2024, 7, 14), (2024, 7, 15));
}

#[test]
fn parse_local_datetime_epoch() {
    assert_eq!(parse_local_datetime("1970-01-01T00:00:00Z"), Some(0));
}

#[test]
fn parse_local_datetime_with_offset() {
    assert_eq!(parse_local_datetime("2024-01-01T00:00:00+01:00"), Some(1_704_063_600));
    assert_eq!(parse_local_datetime("2024-01-01T00:00:00Z"), Some(1_704_067_200));
}

#[test]
fn parse_local_datetime_rejects_malformed_text() {
    assert_eq!(parse_local_datetime("not a timestamp"), None);
    assert_eq!(parse_local_datetime("2024-13-01T00:00:00Z"), None);
    assert_eq!(parse_local_datetime(""), None);
}

#[test]
fn record_from_strings_builds_the_window() {
    let rec = record_from_strings(1500, "2024-01-01T00:00:00Z", "2024-01-01T01:00:00Z")
        .expect("record expected");
    assert_eq!(rec.price, 1500);
    assert_eq!(rec.window_start, 1_704_067_200);
    assert_eq!(rec.window_end, 1_704_070_800);
}

#[test]
fn record_from_strings_rejects_bad_input() {
    assert!(record_from_strings(1500, "garbage", "2024-01-01T01:00:00Z").is_none());
    assert!(record_from_strings(1500, "2024-01-01T00:00:00Z", "garbage").is_none());
    assert!(record_from_strings(AMOUNT_LIMIT + 1, "2024-01-01T00:00:00Z", "2024-01-01T01:00:00Z")
        .is_none());
}

#[test]
fn clamp_ratio_clamps_to_unit_interval() {
    assert_eq!(clamp_ratio(-1), 0);
    assert_eq!(clamp_ratio(0), 0);
    assert_eq!(clamp_ratio(RATE_SCALE / 2), RATE_SCALE / 2);
    assert_eq!(clamp_ratio(RATE_SCALE), RATE_SCALE);
    assert_eq!(clamp_ratio(RATE_SCALE + 1), RATE_SCALE);
}

#[test]
fn generate_config_produces_parsable_defaults() {
    let text = generate_config();
    assert!(text.starts_with("# pricecontrol configuration."));
    assert!(text.contains("api = "));
    assert!(text.contains("area = \"SE3\""));
    assert!(text.contains("[[device]]"));
    let parsed: toml::Value = toml::from_str(&text).expect("default config must parse as TOML");
    assert!(parsed.get("api").is_some());
    assert!(parsed.get("device").is_some());
}
