//! Tests of the shared snapshot: whole-tick publication, abandoned ticks,
//! and the pairing of what is published together.

use pricecontrol::config::Config;
use pricecontrol::device_model::{Device, Devices, Mode, State};
use pricecontrol::price::PriceRecord;
use pricecontrol::snapshot::{run_tick, AppState};

fn rec(price: i64, start: i64, end: i64) -> PriceRecord {
    PriceRecord { price, window_start: start, window_end: end }
}

fn base_config() -> Config {
    Config {
        api: String::new(),
        area: String::new(),
        currency: "SEK".to_string(),
        interval: 300,
        webui_port: 8080,
        webui_toggle: false,
        grid_fee: 0,
        energy_tax: 0,
        variable_costs: 0,
        spot_fee: 0,
        cert_fee: 0,
        vat: 0,
        telldus_ip: String::new(),
        telldus_token: String::new(),
    }
}

fn base_device(name: &str, price: i64, state: State) -> Device {
    Device {
        name: name.to_string(),
        mode: Mode::Price,
        ratio: 0,
        price,
        today_trigger_price: 0,
        tomorrow_trigger_price: 0,
        state,
        force_update: false,
        telldus: false,
        telldus_id: String::new(),
        script_on: String::new(),
        script_off: String::new(),
    }
}

fn assert_devices_equal(a: &Devices, b: &Devices) {
    assert_eq!(a.device.len(), b.device.len());
    for (x, y) in a.device.iter().zip(b.device.iter()) {
        assert_eq!(x.name, y.name);
        assert_eq!(x.mode, y.mode);
        assert_eq!(x.ratio, y.ratio);
        assert_eq!(x.price, y.price);
        assert_eq!(x.today_trigger_price, y.today_trigger_price);
        assert_eq!(x.tomorrow_trigger_price, y.tomorrow_trigger_price);
        assert_eq!(x.state, y.state);
        assert_eq!(x.force_update, y.force_update);
        assert_eq!(x.telldus, y.telldus);
        assert_eq!(x.telldus_id, y.telldus_id);
        assert_eq!(x.script_on, y.script_on);
        assert_eq!(x.script_off, y.script_off);
    }
}

#[test]
fn initial_snapshot_is_coherent_and_empty() {
    let devices = Devices { device: vec![base_device("heater", 1000, State::Unknown)] };
    let state = AppState::new(base_config(), devices);
    assert_eq!(state.devices_generation, 0);
    assert_eq!(state.prices_generation, 0);
    assert!(state.todays_spot_prices.is_empty());
    assert!(state.tomorrows_spot_prices.is_empty());
}

// Today's retrieval failed entirely: the tick is abandoned and the snapshot
// after the tick is identical to the snapshot before it.
#[test]
fn failed_today_retrieval_abandons_the_tick() {
    let devices = Devices { device: vec![base_device("heater", 1000, State::Off)] };
    let mut state = AppState::new(base_config(), devices);
    let plans = run_tick(&mut state, Some(vec![rec(500, 0, 3600)]), None, 100);
    assert_eq!(plans.len(), 1);
    let before_devices = format!("{:?}", state.devices);
    let before_today = format!("{:?}", state.todays_spot_prices);
    let before_tomorrow = format!("{:?}", state.tomorrows_spot_prices);
    let before_gen = (state.devices_generation, state.prices_generation);

    let plans = run_tick(&mut state, None, Some(vec![rec(9, 0, 1)]), 200);
    assert_eq!(plans.len(), 0);
    assert_eq!(format!("{:?}", state.devices), before_devices);
    assert_eq!(format!("{:?}", state.todays_spot_prices), before_today);
    assert_eq!(format!("{:?}", state.tomorrows_spot_prices), before_tomorrow);
    assert_eq!((state.devices_generation, state.prices_generation), before_gen);
}

#[test]
fn empty_today_curve_abandons_the_tick() {
    let devices = Devices { device: vec![base_device("heater", 1000, State::Off)] };
    let mut state = AppState::new(base_config(), devices);
    let plans = run_tick(&mut state, Some(Vec::new()), None, 100);
    assert_eq!(plans.len(), 0);
    assert_eq!(state.devices_generation, 0);
    assert_eq!(state.devices.device[0].state, State::Off);
}

#[test]
fn successful_tick_replaces_the_snapshot_wholesale() {
    let devices = Devices { device: vec![base_device("heater", 1000, State::Off)] };
    let mut state = AppState::new(base_config(), devices);
    let today = vec![rec(500, 0, 3600)];
    let tomorrow = vec![rec(700, 86400, 90000)];
    let plans = run_tick(&mut state, Some(today), Some(tomorrow), 100);
    assert_eq!(plans.len(), 1);
    assert_eq!(state.devices.device[0].state, State::On);
    assert_eq!(state.todays_spot_prices.len(), 1);
    assert_eq!(state.todays_spot_prices[0].price, 500);
    assert_eq!(state.tomorrows_spot_prices.len(), 1);
    assert_eq!(state.tomorrows_spot_prices[0].price, 700);
    assert_eq!(state.devices_generation, 1);
    assert_eq!(state.prices_generation, 1);
}

#[test]
fn failed_tomorrow_retrieval_keeps_the_tick() {
    let devices = Devices { device: vec![base_device("heater", 1000, State::Off)] };
    let mut state = AppState::new(base_config(), devices);
    let plans = run_tick(&mut state, Some(vec![rec(500, 0, 3600)]), None, 100);
    assert_eq!(plans.len(), 1);
    assert_eq!(state.devices.device[0].state, State::On);
    assert!(state.tomorrows_spot_prices.is_empty());
    assert_eq!(state.devices_generation, 1);
}

// The two halves a reader pairs — the device list and the curves — always
// carry the same generation stamp, tick after tick: a reader holding one
// snapshot value never pairs halves of different publications.
#[test]
fn generations_stay_paired_across_ticks() {
    let devices = Devices {
        device: vec![
            base_device("heater", 1000, State::Off),
            base_device("lamp", 200, State::Unknown),
        ],
    };
    let mut state = AppState::new(base_config(), devices);
    assert_eq!(state.devices_generation, state.prices_generation);
    for tick in 0..5u64 {
        let today = if tick % 2 == 0 { Some(vec![rec(500, 0, 3600)]) } else { None };
        let _ = run_tick(&mut state, today, None, 100);
        assert_eq!(state.devices_generation, state.prices_generation);
    }
    let reader_copy_generation = (state.devices_generation, state.prices_generation);
    assert_eq!(reader_copy_generation.0, reader_copy_generation.1);
}

#[test]
fn abandoned_tick_keeps_previous_good_snapshot_visible() {
    let devices = Devices { device: vec![base_device("heater", 1000, State::Off)] };
    let mut state = AppState::new(base_config(), devices);
    let _ = run_tick(&mut state, Some(vec![rec(500, 0, 3600)]), None, 100);
    let saved_state = state.devices.device[0].state;
    let saved_len = state.todays_spot_prices.len();
    let _ = run_tick(&mut state, None, None, 200);
    assert_eq!(state.devices.device[0].state, saved_state);
    assert_eq!(state.todays_spot_prices.len(), saved_len);
    let expected = Devices { device: vec![{
        let mut d = base_device("heater", 1000, State::On);
        d.today_trigger_price = 1000;
        d.tomorrow_trigger_price = 1000;
        d
    }] };
    assert_devices_equal(&state.devices, &expected);
}
