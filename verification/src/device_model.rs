//! Devices, their modes, and the On/Off/Unknown state machine.

use vstd::prelude::*;

verus! {

use crate::RATE_SCALE;

/// State of a device. A device starts out `Unknown` and is driven to `On` or
/// `Off` by the control loop's decision rule; no decision ever returns it to
/// `Unknown`.
#[derive(Clone, Copy, Debug, PartialEq, Eq, Structural)]
pub enum State {
    Unknown,
    On,
    Off,
}

/// How a device's trigger price is computed each tick: `Price` uses the
/// device's fixed price, `Ratio` the percentile of the day's sorted prices.
/// `Unknown`-mode devices are left untouched by the control loop.
#[derive(Clone, Copy, Debug, PartialEq, Eq, Structural)]
pub enum Mode {
    Unknown,
    Price,
    Ratio,
}

/// A controllable device: its decision mode, configured prices, current
/// state, and how its transitions are dispatched (a remote toggle and/or a
/// local script).
///
/// `ratio` is a fixed-point fraction (`RATE_SCALE` standing for 1.0, clamped
/// to `[0, 1]` on use); the price fields are fixed-point amounts.
#[derive(Debug)]
pub struct Device {
    pub name: String,
    pub mode: Mode,
    pub ratio: i64,
    pub price: i64,
    pub today_trigger_price: i64,
    pub tomorrow_trigger_price: i64,
    pub state: State,
    pub force_update: bool,
    pub telldus: bool,
    pub telldus_id: String,
    pub script_on: String,
    pub script_off: String,
}

/// The mathematical model of a [`Device`]: the same fields, with the strings
/// as character sequences.
pub struct DeviceV {
    pub name: Seq<char>,
    pub mode: Mode,
    pub ratio: i64,
    pub price: i64,
    pub today_trigger_price: i64,
    pub tomorrow_trigger_price: i64,
    pub state: State,
    pub force_update: bool,
    pub telldus: bool,
    pub telldus_id: Seq<char>,
    pub script_on: Seq<char>,
    pub script_off: Seq<char>,
}

impl View for Device {
    type V = DeviceV;

    open spec fn view(&self) -> DeviceV {
        DeviceV {
            name: self.name@,
            mode: self.mode,
            ratio: self.ratio,
            price: self.price,
            today_trigger_price: self.today_trigger_price,
            tomorrow_trigger_price: self.tomorrow_trigger_price,
            state: self.state,
            force_update: self.force_update,
            telldus: self.telldus,
            telldus_id: self.telldus_id@,
            script_on: self.script_on@,
            script_off: self.script_off@,
        }
    }
}

impl DeepView for Device {
    type V = DeviceV;

    open spec fn deep_view(&self) -> DeviceV {
        self.view()
    }
}

/// The collection of devices loaded from configuration.
#[derive(Debug)]
pub struct Devices {
    pub device: Vec<Device>,
}

/// The error of the action dispatcher: it was invoked with a target state
/// that is neither `On` nor `Off`.
#[derive(Clone, Copy, Debug, PartialEq, Eq, Structural)]
pub enum ActionError {
    WrongState(State),
}

/// Clamp a configured ratio to `[0, RATE_SCALE]` (that is, to `[0, 1]` as a
/// fraction). Used wherever a configured ratio is consumed.
pub fn clamp_ratio(r: i64) -> (c: i64)
    ensures
        c == clamp_ratio_spec(r as int),
{
    if r < 0 {
        0
    } else if r > RATE_SCALE {
        RATE_SCALE
    } else {
        r
    }
}

pub open spec fn clamp_ratio_spec(r: int) -> int {
    if r < 0 {
        0
    } else if r > RATE_SCALE {
        RATE_SCALE as int
    } else {
        r
    }
}

} // verus!
