//! The action dispatcher's decision: which effects a state transition
//! requests.
//!
//! Deciding is separated from performing: [`change_state`] computes an
//! [`ActionPlan`] — the remote toggle request and/or the script launch that
//! the transition calls for — and the unverified edge performs the plan,
//! fire-and-forget. A failure of either effect never rolls the decided state
//! back: the state reflects the decision, not the confirmed physical effect.

use vstd::prelude::*;

verus! {

use crate::config::Config;
use crate::device_model::{ActionError, Device, DeviceV, State};
use vstd::string::StringExecFns;

/// A remote toggle request for the hub: the URL to call, and the device id to
/// pass along.
#[derive(Debug)]
pub struct RemoteToggle {
    pub url: String,
    pub device_id: String,
}

/// The effects a decided transition requests: the decided state, an optional
/// remote toggle, and an optional script to launch.
#[derive(Debug)]
pub struct ActionPlan {
    pub state: State,
    pub remote: Option<RemoteToggle>,
    pub script: Option<String>,
}

pub open spec fn turn_on_url_spec(ip: Seq<char>) -> Seq<char> {
    "http://"@ + ip + "/api/device/turnOn"@
}

pub open spec fn turn_off_url_spec(ip: Seq<char>) -> Seq<char> {
    "http://"@ + ip + "/api/device/turnOff"@
}

pub open spec fn list_url_spec(ip: Seq<char>) -> Seq<char> {
    "http://"@ + ip + "/api/devices/list"@
}

/// The hub URL that toggles a device to `action` (`On` or `Off`).
pub open spec fn toggle_url_spec(ip: Seq<char>, action: State) -> Seq<char> {
    if action == State::On {
        turn_on_url_spec(ip)
    } else {
        turn_off_url_spec(ip)
    }
}

/// The script configured for a target state, if any: `script_on` for `On`,
/// `script_off` for `Off`, none when the configured path is empty.
pub open spec fn script_for_spec(d: DeviceV, action: State) -> Option<Seq<char>> {
    if action == State::On {
        if d.script_on.len() > 0 {
            Some(d.script_on)
        } else {
            None
        }
    } else {
        if d.script_off.len() > 0 {
            Some(d.script_off)
        } else {
            None
        }
    }
}

/// The plan that [`change_state`] owes for a device and a valid target state:
/// a remote toggle exactly when remote control is enabled for the device, a
/// script exactly when one is configured for the target state.
pub open spec fn plan_matches(plan: ActionPlan, config: Config, d: DeviceV, action: State) -> bool {
    &&& plan.state == action
    &&& if d.telldus {
        &&& plan.remote is Some
        &&& plan.remote->Some_0.url@ == toggle_url_spec(config.telldus_ip@, action)
        &&& plan.remote->Some_0.device_id@ == d.telldus_id
    } else {
        plan.remote is None
    }
    &&& match script_for_spec(d, action) {
        Some(s) => plan.script is Some && plan.script->Some_0@ == s,
        None => plan.script is None,
    }
}

/// Build the hub URL that toggles a device on or off.
fn toggle_url(ip: &str, on: bool) -> (r: String)
    ensures
        r@ == if on {
            turn_on_url_spec(ip@)
        } else {
            turn_off_url_spec(ip@)
        },
{
    let mut s = String::from_str("http://");
    s.append(ip);
    if on {
        s.append("/api/device/turnOn");
    } else {
        s.append("/api/device/turnOff");
    }
    s
}

/// Build the hub URL that lists the remote devices.
pub fn telldus_list_url(ip: &str) -> (r: String)
    ensures
        r@ == list_url_spec(ip@),
{
    let mut s = String::from_str("http://");
    s.append(ip);
    s.append("/api/devices/list");
    s
}

/// Decide the effects of changing a device to `action`.
///
/// `On` and `Off` yield the owed [`ActionPlan`]; any other target state is a
/// programming error and fails fast with an invalid-state error, never
/// silently ignored.
pub fn change_state(config: &Config, device: &Device, action: State) -> (r: Result<
    ActionPlan,
    ActionError,
>)
    ensures
        r is Ok <==> action != State::Unknown,
        r is Ok ==> plan_matches(r->Ok_0, *config, device@, action),
        r is Err ==> r->Err_0 == ActionError::WrongState(action),
{
    if action == State::Unknown {
        return Err(ActionError::WrongState(action));
    }
    let remote = if device.telldus {
        let url = toggle_url(config.telldus_ip.as_str(), action == State::On);
        Some(RemoteToggle { url, device_id: device.telldus_id.clone() })
    } else {
        None
    };
    let script = if action == State::On {
        if !device.script_on.as_str().is_empty() {
            Some(device.script_on.clone())
        } else {
            None
        }
    } else {
        if !device.script_off.as_str().is_empty() {
            Some(device.script_off.clone())
        } else {
            None
        }
    };
    Ok(ActionPlan { state: action, remote, script })
}

impl Device {
    /// Decide the effects of switching this device on.
    pub fn switch_on(&self, config: &Config) -> (r: Result<ActionPlan, ActionError>)
        ensures
            r is Ok,
            plan_matches(r->Ok_0, *config, self@, State::On),
    {
        change_state(config, self, State::On)
    }

    /// Decide the effects of switching this device off.
    pub fn switch_off(&self, config: &Config) -> (r: Result<ActionPlan, ActionError>)
        ensures
            r is Ok,
            plan_matches(r->Ok_0, *config, self@, State::Off),
    {
        change_state(config, self, State::Off)
    }
}

} // verus!
