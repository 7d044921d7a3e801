//! The control loop's decision core: one tick over the device collection.
//!
//! Given today's and tomorrow's price curves, the loop computes each device's
//! trigger prices for its mode, applies the decision rule, and collects the
//! dispatch plans for every decided transition. Performing the dispatches and
//! sleeping between ticks is the unverified edge's concern.

use vstd::prelude::*;

verus! {

use crate::actions::{change_state, plan_matches, ActionPlan};
use crate::config::Config;
use crate::device_model::{Device, DeviceV, Devices, Mode, State};
use crate::price::{current_price, current_price_spec, ratio_price, ratio_price_spec, PriceRecord};

/// The decision rule, evaluated for one device and one tick.
///
/// Switch `On` when the device is not already on — or `force_update` is set —
/// and the trigger price exceeds the current spot; else switch `Off` when the
/// device is not already off — or `force_update` is set — and the trigger
/// price is below the current spot; else no transition. Equality of trigger
/// and spot never transitions, and the `On` check is made first.
pub open spec fn decide_spec(state: State, trigger: i64, spot: i64, force: bool) -> Option<
    State,
> {
    if (state != State::On && trigger > spot) || (force && trigger > spot) {
        Some(State::On)
    } else if (state != State::Off && trigger < spot) || (force && trigger < spot) {
        Some(State::Off)
    } else {
        None
    }
}

/// Evaluate the decision rule.
pub fn decide(state: State, trigger: i64, spot: i64, force: bool) -> (d: Option<State>)
    ensures
        d == decide_spec(state, trigger, spot, force),
{
    if (state != State::On && trigger > spot) || (force && trigger > spot) {
        Some(State::On)
    } else if (state != State::Off && trigger < spot) || (force && trigger < spot) {
        Some(State::Off)
    } else {
        None
    }
}

/// The spot price a tick compares against: the current price, with an absent
/// current price standing in as 0 for comparison purposes only.
pub open spec fn spot_spec(t: Seq<PriceRecord>, now: int) -> i64 {
    match current_price_spec(t, now) {
        Some(p) => p,
        None => 0,
    }
}

/// Today's trigger price of a device: its fixed price in `Price` mode, the
/// percentile price of today's curve in `Ratio` mode.
pub open spec fn today_trigger_spec(d: DeviceV, t: Seq<PriceRecord>) -> i64 {
    match d.mode {
        Mode::Price => d.price,
        Mode::Ratio => ratio_price_spec(t, d.ratio as int)->Some_0,
        Mode::Unknown => d.today_trigger_price,
    }
}

/// Tomorrow's trigger price of a device: its fixed price in `Price` mode, the
/// percentile price of tomorrow's curve in `Ratio` mode — defaulting to 0
/// when tomorrow's curve is absent (empty).
pub open spec fn tomorrow_trigger_spec(d: DeviceV, m: Seq<PriceRecord>) -> i64 {
    match d.mode {
        Mode::Price => d.price,
        Mode::Ratio => match ratio_price_spec(m, d.ratio as int) {
            Some(p) => p,
            None => 0,
        },
        Mode::Unknown => d.tomorrow_trigger_price,
    }
}

/// The transition a tick decides for a device, if any. Devices in `Unknown`
/// mode are left untouched.
pub open spec fn tick_decision(d: DeviceV, t: Seq<PriceRecord>, now: int) -> Option<State> {
    if d.mode == Mode::Unknown {
        None
    } else {
        decide_spec(d.state, today_trigger_spec(d, t), spot_spec(t, now), d.force_update)
    }
}

/// A device after one tick: trigger prices recomputed for its mode, and the
/// state replaced when the decision rule fired.
pub open spec fn tick_device_spec(
    d: DeviceV,
    t: Seq<PriceRecord>,
    m: Seq<PriceRecord>,
    now: int,
) -> DeviceV {
    if d.mode == Mode::Unknown {
        d
    } else {
        DeviceV {
            name: d.name,
            mode: d.mode,
            ratio: d.ratio,
            price: d.price,
            today_trigger_price: today_trigger_spec(d, t),
            tomorrow_trigger_price: tomorrow_trigger_spec(d, m),
            state: match tick_decision(d, t, now) {
                Some(s) => s,
                None => d.state,
            },
            force_update: d.force_update,
            telldus: d.telldus,
            telldus_id: d.telldus_id,
            script_on: d.script_on,
            script_off: d.script_off,
        }
    }
}

/// The whole collection after one tick, in collection order.
pub open spec fn tick_devices_spec(
    ds: Seq<DeviceV>,
    t: Seq<PriceRecord>,
    m: Seq<PriceRecord>,
    now: int,
) -> Seq<DeviceV> {
    ds.map_values(|d: DeviceV| tick_device_spec(d, t, m, now))
}

/// The transitions a tick decides, in collection order: each paired with the
/// device it concerns.
pub open spec fn tick_dispatches_spec(
    ds: Seq<DeviceV>,
    t: Seq<PriceRecord>,
    now: int,
) -> Seq<(DeviceV, State)>
    decreases ds.len(),
{
    if ds.len() == 0 {
        Seq::empty()
    } else {
        let rest = tick_dispatches_spec(ds.drop_last(), t, now);
        match tick_decision(ds.last(), t, now) {
            Some(s) => rest.push((ds.last(), s)),
            None => rest,
        }
    }
}

/// Dispatches carry decisions, nothing else: every entry of a tick's
/// dispatch list pairs a device with precisely the transition the decision
/// rule fired for it — so a dispatched device's new state is the dispatched
/// target state.
pub proof fn lemma_dispatched_state_is_applied(ds: Seq<DeviceV>, t: Seq<PriceRecord>, now: int)
    ensures
        forall|k: int|
            0 <= k < tick_dispatches_spec(ds, t, now).len() ==> tick_decision(
                (#[trigger] tick_dispatches_spec(ds, t, now)[k]).0,
                t,
                now,
            ) == Some(tick_dispatches_spec(ds, t, now)[k].1),
    decreases ds.len(),
{
    if ds.len() > 0 {
        lemma_dispatched_state_is_applied(ds.drop_last(), t, now);
    }
}

/// One decided transition, ready to dispatch: the device's name and the plan
/// of its effects.
#[derive(Debug)]
pub struct Dispatch {
    pub name: String,
    pub plan: ActionPlan,
}

/// The dispatch list a tick owes: one entry per decided transition, in
/// collection order, each carrying the device's name and the plan that
/// [`change_state`] owes for it.
pub open spec fn dispatches_ok(
    ps: Seq<Dispatch>,
    exp: Seq<(DeviceV, State)>,
    config: Config,
) -> bool {
    &&& ps.len() == exp.len()
    &&& forall|k: int|
        0 <= k < exp.len() ==> {
            &&& (#[trigger] ps[k]).name@ == exp[k].0.name
            &&& plan_matches(ps[k].plan, config, exp[k].0, exp[k].1)
        }
}

/// Rebuild a device with fresh trigger prices and state; everything else is
/// kept.
fn retuned_device(d: &Device, today_trigger: i64, tomorrow_trigger: i64, state: State) -> (r:
    Device)
    ensures
        r@ == (DeviceV {
            name: d@.name,
            mode: d@.mode,
            ratio: d@.ratio,
            price: d@.price,
            today_trigger_price: today_trigger,
            tomorrow_trigger_price: tomorrow_trigger,
            state: state,
            force_update: d@.force_update,
            telldus: d@.telldus,
            telldus_id: d@.telldus_id,
            script_on: d@.script_on,
            script_off: d@.script_off,
        }),
{
    Device {
        name: d.name.clone(),
        mode: d.mode,
        ratio: d.ratio,
        price: d.price,
        today_trigger_price: today_trigger,
        tomorrow_trigger_price: tomorrow_trigger,
        state: state,
        force_update: d.force_update,
        telldus: d.telldus,
        telldus_id: d.telldus_id.clone(),
        script_on: d.script_on.clone(),
        script_off: d.script_off.clone(),
    }
}

/// One decision tick over the device collection.
///
/// For each device, in collection order: compute the trigger prices for its
/// mode, apply the decision rule against the current spot price (0 when no
/// window of today's curve contains `now`), and, when the rule fires, record
/// the transition's dispatch plan. Returns the updated collection and the
/// dispatch list; today's curve must be non-empty (an empty or missing curve
/// abandons the tick before this point).
pub fn logic_loop(
    today_spot_prices: &Vec<PriceRecord>,
    tomorrow_spot_prices: &Vec<PriceRecord>,
    devices: Devices,
    config: &Config,
    now: i64,
) -> (r: (Devices, Vec<Dispatch>))
    requires
        today_spot_prices@.len() > 0,
    ensures
        r.0.device.deep_view() == tick_devices_spec(
            devices.device.deep_view(),
            today_spot_prices@,
            tomorrow_spot_prices@,
            now as int,
        ),
        dispatches_ok(
            r.1@,
            tick_dispatches_spec(devices.device.deep_view(), today_spot_prices@, now as int),
            *config,
        ),
{
    let ghost t = today_spot_prices@;
    let ghost m = tomorrow_spot_prices@;
    let ghost ds = devices.device.deep_view();
    let spot = match current_price(today_spot_prices, now) {
        Some(p) => p,
        None => 0,
    };
    let mut out: Vec<Device> = Vec::new();
    let mut plans: Vec<Dispatch> = Vec::new();
    let n = devices.device.len();
    let mut i: usize = 0;
    proof {
        assert(ds.take(0) =~= Seq::<DeviceV>::empty());
        assert(out.deep_view() =~= tick_devices_spec(ds.take(0), t, m, now as int));
        assert(plans@ =~= Seq::<Dispatch>::empty());
    }
    while i < n
        invariant
            0 <= i <= n,
            n == devices.device.len(),
            ds == devices.device.deep_view(),
            t == today_spot_prices@,
            m == tomorrow_spot_prices@,
            t.len() > 0,
            spot == spot_spec(t, now as int),
            out.deep_view() == tick_devices_spec(ds.take(i as int), t, m, now as int),
            dispatches_ok(plans@, tick_dispatches_spec(ds.take(i as int), t, now as int), *config),
        decreases n - i,
    {
        let d = &devices.device[i];
        let ghost pre = out.deep_view();
        proof {
            assert(d@ == ds[i as int]);
        }
        let mode_unknown = d.mode == Mode::Unknown;
        if !mode_unknown {
            let today_trigger = if d.mode == Mode::Price {
                d.price
            } else {
                match ratio_price(today_spot_prices, d.ratio) {
                    Some(p) => p,
                    None => {
                        proof {
                            assert(false);
                        }
                        0
                    },
                }
            };
            let tomorrow_trigger = if d.mode == Mode::Price {
                d.price
            } else {
                match ratio_price(tomorrow_spot_prices, d.ratio) {
                    Some(p) => p,
                    None => 0,
                }
            };
            let dec = decide(d.state, today_trigger, spot, d.force_update);
            let new_state = match dec {
                Some(s) => s,
                None => d.state,
            };
            let nd = retuned_device(d, today_trigger, tomorrow_trigger, new_state);
            proof {
                assert(nd@ == tick_device_spec(ds[i as int], t, m, now as int));
            }
            match dec {
                Some(s) => {
                    let plan = match change_state(config, &nd, s) {
                        Ok(p) => p,
                        Err(_) => {
                            proof {
                                assert(false);
                            }
                            ActionPlan { state: s, remote: None, script: None }
                        },
                    };
                    let name = nd.name.clone();
                    plans.push(Dispatch { name, plan });
                },
                None => {},
            }
            out.push(nd);
        } else {
            let nd = retuned_device(d, d.today_trigger_price, d.tomorrow_trigger_price, d.state);
            proof {
                assert(nd@ == tick_device_spec(ds[i as int], t, m, now as int));
            }
            out.push(nd);
        }
        proof {
            let ghost td = tick_device_spec(ds[i as int], t, m, now as int);
            assert(ds.take(i as int + 1).drop_last() =~= ds.take(i as int));
            assert(ds.take(i as int + 1).last() == ds[i as int]);
            assert(out.deep_view() =~= pre.push(td));
            assert(tick_devices_spec(ds.take(i as int + 1), t, m, now as int) =~= pre.push(td));
        }
        i = i + 1;
    }
    proof {
        assert(ds.take(n as int) =~= ds);
    }
    (Devices { device: out }, plans)
}

/// The state machine never reverts: a tick moves a device's state only to
/// `On` or `Off`, so a device shows `Unknown` only for as long as it has
/// never been decided.
pub proof fn lemma_no_reversion_to_unknown(
    d: DeviceV,
    t: Seq<PriceRecord>,
    m: Seq<PriceRecord>,
    now: int,
)
    ensures
        tick_device_spec(d, t, m, now).state == State::Unknown ==> d.state == State::Unknown,
{
}

/// Outcome of a user-initiated transition request from the web layer.
#[derive(Clone, Copy, Debug, PartialEq, Eq, Structural)]
pub enum RequestStatus {
    Forbidden,
    NotFound,
    Switched,
}

/// Some device of the collection bears the name.
pub open spec fn name_found(ds: Seq<DeviceV>, name: Seq<char>) -> bool {
    exists|i: int| 0 <= i < ds.len() && (#[trigger] ds[i]).name == name
}

/// The dispatches owed for a user request: one per device bearing the name,
/// in collection order.
pub open spec fn request_dispatches_spec(
    ds: Seq<DeviceV>,
    name: Seq<char>,
    action: State,
) -> Seq<(DeviceV, State)>
    decreases ds.len(),
{
    if ds.len() == 0 {
        Seq::empty()
    } else {
        let rest = request_dispatches_spec(ds.drop_last(), name, action);
        if ds.last().name == name {
            rest.push((ds.last(), action))
        } else {
            rest
        }
    }
}

/// A user-initiated transition from the web layer, gated by the
/// `webui_toggle` flag and going through the same dispatcher path as the
/// automatic transitions: when enabled, every device bearing the name gets a
/// dispatch plan for `action`, and the outcome says whether any did. The
/// collection itself is not altered — states reflect the control loop's
/// decisions.
pub fn request_transition(
    devices: &Devices,
    config: &Config,
    name: &String,
    action: State,
) -> (r: (RequestStatus, Vec<Dispatch>))
    requires
        action != State::Unknown,
    ensures
        !config.webui_toggle ==> r.0 == RequestStatus::Forbidden && r.1@.len() == 0,
        config.webui_toggle ==> {
            &&& r.0 == if name_found(devices.device.deep_view(), name@) {
                RequestStatus::Switched
            } else {
                RequestStatus::NotFound
            }
            &&& dispatches_ok(
                r.1@,
                request_dispatches_spec(devices.device.deep_view(), name@, action),
                *config,
            )
        },
{
    if !config.webui_toggle {
        return (RequestStatus::Forbidden, Vec::new());
    }
    let ghost dv = devices.device.deep_view();
    let mut plans: Vec<Dispatch> = Vec::new();
    let mut found = false;
    let n = devices.device.len();
    let mut i: usize = 0;
    proof {
        assert(dv.take(0) =~= Seq::<DeviceV>::empty());
    }
    while i < n
        invariant
            0 <= i <= n,
            n == devices.device.len(),
            dv == devices.device.deep_view(),
            action != State::Unknown,
            found == name_found(dv.take(i as int), name@),
            dispatches_ok(plans@, request_dispatches_spec(dv.take(i as int), name@, action), *config),
        decreases n - i,
    {
        let d = &devices.device[i];
        proof {
            assert(d@ == dv[i as int]);
            assert(dv.take(i as int + 1).drop_last() =~= dv.take(i as int));
            assert(dv.take(i as int + 1).last() == dv[i as int]);
        }
        if d.name == *name {
            let plan = match change_state(config, d, action) {
                Ok(p) => p,
                Err(_) => {
                    proof {
                        assert(false);
                    }
                    ActionPlan { state: action, remote: None, script: None }
                },
            };
            let dname = d.name.clone();
            plans.push(Dispatch { name: dname, plan });
            found = true;
            proof {
                assert(dv.take(i as int + 1)[i as int] == dv[i as int]);
                assert(name_found(dv.take(i as int + 1), name@));
            }
        } else {
            proof {
                assert(name_found(dv.take(i as int + 1), name@) == name_found(
                    dv.take(i as int),
                    name@,
                )) by {
                    if name_found(dv.take(i as int + 1), name@) {
                        let j = choose|j: int|
                            0 <= j < dv.take(i as int + 1).len() && (#[trigger] dv.take(
                                i as int + 1,
                            )[j]).name == name@;
                        if j < i {
                            assert(dv.take(i as int)[j] == dv.take(i as int + 1)[j]);
                            assert(name_found(dv.take(i as int), name@));
                        }
                    }
                    if name_found(dv.take(i as int), name@) {
                        let j = choose|j: int|
                            0 <= j < dv.take(i as int).len() && (#[trigger] dv.take(
                                i as int,
                            )[j]).name == name@;
                        assert(dv.take(i as int + 1)[j] == dv.take(i as int)[j]);
                        assert(name_found(dv.take(i as int + 1), name@));
                    }
                }
            }
        }
        i = i + 1;
    }
    proof {
        assert(dv.take(n as int) =~= dv);
    }
    if found {
        (RequestStatus::Switched, plans)
    } else {
        (RequestStatus::NotFound, plans)
    }
}

} // verus!

