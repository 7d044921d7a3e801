//! The shared snapshot: what the control loop publishes and the web layer
//! reads.
//!
//! The snapshot is replaced wholesale, once per tick, never mutated in place:
//! the loop works on a private copy of the devices and swaps the finished
//! result in together with the curves it was computed from. The single lock
//! that guards the structure against concurrent readers lives at the
//! unverified edge; here, the pairing of what was published together is made
//! explicit by a generation stamp on each half, and kept equal by every
//! publication.

use vstd::prelude::*;

verus! {

use crate::config::Config;
use crate::control::{
    dispatches_ok,
    logic_loop,
    tick_devices_spec,
    tick_dispatches_spec,
    Dispatch,
};
use crate::device_model::Devices;
use crate::price::PriceRecord;

/// The published snapshot: configuration, devices with their current states
/// and trigger prices, and the curves of the tick that produced them.
#[derive(Debug)]
pub struct AppState {
    pub config: Config,
    pub devices: Devices,
    pub todays_spot_prices: Vec<PriceRecord>,
    pub tomorrows_spot_prices: Vec<PriceRecord>,
    pub devices_generation: u64,
    pub prices_generation: u64,
}

/// The curve a tick stores for tomorrow: the retrieved curve, or empty when
/// retrieval failed — a failure for tomorrow never abandons the tick.
pub open spec fn tomorrow_curve_view(m: Option<Vec<PriceRecord>>) -> Seq<PriceRecord> {
    match m {
        Some(v) => v@,
        None => Seq::empty(),
    }
}

impl AppState {
    /// The two halves a reader pairs — the device collection and the price
    /// curves — were published together: their generation stamps agree.
    pub open spec fn wf(self) -> bool {
        self.devices_generation == self.prices_generation
    }

    /// The initial snapshot: the configured devices, no curves published yet.
    pub fn new(config: Config, devices: Devices) -> (r: AppState)
        ensures
            r.wf(),
            r.devices_generation == 0,
            r.config == config,
            r.devices.device.deep_view() == devices.device.deep_view(),
            r.todays_spot_prices@.len() == 0,
            r.tomorrows_spot_prices@.len() == 0,
    {
        AppState {
            config,
            devices,
            todays_spot_prices: Vec::new(),
            tomorrows_spot_prices: Vec::new(),
            devices_generation: 0,
            prices_generation: 0,
        }
    }
}

/// One full tick against the shared snapshot.
///
/// `today` and `tomorrow` are the retrieved curves, `None` where retrieval
/// failed entirely. An absent (or empty) today curve abandons the tick: the
/// snapshot is left exactly as it was and nothing is dispatched. Otherwise
/// every device is re-decided by [`logic_loop`], and the snapshot is replaced
/// wholesale — new device collection, new curves, both generation stamps
/// advanced together — while the returned dispatch list carries the decided
/// transitions for the edge to perform.
pub fn run_tick(
    state: &mut AppState,
    today: Option<Vec<PriceRecord>>,
    tomorrow: Option<Vec<PriceRecord>>,
    now: i64,
) -> (plans: Vec<Dispatch>)
    requires
        old(state).wf(),
        old(state).devices_generation < u64::MAX,
    ensures
        final(state).wf(),
        match today {
            None => *final(state) == *old(state) && plans@.len() == 0,
            Some(c) => if c@.len() == 0 {
                *final(state) == *old(state) && plans@.len() == 0
            } else {
                &&& final(state).devices.device.deep_view() == tick_devices_spec(
                    old(state).devices.device.deep_view(),
                    c@,
                    tomorrow_curve_view(tomorrow),
                    now as int,
                )
                &&& final(state).todays_spot_prices@ == c@
                &&& final(state).tomorrows_spot_prices@ == tomorrow_curve_view(tomorrow)
                &&& final(state).config == old(state).config
                &&& final(state).devices_generation == old(state).devices_generation + 1
                &&& final(state).prices_generation == old(state).prices_generation + 1
                &&& dispatches_ok(
                    plans@,
                    tick_dispatches_spec(
                        old(state).devices.device.deep_view(),
                        c@,
                        now as int,
                    ),
                    old(state).config,
                )
            },
        },
{
    let c = match today {
        Some(c) => c,
        None => {
            return Vec::new();
        },
    };
    if c.len() == 0 {
        return Vec::new();
    }
    let m = match tomorrow {
        Some(v) => v,
        None => Vec::new(),
    };
    let mut working = Devices { device: Vec::new() };
    core::mem::swap(&mut working, &mut state.devices);
    let (updated, plans) = logic_loop(&c, &m, working, &state.config, now);
    state.devices = updated;
    state.todays_spot_prices = c;
    state.tomorrows_spot_prices = m;
    state.devices_generation = state.devices_generation + 1;
    state.prices_generation = state.prices_generation + 1;
    plans
}

/// What a reader may rely on: in any well-formed snapshot the device
/// collection and the curves carry the same generation — the two halves are
/// never observed torn across publications.
pub proof fn lemma_snapshot_not_torn(s: AppState)
    requires
        s.wf(),
    ensures
        s.devices_generation == s.prices_generation,
{
}

} // verus!
