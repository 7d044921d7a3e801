//! Price-driven control of electrical devices.
//!
//! Given a day-ahead electricity spot-price curve, the library decides, once
//! per tick, whether each configured device should be switched on or off, and
//! publishes the result as a snapshot that a web layer can read.
//!
//! All monetary amounts are fixed-point integers: an `i64` counts thousandths
//! of the configured currency unit, so that every comparison and every sum the
//! decision rule depends on is exact. Rates (the percentile ratio of a device,
//! the VAT rate) are fixed-point as well, in parts per million.

use vstd::prelude::*;

pub mod actions;
pub mod calendar;
pub mod clock;
pub mod config;
pub mod control;
pub mod device_model;
pub mod price;
pub mod snapshot;

verus! {

/// Largest magnitude, in thousandths of a currency unit, that a price, fee or
/// trigger amount may have. Keeping amounts within this bound keeps every sum
/// and product of the price arithmetic inside `i64`.
pub const AMOUNT_LIMIT: i64 = 500_000_000_000;

/// Fixed-point scale for rates: a ratio or a VAT rate of `RATE_SCALE`
/// stands for 1.0 (that is, 100%).
pub const RATE_SCALE: i64 = 1_000_000;

} // verus!
