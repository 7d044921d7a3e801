//! The timestamp boundary: RFC 3339 texts from the price source, parsed
//! through the `time` crate into the plain Unix seconds the oracle compares.

use vstd::prelude::*;

verus! {

use crate::config::amount_ok;
use crate::price::PriceRecord;
use crate::AMOUNT_LIMIT;

/// The instant an RFC 3339 text denotes, as Unix seconds; `None` for text
/// that is not a valid RFC 3339 timestamp. The instant depends on the text
/// alone.
pub uninterp spec fn parsed_rfc3339(s: Seq<char>) -> Option<i64>;

/// Parse an RFC 3339 timestamp into Unix seconds.
///
/// Relies on `time::OffsetDateTime::parse` with the RFC 3339 well-known
/// format — parsing fails or succeeds on the text alone — and on
/// `OffsetDateTime::unix_timestamp`, a pure function of the parsed date-time.
#[verifier::external_body]
pub fn parse_local_datetime(s: &str) -> (r: Option<i64>)
    ensures
        r == parsed_rfc3339(s@),
{
    match time::OffsetDateTime::parse(s, &time::format_description::well_known::Rfc3339) {
        Ok(t) => Some(t.unix_timestamp()),
        Err(_) => None,
    }
}

/// Build a price record from a fixed-point price and the window's RFC 3339
/// bounds, as the price source hands them over.
///
/// `None` exactly when the price lies outside the supported amount range or
/// either bound fails to parse.
pub fn record_from_strings(price: i64, start: &str, end: &str) -> (r: Option<PriceRecord>)
    ensures
        r is None <==> (!amount_ok(price as int) || parsed_rfc3339(start@) is None
            || parsed_rfc3339(end@) is None),
        r is Some ==> {
            &&& r->Some_0.price == price
            &&& Some(r->Some_0.window_start) == parsed_rfc3339(start@)
            &&& Some(r->Some_0.window_end) == parsed_rfc3339(end@)
        },
{
    if price < -AMOUNT_LIMIT || price > AMOUNT_LIMIT {
        return None;
    }
    let window_start = match parse_local_datetime(start) {
        Some(t) => t,
        None => {
            return None;
        },
    };
    let window_end = match parse_local_datetime(end) {
        Some(t) => t,
        None => {
            return None;
        },
    };
    Some(PriceRecord { price, window_start, window_end })
}

} // verus!
