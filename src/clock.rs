//! The local wall clock, which only chrono can consult.
use chrono::TimeZone;
use vstd::prelude::*;

verus! {

/// Relies on chrono's `TimeZone::timestamp_opt` for `Local`, and on the
/// `Display` of the `DateTime<Local>` it yields: the local wall-clock
/// rendering of `secs` seconds since the epoch, or `None` where chrono has no
/// single local time for it (out of its range). The text depends on the
/// machine's time zone, so nothing is promised of it.
#[verifier::external_body]
pub(crate) fn local_time_text(secs: i64) -> (r: Option<String>) {
    match chrono::Local.timestamp_opt(secs, 0).single() {
        Some(t) => Some(t.to_string()),
        None => None,
    }
}

} // verus!
