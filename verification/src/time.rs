//! Durations, as `std::time::Duration` holds them, and the clock.
use crate::text::text;
use chrono::{DateTime, Utc};
use std::time::{Duration, SystemTime, UNIX_EPOCH};
use vstd::prelude::*;

verus! {

#[verifier::external_type_specification]
#[verifier::external_body]
pub struct ExSystemTime(SystemTime);

/// The length of a duration in nanoseconds, as `Duration::as_nanos` gives it.
pub uninterp spec fn duration_nanos(d: Duration) -> nat;

/// Calls `Duration::from_millis`, which builds a duration of `ms`
/// milliseconds; its nanosecond length is `ms * 10^6`.
#[verifier::external_body]
pub(crate) fn millis(ms: u64) -> (d: Duration)
    ensures
        duration_nanos(d) == ms * 1_000_000,
{
    Duration::from_millis(ms)
}

/// Calls `Duration::from_secs`, which builds a duration of `s` whole
/// seconds; its nanosecond length is `s * 10^9`.
#[verifier::external_body]
pub(crate) fn secs(s: u64) -> (d: Duration)
    ensures
        duration_nanos(d) == s * 1_000_000_000,
{
    Duration::from_secs(s)
}

/// Calls `Duration::as_nanos`: the total number of nanoseconds in `d`.
#[verifier::external_body]
pub(crate) fn as_nanos(d: &Duration) -> (n: u128)
    ensures
        n == duration_nanos(*d),
{
    d.as_nanos()
}

/// Calls `std::time::SystemTime::now`: a reading of the system clock.
/// Nothing is stated of it.
#[verifier::external_body]
fn system_now() -> SystemTime {
    SystemTime::now()
}

/// Calls `SystemTime::duration_since` with `UNIX_EPOCH`: the time from
/// 1970-01-01T00:00:00Z to `t`, or `None` (its error) where `t` is
/// earlier. Nothing more is stated of it.
#[verifier::external_body]
fn since_unix_epoch(t: &SystemTime) -> Option<Duration> {
    t.duration_since(UNIX_EPOCH).ok()
}

/// Calls `chrono::DateTime::<Utc>::from_timestamp` and writes the
/// instant it gives with `DateTime::to_rfc3339`: the UTC instant `secs`
/// seconds and `nsecs` nanoseconds after the Unix epoch as RFC 3339 text,
/// or `None` where chrono cannot represent that instant. Nothing more is
/// stated of the text. (The two calls share one item because Verus cannot
/// declare `DateTime`, whose parameter is bound by chrono's `TimeZone`.)
#[verifier::external_body]
fn rfc3339_at(secs: i64, nsecs: u32) -> Option<String> {
    match DateTime::<Utc>::from_timestamp(secs, nsecs) {
        Some(d) => Some(d.to_rfc3339()),
        None => None,
    }
}

/// The whole seconds and the nanoseconds beyond them of `nanos`
/// nanoseconds, where the seconds fit in an `i64`.
pub fn timestamp_parts(nanos: u128) -> (r: Option<(i64, u32)>)
    ensures
        match r {
            Some((secs, sub)) => {
                &&& nanos / 1_000_000_000 <= i64::MAX
                &&& secs == nanos / 1_000_000_000
                &&& sub == nanos % 1_000_000_000
            },
            None => nanos / 1_000_000_000 > i64::MAX,
        },
{
    let secs = nanos / 1_000_000_000;
    if secs > 9_223_372_036_854_775_807 {
        None
    } else {
        Some((secs as i64, (nanos % 1_000_000_000) as u32))
    }
}

/// The text written for the Unix epoch, which stands for the current time
/// where the clock cannot be read as a date.
pub fn epoch_rfc3339() -> (r: String)
    ensures
        r@ == "1970-01-01T00:00:00+00:00"@,
{
    text("1970-01-01T00:00:00+00:00")
}

/// The current time as RFC 3339 text, as chrono writes it; where the
/// system clock reads before 1970 or beyond the dates chrono represents,
/// the Unix epoch's text instead.
pub fn utc_now_rfc3339() -> String {
    let now = system_now();
    let since = match since_unix_epoch(&now) {
        Some(d) => d,
        None => {
            return epoch_rfc3339();
        },
    };
    let parts = match timestamp_parts(as_nanos(&since)) {
        Some(p) => p,
        None => {
            return epoch_rfc3339();
        },
    };
    match rfc3339_at(parts.0, parts.1) {
        Some(t) => t,
        None => epoch_rfc3339(),
    }
}

} // verus!
