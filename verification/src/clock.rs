//! The wall clock, as seconds since the Unix epoch.

use vstd::prelude::*;
use chrono::Datelike;
use crate::utils::datetime::CalendarDate;

verus! {

/// `t` where it is a timestamp, else the nearest one.
pub open spec fn clamp_timestamp(t: int) -> i64 {
    if t > i64::MAX {
        i64::MAX
    } else if t < i64::MIN {
        i64::MIN
    } else {
        t as i64
    }
}

/// The current time in seconds since the Unix epoch.
///
/// Trusted: calls `chrono::Utc::now` and `DateTime::timestamp`. Nothing is
/// claimed of the value: every reading of the clock may differ.
#[verifier::external_body]
pub(crate) fn unix_now() -> (now: i64) {
    chrono::Utc::now().timestamp()
}

/// Today's date in UTC.
///
/// Trusted: calls `chrono::Utc::now` and `DateTime::date_naive`, and picks
/// year, month and day out of the date. Nothing is claimed of the value.
#[verifier::external_body]
pub(crate) fn today_utc() -> (today: CalendarDate) {
    let date = chrono::Utc::now().date_naive();
    CalendarDate { year: date.year(), month: date.month(), day: date.day() }
}

/// The moment `ttl` seconds after `now`, kept within the range of `i64`.
pub fn seconds_after(now: i64, ttl: i64) -> (at: i64)
    ensures
        at == clamp_timestamp(now + ttl),
{
    if ttl >= 0 {
        if now > i64::MAX - ttl {
            i64::MAX
        } else {
            now + ttl
        }
    } else if now < i64::MIN - ttl {
        i64::MIN
    } else {
        now + ttl
    }
}

/// The moment `ttl` seconds after `now`, for a `ttl` that is never
/// negative, kept within the range of `i64`.
pub fn seconds_after_unsigned(now: i64, ttl: u64) -> (at: i64)
    ensures
        at == clamp_timestamp(now + ttl),
{
    let sum: i128 = now as i128 + ttl as i128;
    if sum > i64::MAX as i128 {
        i64::MAX
    } else {
        sum as i64
    }
}

} // verus!
