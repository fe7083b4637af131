//! Arithmetic on dates and on moments given in seconds since the Unix
//! epoch.

use vstd::prelude::*;
use vstd::string::*;
use crate::clock::{clamp_timestamp, today_utc, unix_now};
use crate::text::{decimal, signed_decimal_text};

verus! {

/// Seconds in a day.
pub const SECONDS_PER_DAY: i64 = 86400;

/// A day of the calendar.
#[derive(Debug, Clone, Copy, PartialEq, Eq)]
pub struct CalendarDate {
    pub year: i32,
    pub month: u32,
    pub day: u32,
}

/// The age in full years on `today` of someone born on `birth`: the
/// difference of the years, less one where the birthday of this year is
/// still to come.
pub open spec fn age_on(birth: CalendarDate, today: CalendarDate) -> int {
    let years = today.year - birth.year;
    if today.month < birth.month || (today.month == birth.month && today.day < birth.day) {
        years - 1
    } else {
        years
    }
}

/// Calculate age in years from a date, as of `today`.
pub fn calculate_age_on(birth: &CalendarDate, today: &CalendarDate) -> (age: i64)
    ensures
        age == age_on(*birth, *today),
{
    let mut age: i64 = today.year as i64 - birth.year as i64;
    if today.month < birth.month || (today.month == birth.month && today.day < birth.day) {
        age -= 1;
    }
    age
}

/// Calculate age in years from a date, as of today by the clock of this
/// machine.
pub fn calculate_age(birth: &CalendarDate) -> (age: i64)
    ensures
        exists|today: CalendarDate| age == #[trigger] age_on(*birth, today),
{
    let today = today_utc();
    calculate_age_on(birth, &today)
}

/// How long ago something happened, in words, given the seconds that
/// have passed since: in seconds below a minute, in minutes below an
/// hour, in hours below a day, in days below thirty days, in months of
/// thirty days below 365 days, and in years of 365 days from then on.
pub open spec fn ago_text(elapsed: int) -> Seq<char> {
    if elapsed < 60 {
        decimal(elapsed) + " seconds ago"@
    } else if elapsed < 3600 {
        decimal(elapsed / 60) + " minutes ago"@
    } else if elapsed < 86400 {
        decimal(elapsed / 3600) + " hours ago"@
    } else if elapsed < 30 * 86400 {
        decimal(elapsed / 86400) + " days ago"@
    } else if elapsed < 365 * 86400 {
        decimal(elapsed / 86400 / 30) + " months ago"@
    } else {
        decimal(elapsed / 86400 / 365) + " years ago"@
    }
}

/// Calculate time difference in a human-readable format, given the
/// seconds that have passed.
pub fn time_ago_of(elapsed: i64) -> (text: String)
    ensures
        text@ == ago_text(elapsed as int),
{
    let (count, unit): (i64, &'static str) = if elapsed < 60 {
        (elapsed, " seconds ago")
    } else if elapsed < 3600 {
        (elapsed / 60, " minutes ago")
    } else if elapsed < 86400 {
        (elapsed / 3600, " hours ago")
    } else if elapsed < 30 * 86400 {
        (elapsed / 86400, " days ago")
    } else if elapsed < 365 * 86400 {
        (elapsed / 86400 / 30, " months ago")
    } else {
        (elapsed / 86400 / 365, " years ago")
    };
    let mut text = signed_decimal_text(count);
    text.append(unit);
    text
}

/// Calculate time difference in a human-readable format between the
/// moment `then` and the moment `now`.
pub fn time_ago_at(then: i64, now: i64) -> (text: String)
    ensures
        text@ == ago_text(clamp_timestamp(now - then) as int),
{
    let elapsed: i128 = now as i128 - then as i128;
    let elapsed: i64 = if elapsed > i64::MAX as i128 {
        i64::MAX
    } else if elapsed < i64::MIN as i128 {
        i64::MIN
    } else {
        elapsed as i64
    };
    time_ago_of(elapsed)
}

/// Calculate time difference in a human-readable format between the
/// moment `then` and now, by the clock of this machine.
pub fn time_ago(then: i64) -> (text: String)
    ensures
        exists|now: i64| text@ == ago_text(#[trigger] clamp_timestamp(now - then) as int),
{
    let now = unix_now();
    time_ago_at(then, now)
}

/// The first second of the day, in UTC, that the moment `t` falls on.
pub open spec fn day_start(t: int) -> int {
    t - t % 86400
}

/// Get the start of a day (midnight) for a given moment.
pub fn start_of_day(moment: i64) -> (start: i64)
    requires
        moment >= i64::MIN + SECONDS_PER_DAY,
    ensures
        start == day_start(moment as int),
        start <= moment < start + 86400,
        start % 86400 == 0,
{
    let within: i64 = if moment >= 0 {
        moment % SECONDS_PER_DAY
    } else {
        // The remainder of a negative moment, counted from the day's start.
        let back: i64 = (-(moment + 1)) % SECONDS_PER_DAY;
        SECONDS_PER_DAY - 1 - back
    };
    moment - within
}

/// Get the end of a day (23:59:59) for a given moment.
pub fn end_of_day(moment: i64) -> (end: i64)
    requires
        i64::MIN + SECONDS_PER_DAY <= moment <= i64::MAX - SECONDS_PER_DAY,
    ensures
        end == day_start(moment as int) + 86399,
        moment <= end,
{
    start_of_day(moment) + (SECONDS_PER_DAY - 1)
}

/// The moment `days` days after `now`, kept within the range of `i64`.
pub fn days_from(now: i64, days: i64) -> (then: i64)
    ensures
        then == clamp_timestamp(now + days * 86400),
{
    let shift: i128 = days as i128 * 86400;
    let sum: i128 = now as i128 + shift;
    if sum > i64::MAX as i128 {
        i64::MAX
    } else if sum < i64::MIN as i128 {
        i64::MIN
    } else {
        sum as i64
    }
}

/// Calculate the date that is a specified number of days in the future.
pub fn days_from_now(days: i64) -> (then: i64)
    ensures
        exists|now: i64| then == #[trigger] clamp_timestamp(now + days * 86400),
{
    let now = unix_now();
    days_from(now, days)
}

/// The moment `days` days before `now`, kept within the range of `i64`.
pub fn days_before(now: i64, days: i64) -> (then: i64)
    ensures
        then == clamp_timestamp(now - days * 86400),
{
    let shift: i128 = days as i128 * 86400;
    let difference: i128 = now as i128 - shift;
    if difference > i64::MAX as i128 {
        i64::MAX
    } else if difference < i64::MIN as i128 {
        i64::MIN
    } else {
        difference as i64
    }
}

/// Calculate the date that is a specified number of days in the past.
pub fn days_ago(days: i64) -> (then: i64)
    ensures
        exists|now: i64| then == #[trigger] clamp_timestamp(now - days * 86400),
{
    let now = unix_now();
    days_before(now, days)
}

} // verus!
