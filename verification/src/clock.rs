//! The calendar that sessions expire by.
use vstd::prelude::*;

verus! {

/// The last second, counted from 1970 on, that the calendar knows: the end of the year 262142.
pub const LAST_SECOND: i64 = 8_210_266_876_799;

/// How long a session lasts.
pub const SESSION_HOURS: i64 = 2;

/// Whether `seconds` is a time from 1970 on that the calendar knows.
pub open spec fn in_calendar(seconds: int) -> bool {
    0 <= seconds <= LAST_SECOND
}

/// The time `hours` after `seconds`, where the calendar knows it.
pub open spec fn hours_after(seconds: int, hours: int) -> Option<int> {
    if seconds + 3600 * hours <= LAST_SECOND {
        Some(seconds + 3600 * hours)
    } else {
        None
    }
}

/// `chrono::Utc::now` and `DateTime::timestamp`: the clock of the machine, in whole seconds
/// since 1970. Of the reading no more is claimed than that the calendar knows it: `now` ends
/// in a panic on a machine whose clock stands outside it.
#[verifier::external_body]
pub(crate) fn utc_now() -> (seconds: i64)
    ensures
        in_calendar(seconds as int),
{
    chrono::Utc::now().timestamp()
}

/// Whether the clock was read and showed the time `now`.
pub closed spec fn clock_showed(now: int) -> bool {
    exists|seconds: i64| seconds == now && #[trigger] call_ensures(utc_now, (), seconds)
}

/// Reads the clock.
pub(crate) fn read_clock() -> (now: i64)
    ensures
        in_calendar(now as int),
        clock_showed(now as int),
{
    utc_now()
}

/// What the clock showed is what a reading of it gave.
pub(crate) proof fn readings_give_what_the_clock_showed(now: int)
    requires
        clock_showed(now),
    ensures
        exists|seconds: i64| seconds == now && #[trigger] call_ensures(utc_now, (), seconds),
{
}

/// `DateTime::checked_add_signed` of `chrono`, with a duration made by `Duration::hours`: the
/// time that many hours later, or nothing where the calendar ends before it.
#[verifier::external_body]
pub(crate) fn checked_add_hours(seconds: i64, hours: i64) -> (later: Option<i64>)
    requires
        in_calendar(seconds as int),
        0 <= hours <= 1_000_000,
    ensures
        later is Some <==> hours_after(seconds as int, hours as int) is Some,
        later matches Some(t) ==> hours_after(seconds as int, hours as int) == Some(t as int),
{
    let time = chrono::DateTime::from_timestamp(seconds, 0)?;
    time.checked_add_signed(chrono::Duration::hours(hours)).map(|later| later.timestamp())
}

/// The expiry of a session that starts at `now`, where the calendar knows it.
pub open spec fn expiry(now: int) -> Option<usize> {
    match hours_after(now, SESSION_HOURS as int) {
        Some(t) => Some(t as usize),
        None => None,
    }
}

/// Computes when a session that starts at `now` expires.
pub fn session_expiry(now: i64) -> (exp: Option<usize>)
    requires
        in_calendar(now as int),
    ensures
        exp == expiry(now as int),
{
    match checked_add_hours(now, SESSION_HOURS) {
        Some(t) => Some(t as usize),
        None => None,
    }
}

} // verus!
