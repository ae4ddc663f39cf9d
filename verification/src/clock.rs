//! The wall clock and calendar keys, read through `chrono`.

use vstd::prelude::*;
use chrono::Timelike;

verus! {

/// The month (`%Y-%m`) of a Unix time in seconds, when chrono can represent it.
pub uninterp spec fn month_key_of(ts: i64) -> Option<Seq<char>>;

/// The day (`%Y-%m-%d`) of a Unix time in seconds, when chrono can represent it.
pub uninterp spec fn day_key_of(ts: i64) -> Option<Seq<char>>;

/// The calendar year and ISO week (`%Y-W%V`) of a Unix time in
/// seconds, when chrono can represent it.
pub uninterp spec fn week_key_of(ts: i64) -> Option<Seq<char>>;

/// The hour of the day (UTC) of a Unix time in seconds, when chrono can
/// represent it.
pub uninterp spec fn hour_of_day(ts: i64) -> Option<u32>;

/// chrono can represent the Unix time `ts` (whole seconds, UTC).
pub open spec fn time_ok(ts: i64) -> bool {
    &&& month_key_of(ts) is Some
    &&& day_key_of(ts) is Some
    &&& week_key_of(ts) is Some
    &&& hour_of_day(ts) is Some
}

/// The view of an optional string.
pub open spec fn opt_string_view(o: Option<String>) -> Option<Seq<char>> {
    match o {
        Some(s) => Some(s@),
        None => None,
    }
}

/// The current Unix time in whole seconds, from `chrono::Utc::now()`.
/// Nothing is stated of its value, which is the time; it is a time that
/// chrono represents, since `DateTime::from_timestamp` round-trips with
/// `DateTime::timestamp`.
#[verifier::external_body]
pub fn utc_now_secs() -> (r: i64)
    ensures
        time_ok(r),
{
    chrono::Utc::now().timestamp()
}

/// Formats the month of `ts` with `DateTime::format("%Y-%m")`; `None` when
/// `DateTime::from_timestamp` rejects `ts`.
#[verifier::external_body]
pub fn month_key(ts: i64) -> (r: Option<String>)
    ensures
        opt_string_view(r) == month_key_of(ts),
{
    chrono::DateTime::from_timestamp(ts, 0).map(|d| d.format("%Y-%m").to_string())
}

/// Formats the day of `ts` with `format("%Y-%m-%d")` on its UTC date; `None`
/// when `DateTime::from_timestamp` rejects `ts`.
#[verifier::external_body]
pub fn day_key(ts: i64) -> (r: Option<String>)
    ensures
        opt_string_view(r) == day_key_of(ts),
{
    chrono::DateTime::from_timestamp(ts, 0).map(|d| d.date_naive().format("%Y-%m-%d").to_string())
}

/// Formats the calendar year and ISO week of `ts` with
/// `DateTime::format("%Y-W%V")` (the week two digits wide); `None` when
/// `DateTime::from_timestamp` rejects `ts`.
#[verifier::external_body]
pub fn week_key(ts: i64) -> (r: Option<String>)
    ensures
        opt_string_view(r) == week_key_of(ts),
{
    chrono::DateTime::from_timestamp(ts, 0).map(|d| d.format("%Y-W%V").to_string())
}

/// The hour (0 to 23) of `ts` in UTC, from `Timelike::hour`: the seconds
/// into the day (counted from midnight, also before 1970) divided by 3600;
/// `None` when `DateTime::from_timestamp` rejects `ts`.
#[verifier::external_body]
pub fn hour_of(ts: i64) -> (r: Option<u32>)
    ensures
        r == hour_of_day(ts),
        r matches Some(h) ==> h as int == (ts as int % 86400) / 3600,
{
    chrono::DateTime::from_timestamp(ts, 0).map(|d| d.hour())
}

/// The monotonic clock's instants, carried opaquely.
#[verifier::external_type_specification]
#[verifier::external_body]
pub struct ExInstant(std::time::Instant);

/// The current instant of the monotonic clock, from `std::time::Instant::now`.
/// Nothing is stated of it: it is the time.
#[verifier::external_body]
pub fn instant_now() -> (r: std::time::Instant) {
    std::time::Instant::now()
}

/// The time from `earlier` to `later` in nanoseconds, from
/// `Instant::duration_since` and `Duration::as_nanos` (zero when `earlier` is
/// the later one). Nothing is stated of its value: the instants are opaque.
#[verifier::external_body]
pub fn nanos_between(later: std::time::Instant, earlier: std::time::Instant) -> (r: u128) {
    later.duration_since(earlier).as_nanos()
}

/// The RFC 3339 form of a Unix time in seconds, when chrono can represent it.
pub uninterp spec fn rfc3339_of(ts: i64) -> Option<Seq<char>>;

/// Formats `ts` with `DateTime::to_rfc3339`; `None` when
/// `DateTime::from_timestamp` rejects `ts`.
#[verifier::external_body]
pub fn rfc3339(ts: i64) -> (r: Option<String>)
    ensures
        opt_string_view(r) == rfc3339_of(ts),
{
    chrono::DateTime::from_timestamp(ts, 0).map(|d| d.to_rfc3339())
}

/// The whole seconds since the Unix epoch by the system clock, from
/// `SystemTime::now().duration_since(UNIX_EPOCH)` and `Duration::as_secs`
/// (0 when the clock stands before the epoch). Nothing is stated of the
/// value: it is the time.
#[verifier::external_body]
pub fn unix_time_secs() -> (r: u64) {
    std::time::SystemTime::now().duration_since(std::time::UNIX_EPOCH).unwrap_or_default().as_secs()
}

/// The milliseconds since the Unix epoch by the system clock, from
/// `SystemTime::now().duration_since(UNIX_EPOCH)` and `Duration::as_millis`
/// (0 when the clock stands before the epoch). Nothing is stated of the
/// value: it is the time.
#[verifier::external_body]
pub fn unix_time_millis() -> (r: u64) {
    std::time::SystemTime::now().duration_since(std::time::UNIX_EPOCH).unwrap_or_default().as_millis() as u64
}

} // verus!
