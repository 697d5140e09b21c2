//! Points in time, as `chrono` reads and writes them.
use vstd::prelude::*;

verus! {

/// The milliseconds since 1970 of a point in time that `chrono` reads from an RFC 3339 text;
/// nothing if the text is none.
pub uninterp spec fn rfc3339_millis(text: Seq<char>) -> Option<i64>;

/// The RFC 3339 text that `chrono` writes, in UTC, for a point in time in its calendar, given by
/// its seconds since 1970 and the nanoseconds behind them.
pub uninterp spec fn utc_rfc3339(secs: i64, nanos: u32) -> Seq<char>;

/// `chrono::DateTime::parse_from_rfc3339` reads a point in time, or fails if the text is none,
/// and depends on the text alone. The time is taken by its `timestamp_millis`.
#[verifier::external_body]
pub(crate) fn millis_of_rfc3339(text: &str) -> (r: Option<i64>)
    ensures
        r == rfc3339_millis(text@),
{
    chrono::DateTime::parse_from_rfc3339(text).ok().map(|time| time.timestamp_millis())
}

/// `chrono::DateTime::to_rfc3339` of the time in UTC with these seconds and nanoseconds depends on
/// them alone. There is such a time for every pair in the calendar: `from_timestamp` makes it of
/// the seconds, and `with_nanosecond` takes any nanoseconds below two seconds.
#[verifier::external_body]
pub(crate) fn rfc3339_of_utc(secs: i64, nanos: u32) -> (r: String)
    requires
        in_calendar(secs, nanos),
    ensures
        r@ == utc_rfc3339(secs, nanos),
{
    chrono::DateTime::from_timestamp(secs, 0)
        .and_then(|time| chrono::Timelike::with_nanosecond(&time.naive_utc(), nanos))
        .map(|time| time.and_utc().to_rfc3339())
        .unwrap_or_default()
}

/// The seconds since 1970 of the earliest and the latest time in `chrono`'s calendar.
pub const EARLIEST_SECS: i64 = -8_334_601_228_800;

pub const LATEST_SECS: i64 = 8_210_266_876_799;

/// A point in time by its seconds since 1970 and the nanoseconds behind them, within `chrono`'s
/// calendar. A leap second has more than a second's nanoseconds.
pub open spec fn in_calendar(secs: i64, nanos: u32) -> bool {
    EARLIEST_SECS <= secs <= LATEST_SECS && nanos < 2_000_000_000
}

/// The milliseconds since 1970 of a point in time.
pub open spec fn millis_of(secs: i64, nanos: u32) -> int {
    secs * 1000 + nanos as int / 1_000_000
}

/// Whether a point in time is within the calendar.
pub fn fits_calendar(secs: i64, nanos: u32) -> (r: bool)
    ensures
        r == in_calendar(secs, nanos),
{
    EARLIEST_SECS <= secs && secs <= LATEST_SECS && nanos < 2_000_000_000
}

/// The milliseconds since 1970 of a point in time.
pub fn millis(secs: i64, nanos: u32) -> (r: i64)
    requires
        in_calendar(secs, nanos),
    ensures
        r == millis_of(secs, nanos),
{
    secs * 1000 + (nanos / 1_000_000) as i64
}

/// Milliseconds count up with the time: a second is a thousand of them, and a part of one is left
/// out.
pub proof fn law_millis_measure_the_time(secs: i64, nanos: u32)
    ensures
        millis_of(secs, nanos) * 1_000_000 <= secs * 1_000_000_000 + nanos,
        secs * 1_000_000_000 + nanos < (millis_of(secs, nanos) + 1) * 1_000_000,
{
}

/// Every time of the years one to 9999 is in the calendar.
pub proof fn law_ordinary_times_are_in_the_calendar(secs: i64, nanos: u32)
    requires
        -62_135_596_800 <= secs <= 253_402_300_799,
        nanos < 2_000_000_000,
    ensures
        in_calendar(secs, nanos),
{
}

} // verus!
