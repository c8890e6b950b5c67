//! Points in time, as chrono parses, formats and compares them.
use vstd::prelude::*;
use chrono::{DateTime, Datelike, Timelike};

verus! {

/// A point in time: whole seconds since 1970-01-01T00:00:00Z and the
/// nanoseconds past that second (from 1_000_000_000 up during a leap
/// second), as chrono's `timestamp` and `timestamp_subsec_nanos` report it.
#[derive(Clone, Copy)]
pub struct Instant {
    pub secs: i64,
    pub nanos: u32,
}

/// The earliest second chrono represents.
pub open spec fn earliest_second() -> int {
    -8_334_601_315_200
}

/// The latest second chrono represents.
pub open spec fn latest_second() -> int {
    8_210_266_876_799
}

/// `(secs, nanos)` is a point in time that chrono represents.
pub open spec fn is_instant(secs: int, nanos: int) -> bool {
    &&& earliest_second() <= secs <= latest_second()
    &&& 0 <= nanos < 2_000_000_000
    &&& nanos >= 1_000_000_000 ==> secs % 60 == 59
}

/// A point in time that an RFC 3339 text can denote: a four-digit year,
/// shifted by an offset of less than a day.
pub open spec fn is_rfc3339_instant(secs: int, nanos: int) -> bool {
    &&& is_instant(secs, nanos)
    &&& -62_167_305_540 <= secs <= 253_402_387_139
}

impl Instant {
    pub open spec fn valid(self) -> bool {
        is_instant(self.secs as int, self.nanos as int)
    }
}

/// What `DateTime::parse_from_rfc3339` makes of a text: `None` where it
/// refuses the text, else the point in time it denotes, as (seconds,
/// nanoseconds).
pub uninterp spec fn rfc3339_instant(text: Seq<char>) -> Option<(i64, u32)>;

/// What `DateTime::to_rfc3339` writes for a point in time, in UTC.
pub uninterp spec fn rfc3339_text(secs: i64, nanos: u32) -> Seq<char>;

/// Integer division that rounds toward zero.
pub open spec fn div_toward_zero(a: int, b: int) -> int
    recommends
        b > 0,
{
    if a >= 0 { a / b } else { -((-a) / b) }
}

/// The whole seconds from the point `earlier` to the point `later` when
/// one of them is a leap second, as chrono counts them: the difference of
/// the seconds, one more when the earlier point is a leap second and the
/// later one falls later in its day (one fewer in the mirror case), plus
/// the difference of the nanoseconds; rounded toward zero.
pub open spec fn leap_whole_seconds_between(
    later_secs: i64,
    later_nanos: u32,
    earlier_secs: i64,
    earlier_nanos: u32,
) -> int {
    let later_of_day = later_secs % 86400;
    let earlier_of_day = earlier_secs % 86400;
    let adjust: int = if later_of_day > earlier_of_day && earlier_nanos >= 1_000_000_000 {
        1
    } else if later_of_day < earlier_of_day && later_nanos >= 1_000_000_000 {
        -1
    } else {
        0
    };
    let frac = later_nanos - earlier_nanos;
    let secs = later_secs - earlier_secs + adjust + frac / 1_000_000_000;
    let nanos = frac % 1_000_000_000;
    if secs < 0 && nanos > 0 { secs + 1 } else { secs }
}

/// The whole seconds from the point `earlier` to the point `later`, as
/// chrono counts them: outside leap seconds, the exact difference rounded
/// toward zero.
pub open spec fn whole_seconds_between(
    later_secs: i64,
    later_nanos: u32,
    earlier_secs: i64,
    earlier_nanos: u32,
) -> int {
    if later_nanos < 1_000_000_000 && earlier_nanos < 1_000_000_000 {
        div_toward_zero(
            (later_secs - earlier_secs) * 1_000_000_000 + (later_nanos - earlier_nanos),
            1_000_000_000,
        )
    } else {
        leap_whole_seconds_between(later_secs, later_nanos, earlier_secs, earlier_nanos)
    }
}

/// Parses an RFC 3339 date and time (`DateTime::parse_from_rfc3339`) and
/// gives the point in time it denotes. The contract claims that the result
/// is the one the name `rfc3339_instant` stands for, and that chrono's
/// parser only accepts four-digit years and offsets of less than a day.
#[verifier::external_body]
pub(crate) fn parse_rfc3339(text: &str) -> (r: Option<Instant>)
    ensures
        match r {
            Some(t) => rfc3339_instant(text@) == Some((t.secs, t.nanos)) && is_rfc3339_instant(
                t.secs as int,
                t.nanos as int,
            ),
            None => rfc3339_instant(text@) is None,
        },
{
    match DateTime::parse_from_rfc3339(text) {
        Ok(dt) => Some(Instant { secs: dt.timestamp(), nanos: dt.timestamp_subsec_nanos() }),
        Err(_) => None,
    }
}

/// Whole seconds from `earlier` to `later`
/// (`later.signed_duration_since(earlier).num_seconds()`). The contract
/// claims what chrono's source computes, leap seconds included.
#[verifier::external_body]
pub(crate) fn seconds_between(later: &Instant, earlier: &Instant) -> (r: i64)
    requires
        later.valid(),
        earlier.valid(),
    ensures
        r == whole_seconds_between(later.secs, later.nanos, earlier.secs, earlier.nanos),
{
    let later = DateTime::from_timestamp(later.secs, later.nanos).unwrap();
    let earlier = DateTime::from_timestamp(earlier.secs, earlier.nanos).unwrap();
    later.signed_duration_since(earlier).num_seconds()
}

/// Writes a point in time as RFC 3339 in UTC (`DateTime::to_rfc3339`).
/// The contract claims only that the text is the named one.
#[verifier::external_body]
pub(crate) fn format_rfc3339(at: &Instant) -> (s: String)
    requires
        at.valid(),
    ensures
        s@ == rfc3339_text(at.secs, at.nanos),
{
    DateTime::from_timestamp(at.secs, at.nanos).unwrap().to_rfc3339()
}

/// Month, day, hour and minute that a clock shows.
#[derive(Clone, Copy)]
pub struct LocalTime {
    pub month: u32,
    pub day: u32,
    pub hour: u32,
    pub minute: u32,
}

/// The (proleptic Gregorian) calendar month, day, hour and minute at a
/// count of seconds since 1970-01-01T00:00:00 on the same clock.
#[verifier::opaque]
pub open spec fn calendar_at(secs: int) -> LocalTime {
    let days = secs / 86400;
    let of_day = secs % 86400;
    let z = days + 719468;
    let era = z / 146097;
    let doe = z - era * 146097;
    let yoe = (doe - doe / 1460 + doe / 36524 - doe / 146096) / 365;
    let doy = doe - (365 * yoe + yoe / 4 - yoe / 100);
    let mp = (5 * doy + 2) / 153;
    let day = doy - (153 * mp + 2) / 5 + 1;
    let month = if mp < 10 { mp + 3 } else { mp - 9 };
    LocalTime {
        month: month as u32,
        day: day as u32,
        hour: (of_day / 3600) as u32,
        minute: ((of_day % 3600) / 60) as u32,
    }
}

/// Month, day, hour and minute in UTC at `secs` seconds since the Unix
/// epoch (`DateTime::from_timestamp`, then `month`, `day`, `hour`,
/// `minute`). The contract claims chrono's proleptic Gregorian calendar.
#[verifier::external_body]
pub(crate) fn utc_calendar(secs: i64) -> (t: LocalTime)
    requires
        earliest_second() <= secs <= latest_second(),
    ensures
        t == calendar_at(secs as int),
{
    let at = DateTime::from_timestamp(secs, 0).unwrap();
    LocalTime { month: at.month(), day: at.day(), hour: at.hour(), minute: at.minute() }
}

impl Instant {
    /// Whether this is a point in time that chrono represents.
    pub fn is_valid(&self) -> (r: bool)
        ensures
            r == self.valid(),
    {
        if self.secs < -8_334_601_315_200 || self.secs > 8_210_266_876_799 || self.nanos >= 2_000_000_000 {
            return false;
        }
        if self.nanos < 1_000_000_000 {
            return true;
        }
        let shifted = (self.secs + 8_334_601_315_200) as u64;
        assert(8_334_601_315_200int % 60 == 0);
        shifted % 60 == 59
    }
}

} // verus!
