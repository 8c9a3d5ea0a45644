//! Points in time and spans of time, as the task queue counts them.
//!
//! A point in time is a number of microseconds since the Unix epoch, UTC;
//! a span of time is a number of milliseconds. Both are read and computed
//! by `chrono`, through the trusted functions below.

use vstd::prelude::*;

verus! {

/// Earliest point in time that `chrono` can represent: January 1, 262143 BCE.
pub const MIN_TIMESTAMP_MICROS: i64 = -8334601315200000000i64;

/// Latest point in time that `chrono` can represent: the last microsecond
/// of December 31, 262142 CE.
pub const MAX_TIMESTAMP_MICROS: i64 = 8210266876799999999i64;

/// `t` (microseconds since the epoch) is a point in time that `chrono` can represent.
pub open spec fn in_time_range(t: int) -> bool {
    MIN_TIMESTAMP_MICROS <= t <= MAX_TIMESTAMP_MICROS
}

/// A signed span of time, in whole milliseconds.
///
/// Like `chrono::TimeDelta`, it spans at most `i64::MAX` milliseconds
/// either way.
#[derive(Clone, Copy, Debug, PartialEq, Eq, Hash)]
pub struct TimeDelta {
    millis: i64,
}

/// Milliseconds in a second, a minute and a day.
pub const MILLIS_PER_SECOND: i64 = 1000i64;
pub const MILLIS_PER_MINUTE: i64 = 60000i64;
pub const MILLIS_PER_DAY: i64 = 86400000i64;

impl TimeDelta {
    #[verifier::type_invariant]
    spec fn bounded(self) -> bool {
        self.millis >= -i64::MAX
    }

    /// The span, in milliseconds.
    pub closed spec fn spec_millis(self) -> i64 {
        self.millis
    }

    /// A span of `millis` milliseconds.
    pub fn milliseconds(millis: i64) -> (d: TimeDelta)
        requires
            millis >= -i64::MAX,
        ensures
            d.spec_millis() == millis,
    {
        TimeDelta { millis }
    }

    /// A span of `secs` seconds.
    pub fn seconds(secs: i64) -> (d: TimeDelta)
        requires
            -(i64::MAX / MILLIS_PER_SECOND) <= secs <= i64::MAX / MILLIS_PER_SECOND,
        ensures
            d.spec_millis() == secs * MILLIS_PER_SECOND,
    {
        TimeDelta { millis: secs * MILLIS_PER_SECOND }
    }

    /// A span of `mins` minutes.
    pub fn minutes(mins: i64) -> (d: TimeDelta)
        requires
            -(i64::MAX / MILLIS_PER_MINUTE) <= mins <= i64::MAX / MILLIS_PER_MINUTE,
        ensures
            d.spec_millis() == mins * MILLIS_PER_MINUTE,
    {
        TimeDelta { millis: mins * MILLIS_PER_MINUTE }
    }

    /// A span of `days` days.
    pub fn days(days: i64) -> (d: TimeDelta)
        requires
            -(i64::MAX / MILLIS_PER_DAY) <= days <= i64::MAX / MILLIS_PER_DAY,
        ensures
            d.spec_millis() == days * MILLIS_PER_DAY,
    {
        TimeDelta { millis: days * MILLIS_PER_DAY }
    }

    /// The span, in milliseconds; never `i64::MIN`.
    pub fn num_milliseconds(&self) -> (r: i64)
        ensures
            r == self.spec_millis(),
            r >= -i64::MAX,
    {
        proof {
            use_type_invariant(self);
        }
        self.millis
    }
}

/// The point in time `delta_ms` milliseconds after `at_us`, when both it and
/// `at_us` lie within chrono's range; `None` otherwise.
pub open spec fn spec_add_millis(at_us: i64, delta_ms: i64) -> Option<i64> {
    if in_time_range(at_us as int) && in_time_range(at_us + delta_ms * 1000) {
        Some((at_us + delta_ms * 1000) as i64)
    } else {
        None
    }
}

/// Adds `delta_ms` milliseconds to the point in time `at_us`.
///
/// Trusted: calls `chrono::DateTime::<Utc>::from_timestamp_micros`, then
/// `checked_add_signed` with `TimeDelta::milliseconds(delta_ms)`, and reads
/// the result back with `timestamp_micros`. The contract claims what chrono's
/// source shows: the sum, when both `at_us` and the sum lie within chrono's
/// range of dates, and `None` otherwise. `TimeDelta::milliseconds` panics on
/// `i64::MIN`, which `requires` leaves out.
#[verifier::external_body]
pub(crate) fn checked_add_millis(at_us: i64, delta_ms: i64) -> (r: Option<i64>)
    requires
        delta_ms >= -i64::MAX,
    ensures
        r == spec_add_millis(at_us, delta_ms),
{
    match chrono::DateTime::from_timestamp_micros(at_us) {
        Some(at) => at.checked_add_signed(chrono::TimeDelta::milliseconds(delta_ms)).map(|t| t.timestamp_micros()),
        None => None,
    }
}

/// The calendar date, UTC, of the point in time `t`: year, month and day of
/// the month, as chrono reckons them.
pub uninterp spec fn utc_date(t: i64) -> (i32, u32, u32);

/// The UTC calendar date of `t`.
///
/// Trusted: calls `chrono::DateTime::<Utc>::from_timestamp_micros` and reads
/// `year`, `month` and `day` of the result. The contract names the date,
/// which depends on `t` alone; `requires` keeps `t` within chrono's range,
/// where the conversion succeeds.
#[verifier::external_body]
pub(crate) fn utc_date_of(t: i64) -> (r: (i32, u32, u32))
    requires
        in_time_range(t as int),
    ensures
        r == utc_date(t),
{
    match chrono::DateTime::from_timestamp_micros(t) {
        Some(d) => (chrono::Datelike::year(&d), chrono::Datelike::month(&d), chrono::Datelike::day(&d)),
        None => (0, 0, 0),
    }
}

/// The current point in time.
///
/// Trusted: calls `chrono::Utc::now` and reads it with `timestamp_micros`.
/// Only that it is a point in time chrono can represent is claimed; which
/// one depends on the clock.
#[verifier::external_body]
pub(crate) fn now_micros() -> (r: i64)
    ensures
        in_time_range(r as int),
{
    chrono::Utc::now().timestamp_micros()
}

/// A second is 1000 milliseconds, a minute 60000, a day 86400000.
pub proof fn law_span_units()
    ensures
        MILLIS_PER_SECOND == 1000,
        MILLIS_PER_MINUTE == 60 * MILLIS_PER_SECOND,
        MILLIS_PER_DAY == 24 * 60 * MILLIS_PER_MINUTE,
{
}

/// Adding a span within chrono's range gives the point that many
/// microseconds later; leaving the range, or starting outside it, gives
/// nothing.
pub proof fn law_add_millis_is_the_sum(at_us: i64, delta_ms: i64)
    ensures
        MIN_TIMESTAMP_MICROS <= at_us <= MAX_TIMESTAMP_MICROS
            && MIN_TIMESTAMP_MICROS <= at_us + delta_ms * 1000 <= MAX_TIMESTAMP_MICROS
            ==> spec_add_millis(at_us, delta_ms) == Some((at_us + delta_ms * 1000) as i64),
        !(MIN_TIMESTAMP_MICROS <= at_us <= MAX_TIMESTAMP_MICROS && MIN_TIMESTAMP_MICROS <= at_us + delta_ms * 1000 <= MAX_TIMESTAMP_MICROS)
            ==> spec_add_millis(at_us, delta_ms) is None,
{
}

} // verus!
