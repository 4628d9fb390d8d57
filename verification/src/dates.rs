//! The library's own model of an instant: non-leap milliseconds since the
//! Unix epoch, normalized to UTC. The one thing only a calendar library can
//! compute — which civil date and time of day an instant falls on — is taken
//! from chrono behind a trusted wrapper; the whole-years (age) computation on
//! top of it is verified here.

use vstd::prelude::*;
use chrono::{Datelike, Timelike};

verus! {

/// An absolute instant in time, held as non-leap milliseconds since the Unix
/// epoch, normalized to UTC.
#[derive(Clone, Copy, PartialEq, Eq, Structural, Debug)]
pub struct Timestamp {
    pub millis: i64,
}

/// Instants this far from the epoch (about 126,000 years either way) stay
/// comfortably inside chrono's representable range of dates.
pub const MIN_MILLIS: i64 = -4_000_000_000_000_000;
pub const MAX_MILLIS: i64 = 4_000_000_000_000_000;

/// The civil date and time of day that an instant (milliseconds since the
/// epoch, UTC) falls on: `(year, month, day, milliseconds of the day)`.
/// Left uninterpreted; `civil_of_millis` below ties it to chrono.
pub uninterp spec fn civil_of(millis: int) -> (int, int, int, int);

/// Relies on chrono: `DateTime::<Utc>::from_timestamp_millis` followed by
/// `Datelike::year`/`month`/`day` and `Timelike::num_seconds_from_midnight`
/// with `DateTime::timestamp_subsec_millis`. The civil fields are a function
/// of the instant alone; chrono's year range is `-262143..=262142`, months
/// are `1..=12`, days `1..=31`, and a day holds fewer than 86,400,000
/// milliseconds (instants on a whole millisecond never fall on a leap
/// second).
#[verifier::external_body]
pub(crate) fn civil_of_millis(millis: i64) -> (r: (i32, u8, u8, u32))
    requires
        MIN_MILLIS <= millis <= MAX_MILLIS,
    ensures
        (r.0 as int, r.1 as int, r.2 as int, r.3 as int) == civil_of(millis as int),
        -262_143 <= r.0 <= 262_142,
        1 <= r.1 <= 12,
        1 <= r.2 <= 31,
        r.3 < 86_400_000,
{
    let dt = chrono::DateTime::<chrono::Utc>::from_timestamp_millis(millis).unwrap();
    let ms_of_day = dt.num_seconds_from_midnight() * 1000 + dt.timestamp_subsec_millis();
    (dt.year(), dt.month() as u8, dt.day() as u8, ms_of_day)
}

/// Relies on chrono: `Utc::now` read out with `DateTime::timestamp_millis`.
/// The wall clock decides the value; nothing is promised of it.
#[verifier::external_body]
pub(crate) fn now_millis() -> (r: i64)
{
    chrono::Utc::now().timestamp_millis()
}

/// The signed number of whole calendar years from the instant `dob` to the
/// instant `now`: the year difference, less one when `now`'s month, day and
/// time of day have not yet reached `dob`'s.
pub open spec fn whole_years_spec(dob: int, now: int) -> int {
    let c1 = civil_of(dob);
    let c2 = civil_of(now);
    c2.0 - c1.0 - if c2.1 < c1.1 || (c2.1 == c1.1 && (c2.2 < c1.2 || (c2.2 == c1.2
        && c2.3 < c1.3))) {
        1int
    } else {
        0int
    }
}

/// The age at instant `now` of someone born at instant `dob`: the whole
/// calendar years elapsed, and zero when `now` lies before `dob`.
pub open spec fn age_spec(dob: int, now: int) -> int {
    if whole_years_spec(dob, now) >= 0 {
        whole_years_spec(dob, now)
    } else {
        0int
    }
}

/// An age is never negative.
pub proof fn lemma_age_nonneg(dob: int, now: int)
    ensures
        age_spec(dob, now) >= 0,
{
}

/// Whole-year ages are exact: when `now` falls in the calendar year `n` years
/// after `dob`'s, on the same month and day and at the same time of day, the
/// age is exactly `n`.
pub proof fn lemma_age_exact_years(dob: int, now: int, n: int)
    requires
        n >= 0,
        civil_of(now).0 == civil_of(dob).0 + n,
        civil_of(now).1 == civil_of(dob).1,
        civil_of(now).2 == civil_of(dob).2,
        civil_of(now).3 == civil_of(dob).3,
    ensures
        age_spec(dob, now) == n,
{
}

/// The number of whole calendar years between two instants, clamped at zero.
pub fn whole_years_between(dob: i64, now: i64) -> (r: u32)
    requires
        MIN_MILLIS <= dob <= MAX_MILLIS,
        MIN_MILLIS <= now <= MAX_MILLIS,
    ensures
        r as int == age_spec(dob as int, now as int),
{
    let (y1, m1, d1, t1) = civil_of_millis(dob);
    let (y2, m2, d2, t2) = civil_of_millis(now);
    let earlier: bool = m2 < m1 || (m2 == m1 && (d2 < d1 || (d2 == d1 && t2 < t1)));
    let years: i64 = (y2 as i64) - (y1 as i64) - (if earlier {
        1i64
    } else {
        0i64
    });
    if years < 0 {
        0u32
    } else {
        years as u32
    }
}

} // verus!
