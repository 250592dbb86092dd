//! Instants on the UTC time line, and the calendar arithmetic done on them.

use vstd::prelude::*;

verus! {

/// Nanoseconds in one second.
pub const NANOS_PER_SEC: u32 = 1_000_000_000;

/// Seconds in one day.
pub const SECS_PER_DAY: i64 = 86_400;

/// An instant: whole seconds since the Unix epoch and the nanoseconds past
/// that second.
#[derive(Clone, Copy, Debug, PartialEq, Eq, Structural)]
pub struct Timestamp {
    pub secs: i64,
    pub nanos: u32,
}

impl Timestamp {
    /// Strictly earlier on the time line.
    pub open spec fn is_before(self, other: Timestamp) -> bool {
        self.secs < other.secs || (self.secs == other.secs && self.nanos < other.nanos)
    }

    /// The instant `nanos` nanoseconds past the second `secs`.
    pub fn new(secs: i64, nanos: u32) -> (t: Timestamp)
        ensures
            t.secs == secs,
            t.nanos == nanos,
    {
        Timestamp { secs, nanos }
    }

    /// Whether `self` lies strictly before `other`.
    pub fn before(&self, other: &Timestamp) -> (r: bool)
        ensures
            r == self.is_before(*other),
    {
        self.secs < other.secs || (self.secs == other.secs && self.nanos < other.nanos)
    }

    /// Whole seconds since the Unix epoch.
    pub fn timestamp(&self) -> (r: i64)
        ensures
            r == self.secs,
    {
        self.secs
    }
}

/// What `chrono` gives for the instant `days` whole days before
/// `(secs, nanos)`: the seconds and nanoseconds of the result, or `None`
/// where one of the inputs or the result lies outside what `chrono`
/// represents.
pub uninterp spec fn chrono_days_before(secs: i64, nanos: u32, days: i64) -> Option<(i64, u32)>;

/// The reading of the system clock, from `chrono::Utc::now`.
///
/// Nothing is claimed of the value: it depends on the clock. `chrono` does
/// not return where the clock reads a time before the Unix epoch.
#[verifier::external_body]
pub(crate) fn clock_now() -> (t: Timestamp) {
    let now = chrono::Utc::now();
    Timestamp { secs: now.timestamp(), nanos: now.timestamp_subsec_nanos() }
}

/// `days` whole days subtracted from `t`, through
/// `chrono::DateTime::from_timestamp`, `chrono::TimeDelta::try_days` and
/// `chrono::DateTime::checked_sub_signed`.
///
/// Claimed: the result is a function of the arguments, named
/// `chrono_days_before`; and where `t` is no leap second and a result
/// exists, it lies exactly `days * 86_400` seconds earlier with the same
/// nanoseconds, since `chrono` counts every day as 86 400 seconds.
#[verifier::external_body]
pub(crate) fn days_before(t: Timestamp, days: i64) -> (r: Option<Timestamp>)
    ensures
        match r {
            Some(c) => chrono_days_before(t.secs, t.nanos, days) == Some((c.secs, c.nanos)),
            None => chrono_days_before(t.secs, t.nanos, days) is None,
        },
        r is Some && t.nanos < NANOS_PER_SEC ==> r.unwrap().secs == t.secs - days * SECS_PER_DAY
            && r.unwrap().nanos == t.nanos,
{
    let instant = chrono::DateTime::from_timestamp(t.secs, t.nanos)?;
    let span = chrono::TimeDelta::try_days(days)?;
    let earlier = instant.checked_sub_signed(span)?;
    Some(Timestamp { secs: earlier.timestamp(), nanos: earlier.timestamp_subsec_nanos() })
}

} // verus!
