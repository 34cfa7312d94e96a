//! Points in time, counted from the Unix epoch.

use vstd::prelude::*;

verus! {

/// The number of seconds in a day without a leap second.
pub const SECONDS_PER_DAY: i64 = 86_400;

/// The day number that `chrono` gives to 1970-01-01, counted from 0001-01-01 as day 1.
pub const EPOCH_DAY: i64 = 719_163;

/// One second in nanoseconds.
pub const NANOS_PER_SECOND: u32 = 1_000_000_000;

/// A point in time: the whole seconds since 1970-01-01 00:00:00 UTC, leap
/// seconds not counted, and the nanoseconds that have passed of the next one.
#[derive(Clone, Copy, Debug, PartialEq, Eq, Structural)]
pub struct Timestamp {
    pub secs: i64,
    pub nanos: u32,
}

impl Timestamp {
    /// The point in time `days` whole days after this one.
    pub open spec fn spec_plus_days(self, days: u8) -> Timestamp {
        Timestamp { secs: (self.secs + days * SECONDS_PER_DAY) as i64, nanos: self.nanos }
    }

    /// Whether a clock reading can have this value: its day number fits the
    /// 32 bits that `chrono` keeps it in, and it lies inside a second.
    pub open spec fn is_clock_reading(self) -> bool {
        &&& self.secs / SECONDS_PER_DAY + EPOCH_DAY <= i32::MAX
        &&& self.nanos < NANOS_PER_SECOND
    }

    /// The point in time `days` whole days after this one.
    #[verifier::when_used_as_spec(spec_plus_days)]
    pub fn plus_days(self, days: u8) -> (later: Timestamp)
        requires
            self.secs + days * SECONDS_PER_DAY <= i64::MAX,
        ensures
            later == self.spec_plus_days(days),
            later.secs == self.secs + days * SECONDS_PER_DAY,
            later.nanos == self.nanos,
    {
        let span: i64 = (days as i64) * SECONDS_PER_DAY;
        Timestamp { secs: self.secs + span, nanos: self.nanos }
    }
}

/// A clock reading is far enough from the end of `i64` for any `u8` of days
/// to be added to it.
pub proof fn lemma_clock_reading_has_room(t: Timestamp, days: u8)
    requires
        t.is_clock_reading(),
    ensures
        t.secs + days * SECONDS_PER_DAY <= i64::MAX,
{
}

/// The current time, from `chrono::Utc::now`, as the `timestamp` and the
/// `timestamp_subsec_nanos` of the `DateTime` it returns.
///
/// Not proved: `now` builds its result with `DateTime::from_timestamp` from the
/// system clock's whole seconds and the nanoseconds of the running second, so
/// the nanoseconds are below one second, and `from_timestamp` accepts no
/// second whose day number, `secs.div_euclid(86_400) + 719_163`, is above
/// `i32::MAX`.
#[verifier::external_body]
pub(crate) fn now() -> (t: Timestamp)
    ensures
        t.is_clock_reading(),
{
    let reading = chrono::Utc::now();
    Timestamp { secs: reading.timestamp(), nanos: reading.timestamp_subsec_nanos() }
}

} // verus!
