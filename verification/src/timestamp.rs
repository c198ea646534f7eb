//! Points in time, with the clock and the calendar of the `chrono` crate behind them.
use chrono::{DateTime, Duration, Utc};
use vstd::prelude::*;

verus! {

/// The first second of the calendar, counted from 1970-01-01 00:00:00 UTC.
pub const MIN_SECS: i64 = -8_334_601_228_800;

/// The last second of the calendar, counted from 1970-01-01 00:00:00 UTC.
pub const MAX_SECS: i64 = 8_210_266_876_799;

/// A point in time in UTC: `secs` whole seconds since 1970-01-01 00:00:00, and `nanos`
/// nanoseconds into the second.
#[derive(Clone, Copy, Debug, PartialEq, Eq, Structural)]
pub struct Timestamp {
    pub secs: i64,
    pub nanos: u32,
}

/// All of the times lie in the calendar, and none before 1970.
spec fn are_recent(times: Set<Timestamp>) -> bool {
    forall|time: Timestamp| #[trigger] times.contains(time) ==> time.valid() && time.secs >= 0
}

/// The times that the system clock gives: some times of the calendar, not before 1970.
spec fn clock_readings() -> Set<Timestamp> {
    choose|times: Set<Timestamp>| are_recent(times)
}

impl Timestamp {
    /// The calendar has this point in time, and it lies in no leap second.
    pub open spec fn valid(self) -> bool {
        &&& MIN_SECS <= self.secs <= MAX_SECS
        &&& self.nanos < 1_000_000_000
    }

    /// The point in time `seconds` later, where the calendar has it.
    pub open spec fn later(self, seconds: int) -> Option<Timestamp> {
        if MIN_SECS <= self.secs + seconds <= MAX_SECS {
            Some(Timestamp { secs: (self.secs + seconds) as i64, nanos: self.nanos })
        } else {
            None
        }
    }

    /// The system clock gave this time. Which times it gives is not said: that a time is one of
    /// them is known only where `now` has given it.
    pub closed spec fn read_from_clock(self) -> bool {
        clock_readings().contains(self)
    }

    /// The present time, as `chrono::Utc::now` reads it from the system clock. Trusted: the clock
    /// gives a point of the calendar that is not before 1970, and never one in a leap second.
    /// Which point it is depends on when the clock is read, and nothing is said of it but that the
    /// clock gave it. Where the system clock is set before 1970 or beyond the calendar, the reading
    /// panics.
    #[verifier::external_body]
    pub(crate) fn now() -> (res: Timestamp)
        ensures
            res.valid(),
            res.secs >= 0,
            res.read_from_clock(),
    {
        let now: DateTime<Utc> = Utc::now();
        Timestamp { secs: now.timestamp(), nanos: now.timestamp_subsec_nanos() }
    }

    /// The sum of a `chrono::DateTime<Utc>` and a `chrono::Duration` of whole seconds. Trusted:
    /// within the calendar, and for a point in no leap second, the sum is that many seconds later
    /// and equally far into its second. Outside the calendar the addition panics.
    #[verifier::external_body]
    fn plus(self, seconds: i64) -> (res: Timestamp)
        requires
            self.valid(),
            MIN_SECS <= self.secs + seconds <= MAX_SECS,
        ensures
            res.secs == self.secs + seconds,
            res.nanos == self.nanos,
    {
        let start = DateTime::<Utc>::from_timestamp(self.secs, self.nanos).unwrap();
        let sum = start + Duration::seconds(seconds);
        Timestamp { secs: sum.timestamp(), nanos: sum.timestamp_subsec_nanos() }
    }

    /// The point in time `seconds` later, or `None` where the calendar ends before it.
    pub fn checked_add_seconds(self, seconds: i64) -> (res: Option<Timestamp>)
        requires
            self.valid(),
        ensures
            res == self.later(seconds as int),
            match res {
                Some(sum) => {
                    &&& sum.valid()
                    &&& sum.secs == self.secs + seconds
                    &&& sum.nanos == self.nanos
                },
                None => self.secs + seconds < MIN_SECS || self.secs + seconds > MAX_SECS,
            },
    {
        if seconds <= MAX_SECS - self.secs && seconds >= MIN_SECS - self.secs {
            Some(self.plus(seconds))
        } else {
            None
        }
    }
}

/// Later by no time is the same time, later by two spans is later by their sum, and the calendar
/// has the later time exactly when it lies between the first and the last second.
pub proof fn lemma_later(time: Timestamp, a: int, b: int)
    requires
        time.valid(),
    ensures
        time.later(0) == Some(time),
        time.later(a) is Some <==> MIN_SECS <= time.secs + a <= MAX_SECS,
        time.later(a) matches Some(after) ==> {
            &&& after.valid()
            &&& after.secs - time.secs == a
            &&& after.nanos == time.nanos
            &&& after.later(b) == time.later(a + b)
        },
{
}

/// The clock gives only times of the calendar, and none before 1970.
pub proof fn lemma_clock_reading(time: Timestamp)
    requires
        time.read_from_clock(),
    ensures
        time.valid(),
        time.secs >= 0,
{
    assert(are_recent(Set::empty()));
}

} // verus!
