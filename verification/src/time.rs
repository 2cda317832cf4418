use vstd::prelude::*;

verus! {

/// Seconds since 1970-01-01 00:00:00 of the earliest instant a timestamp can hold
/// (the first second of the year -262143).
pub const MIN_TIMESTAMP_SECS: i64 = -8334601315200i64;

/// Seconds since 1970-01-01 00:00:00 of the last whole second a timestamp can hold
/// (23:59:59 on the last day of the year 262142).
pub const MAX_TIMESTAMP_SECS: i64 = 8210266876799i64;

/// A UTC date and time without time zone, as the number of seconds since the Unix epoch and the
/// nanoseconds into that second. During a leap second, `nanos` runs from 1_000_000_000 on, and
/// the second is the last one of a minute.
#[derive(Clone, Copy, Debug, PartialEq, Eq, Structural)]
pub struct Timestamp {
    pub secs: i64,
    pub nanos: u32,
}

impl Timestamp {
    /// The instant lies in the supported range, and only the last second of a minute may be a
    /// leap second.
    pub open spec fn wf(self) -> bool {
        &&& MIN_TIMESTAMP_SECS <= self.secs <= MAX_TIMESTAMP_SECS
        &&& (self.nanos < 1_000_000_000 || (self.nanos < 2_000_000_000 && self.secs % 60 == 59))
    }

    pub open spec fn is_leap_second(self) -> bool {
        self.nanos >= 1_000_000_000
    }

    /// `self` lies strictly after `other`.
    pub open spec fn is_after(self, other: Timestamp) -> bool {
        self.secs > other.secs || (self.secs == other.secs && self.nanos > other.nanos)
    }

    /// Seconds part of `self` moved `minutes` minutes later. A leap second is first left forward.
    pub open spec fn secs_plus_minutes(self, minutes: int) -> int {
        self.secs + 60 * minutes
    }

    /// Seconds part of `self` moved `minutes` minutes earlier. A leap second is first left
    /// backward, to the start of the next second.
    pub open spec fn secs_minus_minutes(self, minutes: int) -> int {
        if self.is_leap_second() && minutes > 0 {
            self.secs + 1 - 60 * minutes
        } else {
            self.secs - 60 * minutes
        }
    }

    /// Nanoseconds part after moving by a non-zero number of minutes: a leap second is left.
    pub open spec fn nanos_after_move(self, minutes: int) -> int {
        if self.is_leap_second() && minutes != 0 {
            self.nanos - 1_000_000_000
        } else {
            self.nanos as int
        }
    }

    /// `self` moved `minutes` minutes later.
    pub open spec fn plus_minutes(self, minutes: int) -> Timestamp {
        Timestamp {
            secs: self.secs_plus_minutes(minutes) as i64,
            nanos: self.nanos_after_move(minutes) as u32,
        }
    }

    /// `self` moved `minutes` minutes earlier.
    pub open spec fn minus_minutes(self, minutes: int) -> Timestamp {
        Timestamp {
            secs: self.secs_minus_minutes(minutes) as i64,
            nanos: self.nanos_after_move(minutes) as u32,
        }
    }

    /// The start of the Unix epoch, 1970-01-01 00:00:00.
    pub open spec fn epoch_spec() -> Timestamp {
        Timestamp { secs: 0, nanos: 0 }
    }

    /// The start of the Unix epoch, 1970-01-01 00:00:00, which is what a `NaiveDateTime`
    /// defaults to.
    pub fn epoch() -> (t: Timestamp)
        ensures
            t == Timestamp::epoch_spec(),
            t.wf(),
    {
        Timestamp { secs: 0, nanos: 0 }
    }
}

/// Reads the clock with `chrono::Utc::now` and returns the current instant.
/// Claimed: the result lies in the supported range, after the epoch, and is never a leap second,
/// because `Utc::now` builds it from the seconds and sub-second nanoseconds of a
/// `std::time::Duration` since the epoch. `Utc::now` panics when the system clock is set before
/// the epoch; that condition of the machine is not stated.
#[verifier::external_body]
pub(crate) fn utc_now() -> (t: Timestamp)
    ensures
        t.wf(),
        0 <= t.secs,
        t.nanos < 1_000_000_000,
{
    let now = chrono::Utc::now();
    Timestamp { secs: now.timestamp(), nanos: now.timestamp_subsec_nanos() }
}

/// Adds `chrono::TimeDelta::minutes(minutes)` to the `chrono::NaiveDateTime` that `t` stands
/// for, with `NaiveDateTime + TimeDelta`.
/// Claimed: the result is `t` moved that many minutes later, where a leap second is first left
/// forward (as `NaiveTime::overflowing_add_signed` does), whenever the result stays in range
/// (else the addition panics, which the `requires` leaves out).
#[verifier::external_body]
pub(crate) fn add_minutes(t: Timestamp, minutes: i64) -> (r: Timestamp)
    requires
        t.wf(),
        0 <= minutes <= 1_000_000,
        MIN_TIMESTAMP_SECS <= t.secs_plus_minutes(minutes as int) <= MAX_TIMESTAMP_SECS,
    ensures
        r == t.plus_minutes(minutes as int),
        r.wf(),
{
    let dt = chrono::DateTime::from_timestamp(t.secs, t.nanos).unwrap().naive_utc();
    let moved = (dt + chrono::TimeDelta::minutes(minutes)).and_utc();
    Timestamp { secs: moved.timestamp(), nanos: moved.timestamp_subsec_nanos() }
}

/// Subtracts `chrono::TimeDelta::minutes(minutes)` from the `chrono::NaiveDateTime` that `t`
/// stands for, with `NaiveDateTime - TimeDelta`.
/// Claimed: the result is `t` moved that many minutes earlier, where a leap second is first
/// left towards the next second (as `NaiveTime::overflowing_add_signed` does for a negative
/// delta), whenever the result stays in range (else the subtraction panics, which the
/// `requires` leaves out).
#[verifier::external_body]
pub(crate) fn sub_minutes(t: Timestamp, minutes: i64) -> (r: Timestamp)
    requires
        t.wf(),
        0 <= minutes <= 1_000_000,
        MIN_TIMESTAMP_SECS <= t.secs_minus_minutes(minutes as int) <= MAX_TIMESTAMP_SECS,
    ensures
        r == t.minus_minutes(minutes as int),
        r.wf(),
{
    let dt = chrono::DateTime::from_timestamp(t.secs, t.nanos).unwrap().naive_utc();
    let moved = (dt - chrono::TimeDelta::minutes(minutes)).and_utc();
    Timestamp { secs: moved.timestamp(), nanos: moved.timestamp_subsec_nanos() }
}

/// Nanoseconds since the epoch of an instant that is not a leap second.
pub open spec fn nanos_since_epoch(t: Timestamp) -> int {
    t.secs * 1_000_000_000 + t.nanos
}

/// Law: away from leap seconds, `b` lies before the instant one minute after `a` exactly when
/// fewer than 60 seconds pass from `a` to `b`.
pub proof fn lemma_one_minute_later(a: Timestamp, b: Timestamp)
    requires
        a.wf(),
        b.wf(),
        a.nanos < 1_000_000_000,
        b.nanos < 1_000_000_000,
    ensures
        a.plus_minutes(1).is_after(b) <==> nanos_since_epoch(b) - nanos_since_epoch(a)
            < 60_000_000_000,
        b.minus_minutes(1).is_after(a) <==> nanos_since_epoch(b) - nanos_since_epoch(a)
            > 60_000_000_000,
{
}

/// Whether `a` lies strictly after `b`, in the order of `chrono::NaiveDateTime`.
pub fn is_after(a: Timestamp, b: Timestamp) -> (r: bool)
    ensures
        r == a.is_after(b),
{
    a.secs > b.secs || (a.secs == b.secs && a.nanos > b.nanos)
}

} // verus!
