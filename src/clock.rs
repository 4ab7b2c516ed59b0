use vstd::prelude::*;

use crate::error::{Error, EOVERFLOW};

verus! {

/// Raw clock id of the wall clock.
pub const CLOCK_REALTIME: i32 = 0;

/// Raw clock id of the clock that only moves forward, stopping in suspend.
pub const CLOCK_MONOTONIC: i32 = 1;

/// Raw clock id of the boot-time clock that can wake the machine.
pub const CLOCK_BOOTTIME_ALARM: i32 = 9;

/// Microseconds in one second.
pub const USEC_PER_SEC: i64 = 1_000_000;

/// Nanoseconds in one second.
pub const NSEC_PER_SEC: i64 = 1_000_000_000;

/// The clocks a timer or a timestamp can be measured against.
#[derive(Clone, Copy, Debug, PartialEq, Eq, Structural)]
pub enum Clock {
    Realtime,
    Monotonic,
    BoottimeAlarm,
    /// A raw clock id that has no variant of its own.
    Unknown(i32),
}

impl Clock {
    pub open spec fn spec_from_raw(r: i32) -> Clock {
        if r == CLOCK_REALTIME {
            Clock::Realtime
        } else if r == CLOCK_MONOTONIC {
            Clock::Monotonic
        } else if r == CLOCK_BOOTTIME_ALARM {
            Clock::BoottimeAlarm
        } else {
            Clock::Unknown(r)
        }
    }

    pub open spec fn spec_into_raw(self) -> i32 {
        match self {
            Clock::Realtime => CLOCK_REALTIME,
            Clock::Monotonic => CLOCK_MONOTONIC,
            Clock::BoottimeAlarm => CLOCK_BOOTTIME_ALARM,
            Clock::Unknown(r) => r,
        }
    }

    pub fn from_raw(r: i32) -> (c: Clock)
        ensures
            c == Clock::spec_from_raw(r),
            c.spec_into_raw() == r,
    {
        if r == CLOCK_REALTIME {
            Clock::Realtime
        } else if r == CLOCK_MONOTONIC {
            Clock::Monotonic
        } else if r == CLOCK_BOOTTIME_ALARM {
            Clock::BoottimeAlarm
        } else {
            Clock::Unknown(r)
        }
    }

    pub fn into_raw(self) -> (r: i32)
        ensures
            r == self.spec_into_raw(),
    {
        match self {
            Clock::Realtime => CLOCK_REALTIME,
            Clock::Monotonic => CLOCK_MONOTONIC,
            Clock::BoottimeAlarm => CLOCK_BOOTTIME_ALARM,
            Clock::Unknown(r) => r,
        }
    }
}

/// A signed span of time in whole microseconds.
#[derive(Clone, Copy, Debug, PartialEq, Eq, Structural)]
pub struct Duration {
    usec: i64,
}

impl View for Duration {
    type V = int;

    closed spec fn view(&self) -> int {
        self.usec as int
    }
}

impl Duration {
    pub fn microseconds(usec: i64) -> (d: Duration)
        ensures
            d@ == usec,
    {
        Duration { usec }
    }

    pub fn milliseconds(msec: i64) -> (d: Duration)
        requires
            i64::MIN <= msec * 1000 <= i64::MAX,
        ensures
            d@ == msec * 1000,
    {
        Duration { usec: msec * 1000 }
    }

    pub fn seconds(sec: i64) -> (d: Duration)
        requires
            i64::MIN <= sec * USEC_PER_SEC <= i64::MAX,
        ensures
            d@ == sec * USEC_PER_SEC,
    {
        Duration { usec: sec * USEC_PER_SEC }
    }

    pub fn num_microseconds(&self) -> (r: i64)
        ensures
            r == self@,
    {
        self.usec
    }
}

/// A point in time on one clock, as microseconds since that clock's epoch.
/// Each clock has a type of its own, so instants of two clocks never mix.
pub trait ClockTimestamp: Sized {
    /// The microsecond count the instant stands for.
    spec fn spec_usec(&self) -> u64;

    /// The instant `usec` microseconds after the epoch.
    spec fn spec_from_usec(usec: u64) -> Self;

    /// The clock the instants of this type are read from.
    spec fn spec_clock() -> Clock;

    proof fn lemma_usec_of_from_usec(usec: u64)
        ensures
            Self::spec_from_usec(usec).spec_usec() == usec,
    ;

    fn clock() -> (c: Clock)
        ensures
            c == Self::spec_clock(),
    ;

    fn from_usec(usec: u64) -> (t: Self)
        ensures
            t == Self::spec_from_usec(usec),
    ;

    fn as_usec(&self) -> (r: u64)
        ensures
            r == self.spec_usec(),
    ;
}

/// Reading back the microseconds of an instant built from `usec` gives `usec`,
/// on every clock.
pub proof fn lemma_usec_round_trip<T: ClockTimestamp>(usec: u64)
    ensures
        T::spec_from_usec(usec).spec_usec() == usec,
{
    T::lemma_usec_of_from_usec(usec);
}

/// An instant of the wall clock.
#[derive(Clone, Copy, Debug, PartialEq, Eq, Structural)]
pub struct RealtimeClockTimestamp(u64);

impl ClockTimestamp for RealtimeClockTimestamp {
    closed spec fn spec_usec(&self) -> u64 {
        self.0
    }

    closed spec fn spec_from_usec(usec: u64) -> Self {
        RealtimeClockTimestamp(usec)
    }

    open spec fn spec_clock() -> Clock {
        Clock::Realtime
    }

    proof fn lemma_usec_of_from_usec(usec: u64) {
    }

    fn clock() -> (c: Clock) {
        Clock::Realtime
    }

    fn from_usec(usec: u64) -> (t: Self) {
        RealtimeClockTimestamp(usec)
    }

    fn as_usec(&self) -> (r: u64) {
        self.0
    }
}

impl RealtimeClockTimestamp {
    /// The instant `rhs` after this one.
    pub fn add(self, rhs: Duration) -> (r: RealtimeClockTimestamp)
        requires
            0 <= self.spec_usec() + rhs@ <= u64::MAX,
        ensures
            r.spec_usec() == self.spec_usec() + rhs@,
    {
        RealtimeClockTimestamp(((self.0 as i128) + (rhs.num_microseconds() as i128)) as u64)
    }
}

/// An instant of the monotonic clock.
#[derive(Clone, Copy, Debug, PartialEq, Eq, Structural)]
pub struct MonotonicClockTimestamp(u64);

impl ClockTimestamp for MonotonicClockTimestamp {
    closed spec fn spec_usec(&self) -> u64 {
        self.0
    }

    closed spec fn spec_from_usec(usec: u64) -> Self {
        MonotonicClockTimestamp(usec)
    }

    open spec fn spec_clock() -> Clock {
        Clock::Monotonic
    }

    proof fn lemma_usec_of_from_usec(usec: u64) {
    }

    fn clock() -> (c: Clock) {
        Clock::Monotonic
    }

    fn from_usec(usec: u64) -> (t: Self) {
        MonotonicClockTimestamp(usec)
    }

    fn as_usec(&self) -> (r: u64) {
        self.0
    }
}

impl MonotonicClockTimestamp {
    /// The instant `rhs` after this one.
    pub fn add(self, rhs: Duration) -> (r: MonotonicClockTimestamp)
        requires
            0 <= self.spec_usec() + rhs@ <= u64::MAX,
        ensures
            r.spec_usec() == self.spec_usec() + rhs@,
    {
        MonotonicClockTimestamp(((self.0 as i128) + (rhs.num_microseconds() as i128)) as u64)
    }
}

/// Whether a clock reading of `sec` seconds and `nsec` nanoseconds is a
/// well-formed instant whose microsecond count fits in a `u64`.
pub open spec fn timespec_fits(sec: i64, nsec: i64) -> bool {
    &&& sec >= 0
    &&& 0 <= nsec < NSEC_PER_SEC
    &&& sec * USEC_PER_SEC + nsec / 1000 <= u64::MAX
}

/// The microsecond count of a clock reading of `sec` seconds and `nsec`
/// nanoseconds, the nanoseconds below a whole microsecond dropped.
pub fn usec_from_timespec(sec: i64, nsec: i64) -> (r: Result<u64, Error>)
    ensures
        timespec_fits(sec, nsec) ==> r == Ok::<u64, Error>(
            (sec * USEC_PER_SEC + nsec / 1000) as u64,
        ),
        !timespec_fits(sec, nsec) ==> r == Err::<u64, Error>(Error::OsFailure(EOVERFLOW)),
{
    if sec < 0 || nsec < 0 || nsec >= NSEC_PER_SEC {
        return Err(Error::OsFailure(EOVERFLOW));
    }
    let whole: u64 = (sec as u64);
    let frac: u64 = (nsec / 1000) as u64;
    if whole > (u64::MAX - frac) / (USEC_PER_SEC as u64) {
        return Err(Error::OsFailure(EOVERFLOW));
    }
    Ok(whole * (USEC_PER_SEC as u64) + frac)
}

} // verus!
