use libsystemd::{
    usec_from_timespec, Clock, ClockTimestamp, Duration, Error, MonotonicClockTimestamp,
    RealtimeClockTimestamp,
};

#[test]
fn clock_raw_values() {
    assert_eq!(Clock::from_raw(0), Clock::Realtime);
    assert_eq!(Clock::from_raw(1), Clock::Monotonic);
    assert_eq!(Clock::from_raw(9), Clock::BoottimeAlarm);
    assert_eq!(Clock::from_raw(7), Clock::Unknown(7));
    assert_eq!(Clock::Realtime.into_raw(), 0);
    assert_eq!(Clock::Monotonic.into_raw(), 1);
    assert_eq!(Clock::BoottimeAlarm.into_raw(), 9);
    assert_eq!(Clock::Unknown(11).into_raw(), 11);
}

#[test]
fn timestamp_types_name_their_clock() {
    assert_eq!(RealtimeClockTimestamp::clock(), Clock::Realtime);
    assert_eq!(MonotonicClockTimestamp::clock(), Clock::Monotonic);
}

#[test]
fn usec_round_trip() {
    for x in [0u64, 1, 1_000_000, 1_445_000_000_123_456, u64::MAX] {
        assert_eq!(RealtimeClockTimestamp::from_usec(x).as_usec(), x);
        assert_eq!(MonotonicClockTimestamp::from_usec(x).as_usec(), x);
    }
}

#[test]
fn adding_a_duration() {
    let t = MonotonicClockTimestamp::from_usec(10_000_000);
    assert_eq!(t.add(Duration::seconds(1)).as_usec(), 11_000_000);
    assert_eq!(t.add(Duration::milliseconds(500)).as_usec(), 10_500_000);
    assert_eq!(t.add(Duration::microseconds(-10_000_000)).as_usec(), 0);
    let r = RealtimeClockTimestamp::from_usec(u64::MAX - 1);
    assert_eq!(r.add(Duration::microseconds(1)).as_usec(), u64::MAX);
    let big = RealtimeClockTimestamp::from_usec(u64::MAX);
    assert_eq!(big.add(Duration::microseconds(-1)).as_usec(), u64::MAX - 1);
}

#[test]
fn duration_units() {
    assert_eq!(Duration::milliseconds(5).num_microseconds(), 5_000);
    assert_eq!(Duration::seconds(-3).num_microseconds(), -3_000_000);
    assert_eq!(Duration::microseconds(42).num_microseconds(), 42);
}

#[test]
fn clock_reading_to_usec() {
    assert_eq!(usec_from_timespec(0, 0), Ok(0));
    assert_eq!(usec_from_timespec(12, 345_678_999), Ok(12_345_678));
    assert_eq!(usec_from_timespec(1, 999), Ok(1_000_000));
    assert_eq!(usec_from_timespec(-1, 0), Err(Error::OsFailure(75)));
    assert_eq!(usec_from_timespec(5, 1_000_000_000), Err(Error::OsFailure(75)));
    assert_eq!(usec_from_timespec(5, -1), Err(Error::OsFailure(75)));
    assert_eq!(usec_from_timespec(i64::MAX, 0), Err(Error::OsFailure(75)));
    let max_sec = (u64::MAX / 1_000_000) as i64;
    assert_eq!(
        usec_from_timespec(max_sec, 0),
        Ok(max_sec as u64 * 1_000_000)
    );
}
