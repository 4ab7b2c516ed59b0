use libsystemd::{
    accuracy_from_usec, callback_status, check_status, duration_usec, run_outcome, Duration,
    Error, EventSourceEnabled, EventState,
};

#[test]
fn smoke() {
    assert_eq!(EventSourceEnabled::from_raw(0), EventSourceEnabled::Off);
    assert_eq!(EventSourceEnabled::from_raw(1), EventSourceEnabled::On);
    assert_eq!(EventSourceEnabled::from_raw(-1), EventSourceEnabled::OneShot);
    assert_eq!(EventSourceEnabled::from_raw(2), EventSourceEnabled::Unknown(2));

    assert_eq!(EventSourceEnabled::Off.into_raw(), 0);
    assert_eq!(EventSourceEnabled::On.into_raw(), 1);
    assert_eq!(EventSourceEnabled::OneShot.into_raw(), -1);
    assert_eq!(EventSourceEnabled::Unknown(2).into_raw(), 2);
}

#[test]
fn event_state_raw_values() {
    let states = [
        (0, EventState::Initial),
        (1, EventState::Armed),
        (2, EventState::Pending),
        (3, EventState::Running),
        (4, EventState::Exiting),
        (5, EventState::Finished),
        (6, EventState::Unknown(6)),
        (-7, EventState::Unknown(-7)),
    ];
    for (raw, state) in states {
        assert_eq!(EventState::from_raw(raw), state);
        assert_eq!(state.into_raw(), raw);
    }
}

#[test]
fn negative_durations_are_invalid_input() {
    assert_eq!(duration_usec(Duration::microseconds(-1)), Err(Error::InvalidInput));
    assert_eq!(duration_usec(Duration::milliseconds(-5)), Err(Error::InvalidInput));
    assert_eq!(duration_usec(Duration::microseconds(i64::MIN)), Err(Error::InvalidInput));
}

#[test]
fn non_negative_durations_are_accepted() {
    assert_eq!(duration_usec(Duration::microseconds(0)), Ok(0));
    assert_eq!(duration_usec(Duration::milliseconds(5)), Ok(5_000));
    assert_eq!(duration_usec(Duration::seconds(2)), Ok(2_000_000));
    assert_eq!(duration_usec(Duration::microseconds(i64::MAX)), Ok(i64::MAX as u64));
}

#[test]
fn run_outcome_reads_status() {
    assert_eq!(run_outcome(1), Ok(true));
    assert_eq!(run_outcome(0), Ok(false));
    assert_eq!(run_outcome(-22), Err(Error::OsFailure(22)));
    assert_eq!(run_outcome(-116), Err(Error::OsFailure(116)));
}

#[test]
fn status_and_errno() {
    assert_eq!(check_status(0), Ok(0));
    assert_eq!(check_status(7), Ok(7));
    assert_eq!(check_status(-2), Err(Error::OsFailure(2)));
    assert_eq!(Error::from_negative_errno(-22), Error::OsFailure(22));
    assert_eq!(Error::from_negative_errno(-1), Error::OsFailure(1));
}

#[test]
fn accuracy_read_back() {
    assert_eq!(accuracy_from_usec(250_000).map(|d| d.num_microseconds()), Ok(250_000));
    assert_eq!(accuracy_from_usec(0).map(|d| d.num_microseconds()), Ok(0));
    assert_eq!(
        accuracy_from_usec(i64::MAX as u64).map(|d| d.num_microseconds()),
        Ok(i64::MAX)
    );
    assert_eq!(accuracy_from_usec(u64::MAX), Err(Error::OsFailure(75)));
}

#[test]
fn panicked_callback_reports_failure() {
    assert_eq!(callback_status(Some(0)), 0);
    assert_eq!(callback_status(Some(3)), 3);
    assert_eq!(callback_status(Some(-5)), -5);
    assert_eq!(callback_status(None), -125);
}
