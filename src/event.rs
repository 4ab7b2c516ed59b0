use vstd::prelude::*;

use crate::clock::Duration;
use crate::error::{Error, EOVERFLOW};

verus! {

/// Raw `sd_event` loop states.
pub const SD_EVENT_INITIAL: i32 = 0;
pub const SD_EVENT_ARMED: i32 = 1;
pub const SD_EVENT_PENDING: i32 = 2;
pub const SD_EVENT_RUNNING: i32 = 3;
pub const SD_EVENT_EXITING: i32 = 4;
pub const SD_EVENT_FINISHED: i32 = 5;

/// Error code a callback reports to libsystemd when it panicked instead of
/// returning.
pub const ECANCELED: i32 = 125;

/// Raw `sd_event_source` enabled states.
pub const SD_EVENT_OFF: i32 = 0;
pub const SD_EVENT_ON: i32 = 1;
pub const SD_EVENT_ONESHOT: i32 = -1;

/// The state of an event loop, as libsystemd reports it.
#[derive(Clone, Copy, Debug, PartialEq, Eq, Structural)]
pub enum EventState {
    Initial,
    Armed,
    Pending,
    Running,
    Exiting,
    Finished,
    /// A raw state that has no variant of its own.
    Unknown(i32),
}

impl EventState {
    pub open spec fn spec_from_raw(r: i32) -> EventState {
        if r == SD_EVENT_INITIAL {
            EventState::Initial
        } else if r == SD_EVENT_ARMED {
            EventState::Armed
        } else if r == SD_EVENT_PENDING {
            EventState::Pending
        } else if r == SD_EVENT_RUNNING {
            EventState::Running
        } else if r == SD_EVENT_EXITING {
            EventState::Exiting
        } else if r == SD_EVENT_FINISHED {
            EventState::Finished
        } else {
            EventState::Unknown(r)
        }
    }

    pub open spec fn spec_into_raw(self) -> i32 {
        match self {
            EventState::Initial => SD_EVENT_INITIAL,
            EventState::Armed => SD_EVENT_ARMED,
            EventState::Pending => SD_EVENT_PENDING,
            EventState::Running => SD_EVENT_RUNNING,
            EventState::Exiting => SD_EVENT_EXITING,
            EventState::Finished => SD_EVENT_FINISHED,
            EventState::Unknown(r) => r,
        }
    }

    pub fn from_raw(r: i32) -> (s: EventState)
        ensures
            s == EventState::spec_from_raw(r),
            s.spec_into_raw() == r,
    {
        if r == SD_EVENT_INITIAL {
            EventState::Initial
        } else if r == SD_EVENT_ARMED {
            EventState::Armed
        } else if r == SD_EVENT_PENDING {
            EventState::Pending
        } else if r == SD_EVENT_RUNNING {
            EventState::Running
        } else if r == SD_EVENT_EXITING {
            EventState::Exiting
        } else if r == SD_EVENT_FINISHED {
            EventState::Finished
        } else {
            EventState::Unknown(r)
        }
    }

    pub fn into_raw(self) -> (r: i32)
        ensures
            r == self.spec_into_raw(),
    {
        match self {
            EventState::Initial => SD_EVENT_INITIAL,
            EventState::Armed => SD_EVENT_ARMED,
            EventState::Pending => SD_EVENT_PENDING,
            EventState::Running => SD_EVENT_RUNNING,
            EventState::Exiting => SD_EVENT_EXITING,
            EventState::Finished => SD_EVENT_FINISHED,
            EventState::Unknown(r) => r,
        }
    }
}

/// Whether a source may fire: never, whenever it is ready, or once more.
#[derive(Clone, Copy, Debug, PartialEq, Eq, Structural)]
pub enum EventSourceEnabled {
    Off,
    On,
    /// Fires once more, then turns itself `Off`.
    OneShot,
    /// A raw value that has no variant of its own.
    Unknown(i32),
}

impl EventSourceEnabled {
    pub open spec fn spec_from_raw(r: i32) -> EventSourceEnabled {
        if r == SD_EVENT_OFF {
            EventSourceEnabled::Off
        } else if r == SD_EVENT_ON {
            EventSourceEnabled::On
        } else if r == SD_EVENT_ONESHOT {
            EventSourceEnabled::OneShot
        } else {
            EventSourceEnabled::Unknown(r)
        }
    }

    pub open spec fn spec_into_raw(self) -> i32 {
        match self {
            EventSourceEnabled::Off => SD_EVENT_OFF,
            EventSourceEnabled::On => SD_EVENT_ON,
            EventSourceEnabled::OneShot => SD_EVENT_ONESHOT,
            EventSourceEnabled::Unknown(r) => r,
        }
    }

    pub fn from_raw(r: i32) -> (e: EventSourceEnabled)
        ensures
            e == EventSourceEnabled::spec_from_raw(r),
            e.spec_into_raw() == r,
    {
        if r == SD_EVENT_OFF {
            EventSourceEnabled::Off
        } else if r == SD_EVENT_ON {
            EventSourceEnabled::On
        } else if r == SD_EVENT_ONESHOT {
            EventSourceEnabled::OneShot
        } else {
            EventSourceEnabled::Unknown(r)
        }
    }

    pub fn into_raw(self) -> (r: i32)
        ensures
            r == self.spec_into_raw(),
    {
        match self {
            EventSourceEnabled::Off => SD_EVENT_OFF,
            EventSourceEnabled::On => SD_EVENT_ON,
            EventSourceEnabled::OneShot => SD_EVENT_ONESHOT,
            EventSourceEnabled::Unknown(r) => r,
        }
    }
}

/// The microsecond count handed to libsystemd for a timeout or a timer
/// accuracy: a negative duration is refused.
pub fn duration_usec(d: Duration) -> (r: Result<u64, Error>)
    ensures
        d@ < 0 <==> r == Err::<u64, Error>(Error::InvalidInput),
        d@ >= 0 <==> r == Ok::<u64, Error>(d@ as u64),
{
    let usec = d.num_microseconds();
    if usec < 0 {
        Err(Error::InvalidInput)
    } else {
        Ok(usec as u64)
    }
}

/// The result of one dispatch pass from the status `sd_event_run` returned:
/// `true` when a source was dispatched, so that more work may remain.
pub fn run_outcome(rv: i32) -> (r: Result<bool, Error>)
    requires
        rv != i32::MIN,
    ensures
        rv > 0 ==> r == Ok::<bool, Error>(true),
        rv == 0 ==> r == Ok::<bool, Error>(false),
        rv < 0 ==> r == Err::<bool, Error>(Error::OsFailure((-rv) as i32)),
{
    if rv < 0 {
        Err(Error::from_negative_errno(rv))
    } else {
        Ok(rv > 0)
    }
}

/// The accuracy of a timer, read back from libsystemd as a microsecond count.
pub fn accuracy_from_usec(usec: u64) -> (r: Result<Duration, Error>)
    ensures
        usec <= i64::MAX ==> (r matches Ok(d) && d@ == usec),
        usec > i64::MAX ==> r == Err::<Duration, Error>(Error::OsFailure(EOVERFLOW)),
{
    if usec > i64::MAX as u64 {
        Err(Error::OsFailure(EOVERFLOW))
    } else {
        Ok(Duration::microseconds(usec as i64))
    }
}

/// The status a dispatched callback hands back to libsystemd: what the
/// callback returned, or, when it panicked (`None`), a negative error code,
/// which makes libsystemd treat the loop as failed.
pub fn callback_status(outcome: Option<i32>) -> (r: i32)
    ensures
        outcome matches Some(v) ==> r == v,
        outcome is None ==> r == -ECANCELED,
{
    match outcome {
        Some(v) => v,
        None => -ECANCELED,
    }
}

} // verus!
