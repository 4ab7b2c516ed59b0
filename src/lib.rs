//! Typed building blocks for driving libsystemd's event loop: error codes,
//! clock-tagged timestamps, source and loop states, and I/O interest masks.

pub mod clock;
pub mod daemon;
pub mod error;
pub mod event;
pub mod mask;

pub use clock::{
    usec_from_timespec,
    Clock,
    ClockTimestamp,
    Duration,
    MonotonicClockTimestamp,
    RealtimeClockTimestamp,
};
pub use error::{check_status, Error};
pub use event::{
    accuracy_from_usec,
    callback_status,
    duration_usec,
    run_outcome,
    EventSourceEnabled,
    EventState,
};
pub use mask::{IoEventMask, IoEventMaskBuilder, IoEventTriggering};
pub use daemon::{
    check_notify_state,
    listen_fds_from_status,
    watchdog_from_status,
    SD_LISTEN_FDS_START,
};
