use vstd::prelude::*;

use std::ops::Range;

use crate::error::{Error, EOVERFLOW};

verus! {

/// The first file descriptor that socket activation passes to a service.
pub const SD_LISTEN_FDS_START: i32 = 3;

/// The descriptors passed by socket activation, from the count that
/// `sd_listen_fds` returned: none for a count of zero, else the `rv`
/// descriptors from `SD_LISTEN_FDS_START` on.
pub fn listen_fds_from_status(rv: i32) -> (r: Result<Option<Range<i32>>, Error>)
    requires
        rv != i32::MIN,
    ensures
        rv < 0 ==> r == Err::<Option<Range<i32>>, Error>(Error::OsFailure((-rv) as i32)),
        rv == 0 ==> r == Ok::<Option<Range<i32>>, Error>(None),
        0 < rv <= i32::MAX - SD_LISTEN_FDS_START ==> (r matches Ok(Some(fds)) && fds.start
            == SD_LISTEN_FDS_START && fds.end == SD_LISTEN_FDS_START + rv),
        rv > i32::MAX - SD_LISTEN_FDS_START ==> r == Err::<Option<Range<i32>>, Error>(
            Error::OsFailure(EOVERFLOW),
        ),
{
    if rv < 0 {
        Err(Error::from_negative_errno(rv))
    } else if rv == 0 {
        Ok(None)
    } else if rv > i32::MAX - SD_LISTEN_FDS_START {
        Err(Error::OsFailure(EOVERFLOW))
    } else {
        Ok(Some(Range { start: SD_LISTEN_FDS_START, end: SD_LISTEN_FDS_START + rv }))
    }
}

/// The watchdog interval from what `sd_watchdog_enabled` returned: the
/// interval `usec` it wrote when the status is positive, none when it is zero.
pub fn watchdog_from_status(rv: i32, usec: u64) -> (r: Result<Option<u64>, Error>)
    requires
        rv != i32::MIN,
    ensures
        rv < 0 ==> r == Err::<Option<u64>, Error>(Error::OsFailure((-rv) as i32)),
        rv == 0 ==> r == Ok::<Option<u64>, Error>(None),
        rv > 0 ==> r == Ok::<Option<u64>, Error>(Some(usec)),
{
    if rv < 0 {
        Err(Error::from_negative_errno(rv))
    } else if rv > 0 {
        Ok(Some(usec))
    } else {
        Ok(None)
    }
}

/// Checks a status text before it is handed to `sd_notify` as a C string:
/// one with an embedded NUL would be cut short there, and is refused.
pub fn check_notify_state(state: &str) -> (r: Result<(), Error>)
    ensures
        state@.contains('\0') <==> r == Err::<(), Error>(Error::InvalidInput),
        !state@.contains('\0') <==> r == Ok::<(), Error>(()),
{
    let n = state.unicode_len();
    let mut i: usize = 0;
    while i < n
        invariant
            n == state@.len(),
            i <= n,
            forall|j: int| 0 <= j < i ==> state@[j] != '\0',
        decreases n - i,
    {
        if state.get_char(i) == '\0' {
            return Err(Error::InvalidInput);
        }
        i += 1;
    }
    Ok(())
}

} // verus!
