use vstd::prelude::*;

verus! {

/// Error code for an argument that the callee refuses.
pub const EINVAL: i32 = 22;

/// Error code for a value too large for the type that should hold it.
pub const EOVERFLOW: i32 = 75;

/// Every failure that the library reports.
#[derive(Clone, Copy, Debug, PartialEq, Eq, Structural)]
pub enum Error {
    /// The operating system or libsystemd reported a failure; the field is
    /// the (positive) error code.
    OsFailure(i32),
    /// An argument was refused before it reached the operating system: a
    /// negative duration, or a string with an embedded NUL.
    InvalidInput,
}

impl Error {
    /// The error for a status `-errno` returned by a libsystemd call.
    pub fn from_negative_errno(errno: i32) -> (r: Error)
        requires
            errno != i32::MIN,
        ensures
            r == Error::OsFailure((-errno) as i32),
    {
        Error::OsFailure(-errno)
    }
}

/// Reads a libsystemd status: a negative one is the negated error code, any
/// other is handed back as the call's result.
pub fn check_status(rv: i32) -> (r: Result<i32, Error>)
    requires
        rv != i32::MIN,
    ensures
        rv >= 0 ==> r == Ok::<i32, Error>(rv),
        rv < 0 ==> r == Err::<i32, Error>(Error::OsFailure((-rv) as i32)),
{
    if rv < 0 {
        Err(Error::from_negative_errno(rv))
    } else {
        Ok(rv)
    }
}

} // verus!
