//! The library's error taxonomy, and the mapping of the pipeline's integer
//! status codes into it.
use vstd::prelude::*;

verus! {

/// Which operation failed.
#[derive(Clone, Copy, Debug, PartialEq, Eq, Structural)]
pub enum ErrorKind {
    /// Starting the camera manager failed.
    ManagerStart,
    /// The device is held by another owner, or could not be acquired.
    Acquisition,
    /// Giving up exclusive access failed.
    Release,
    /// A configuration could not be applied.
    Configuration,
    /// Streaming could not be started.
    Start,
    /// A request could not be queued.
    Queue,
    /// A buffer could not be bound to a request.
    AddBuffer,
    /// Buffers are already allocated for the stream.
    AllocationBusy,
    /// The pipeline could not allocate buffers.
    Allocation,
    /// A control value's tag does not match the requested type.
    MarshalTypeMismatch,
}

/// A failed operation with the status code that explains it: the pipeline's
/// own (a negative errno) or the one that the library chose for a rule it
/// enforces itself.
#[derive(Clone, Copy, Debug, PartialEq, Eq, Structural)]
pub struct Error {
    pub kind: ErrorKind,
    pub code: i32,
}

/// Status for "device or resource busy".
pub const EBUSY: i32 = -16;

/// Status for "invalid argument".
pub const EINVAL: i32 = -22;

/// Status for "cross-device link": an object used with a camera other than the
/// one that made it.
pub const EXDEV: i32 = -18;

/// The error of `kind` with status `code`.
pub open spec fn error_of(kind: ErrorKind, code: i32) -> Error {
    Error { kind, code }
}

/// Success for a zero status; any other status is an error of `kind`.
pub fn ok_if_zero(status: i32, kind: ErrorKind) -> (r: Result<(), Error>)
    ensures
        status == 0 ==> r == Ok::<(), Error>(()),
        status != 0 ==> r == Err::<(), Error>(error_of(kind, status)),
{
    if status == 0 {
        Ok(())
    } else {
        Err(Error { kind, code: status })
    }
}

} // verus!
