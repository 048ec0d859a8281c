use vstd::prelude::*;

verus! {

/// The bit that marks a status code as an error.
pub const ERROR_BIT: usize = usize::MAX - usize::MAX / 2;

/// The call completed.
pub const SUCCESS: usize = 0;
/// A parameter was outside what the module accepts.
pub const INVALID_PARAMETER: usize = ERROR_BIT + 2;
/// The request is not supported by the module.
pub const UNSUPPORTED: usize = ERROR_BIT + 3;
/// A buffer size was not accepted.
pub const BAD_BUFFER_SIZE: usize = ERROR_BIT + 4;
/// An output buffer was too small for the result.
pub const BUFFER_TOO_SMALL: usize = ERROR_BIT + 5;
/// The device failed or could not be reached.
pub const DEVICE_ERROR: usize = ERROR_BIT + 7;

/// Why an operation failed, split into the two channels that callers treat
/// differently. Each carries the status code that was reported.
#[derive(Clone, Copy, Debug, PartialEq, Eq, Structural)]
pub enum TcgError {
    /// The module could not be reached, failed in a way that it does not
    /// attribute to the request, or answered with something malformed.
    Interface(usize),
    /// The request was outside the contract: an unsupported argument, or a
    /// buffer of a size that is not accepted.
    Rejected(usize),
}

/// Whether a status code says that the request itself was refused.
pub open spec fn is_rejection(status: usize) -> bool {
    status == INVALID_PARAMETER || status == UNSUPPORTED || status == BAD_BUFFER_SIZE
        || status == BUFFER_TOO_SMALL
}

/// The error that a failed status code stands for.
pub open spec fn error_of(status: usize) -> TcgError {
    if is_rejection(status) {
        TcgError::Rejected(status)
    } else {
        TcgError::Interface(status)
    }
}

/// What a status code means for the caller: success for `SUCCESS` only,
/// anything else an error in the channel that `error_of` gives.
pub open spec fn status_result(status: usize) -> Result<(), TcgError> {
    if status == SUCCESS {
        Ok(())
    } else {
        Err(error_of(status))
    }
}

impl TcgError {
    /// The status code that was reported.
    pub fn status(&self) -> (r: usize)
        ensures
            r == match *self {
                TcgError::Interface(s) => s,
                TcgError::Rejected(s) => s,
            },
    {
        match *self {
            TcgError::Interface(s) => s,
            TcgError::Rejected(s) => s,
        }
    }

    /// Whether this is a refusal of the request rather than a failure to
    /// reach the module.
    pub fn is_rejected(&self) -> (r: bool)
        ensures
            r == (*self is Rejected),
    {
        match *self {
            TcgError::Interface(_) => false,
            TcgError::Rejected(_) => true,
        }
    }
}

/// Turns a status code reported by the module into a result.
pub fn check_status(status: usize) -> (r: Result<(), TcgError>)
    ensures
        r == status_result(status),
{
    if status == SUCCESS {
        Ok(())
    } else if status == INVALID_PARAMETER || status == UNSUPPORTED || status == BAD_BUFFER_SIZE
        || status == BUFFER_TOO_SMALL {
        Err(TcgError::Rejected(status))
    } else {
        Err(TcgError::Interface(status))
    }
}

} // verus!
