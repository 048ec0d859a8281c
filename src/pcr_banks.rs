use vstd::prelude::*;

use crate::error::{error_of, TcgError, SUCCESS};

verus! {

/// The largest response code that reports an error of the module itself.
pub const TPM_ERROR_MAX: u32 = 0x0000_0FFF;
/// The response code of a change that the user cancelled, or that timed out.
pub const CANCELLED_OR_TIMED_OUT: u32 = 0xFFFF_FFF0;
/// The response code of a change that failed inside the firmware.
pub const FIRMWARE_ERROR: u32 = 0xFFFF_FFF1;

/// What became of a request to change the active PCR banks, as the response
/// code that the module recorded says.
#[derive(Clone, Copy, Debug, PartialEq, Eq, Structural)]
pub enum PcrBankChangeOutcome {
    /// The banks were changed.
    Success,
    /// The module reported an error; the code is kept.
    TpmError(u32),
    /// The user cancelled the change, or it timed out.
    CancelledOrTimedOut,
    /// The firmware failed.
    FirmwareError,
    /// A code outside every documented range; the code is kept.
    Unrecognized(u32),
}

/// The outcome that a response code stands for: `0` success,
/// `0x1..=0xFFF` an error of the module, `0xFFFFFFF0` cancelled or timed out,
/// `0xFFFFFFF1` a firmware error, and anything else unrecognized.
pub open spec fn outcome_of(code: u32) -> PcrBankChangeOutcome {
    if code == 0 {
        PcrBankChangeOutcome::Success
    } else if 1 <= code <= TPM_ERROR_MAX {
        PcrBankChangeOutcome::TpmError(code)
    } else if code == CANCELLED_OR_TIMED_OUT {
        PcrBankChangeOutcome::CancelledOrTimedOut
    } else if code == FIRMWARE_ERROR {
        PcrBankChangeOutcome::FirmwareError
    } else {
        PcrBankChangeOutcome::Unrecognized(code)
    }
}

impl PcrBankChangeOutcome {
    /// Classifies a response code read back after a change of the active
    /// PCR banks.
    pub fn classify(code: u32) -> (r: PcrBankChangeOutcome)
        ensures
            r == outcome_of(code),
            code == 0 <==> r is Success,
            (1 <= code <= 0x0FFF) <==> r is TpmError,
            code == 0xFFFF_FFF0 <==> r is CancelledOrTimedOut,
            code == 0xFFFF_FFF1 <==> r is FirmwareError,
            (code > 0x0FFF && code != 0xFFFF_FFF0 && code != 0xFFFF_FFF1) <==> r is Unrecognized,
    {
        if code == 0 {
            PcrBankChangeOutcome::Success
        } else if code <= TPM_ERROR_MAX {
            PcrBankChangeOutcome::TpmError(code)
        } else if code == CANCELLED_OR_TIMED_OUT {
            PcrBankChangeOutcome::CancelledOrTimedOut
        } else if code == FIRMWARE_ERROR {
            PcrBankChangeOutcome::FirmwareError
        } else {
            PcrBankChangeOutcome::Unrecognized(code)
        }
    }
}

/// The result of asking for the outcome of an earlier change of the active
/// PCR banks: absent where the module reports no such change on record,
/// otherwise the response code it recorded.
pub open spec fn set_result_of(status: usize, operation_present: u32, response: u32) -> Result<
    Option<u32>,
    TcgError,
> {
    if status != SUCCESS {
        Err(error_of(status))
    } else if operation_present == 0 {
        Ok(None)
    } else {
        Ok(Some(response))
    }
}

/// Reads what the module answered when asked for the outcome of an earlier
/// change of the active PCR banks.
pub fn decode_set_result(status: usize, operation_present: u32, response: u32) -> (r: Result<
    Option<u32>,
    TcgError,
>)
    ensures
        r == set_result_of(status, operation_present, response),
{
    match crate::error::check_status(status) {
        Err(e) => Err(e),
        Ok(()) => {
            if operation_present == 0 {
                Ok(None)
            } else {
                Ok(Some(response))
            }
        },
    }
}

} // verus!
