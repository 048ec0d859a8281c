use vstd::prelude::*;

use crate::error::{error_of, TcgError, SUCCESS};

verus! {

/// Where the measurement log lies. The bytes at these addresses are not
/// read here. An empty log has `location == last_entry`.
#[derive(Clone, Copy, Debug, PartialEq, Eq, Structural)]
pub struct EventLog {
    /// Physical address of the first entry.
    pub location: u64,
    /// Physical address of the last entry.
    pub last_entry: u64,
    /// Whether the module ran out of room for some events: the log is then
    /// incomplete evidence.
    pub truncated: bool,
}

/// The log that the module's answer describes: its two addresses as given,
/// truncated where the flag byte is nonzero.
pub open spec fn event_log_of(status: usize, location: u64, last_entry: u64, truncated: u8) -> Result<
    EventLog,
    TcgError,
> {
    if status != SUCCESS {
        Err(error_of(status))
    } else {
        Ok(EventLog { location, last_entry, truncated: truncated != 0 })
    }
}

/// A log that the module reports as empty, with its first and last entry at
/// one address, is reported on as such: both addresses stay equal.
pub proof fn lemma_empty_log_kept(address: u64, truncated: u8)
    ensures
        event_log_of(SUCCESS, address, address, truncated) matches Ok(log) && log.location
            == log.last_entry && log.location == address,
{
}

impl EventLog {
    /// Reads what the module answered when asked where the log lies.
    pub fn decode(status: usize, location: u64, last_entry: u64, truncated: u8) -> (r: Result<
        EventLog,
        TcgError,
    >)
        ensures
            r == event_log_of(status, location, last_entry, truncated),
    {
        match crate::error::check_status(status) {
            Err(e) => Err(e),
            Ok(()) => Ok(EventLog { location, last_entry, truncated: truncated != 0 }),
        }
    }
}

} // verus!
