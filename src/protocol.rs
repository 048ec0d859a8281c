use vstd::prelude::*;

use crate::bitmap::{bits_subset_u32, EventLogFormat, HashAlgorithm, HashLogExtendEventFlags};
use crate::capability::{capability_of, BootServiceCapability};
use crate::error::{
    check_status, error_of, status_result, TcgError, BAD_BUFFER_SIZE, INVALID_PARAMETER, SUCCESS,
};
use crate::event_log::{event_log_of, EventLog};
use crate::pcr_banks::{decode_set_result, set_result_of};

verus! {

/// The raw entry points of a TCG2 protocol instance, one method per entry
/// point. Each returns the status code that the module reported, with the
/// values it wrote. Nothing is assumed of what an implementation returns:
/// every answer is checked by [`Tcg`].
pub trait Tcg2Firmware {
    /// Fills `buffer` with the capability record; its first byte holds, on
    /// entry, the size of the record that the caller knows.
    fn get_capability(&mut self, buffer: &mut Vec<u8>) -> usize;

    /// Returns the status, the addresses of the first and of the last entry
    /// of the log in the given format, and its truncation flag.
    fn get_event_log(&mut self, format: u32) -> (usize, u64, u64, u8);

    /// Extends the active PCRs with the hash of `data_length` bytes at
    /// `data_address`, and logs `event` unless the flags say not to.
    fn hash_log_extend_event(
        &mut self,
        flags: u64,
        data_address: u64,
        data_length: u64,
        event: &[u8],
    ) -> usize;

    /// Sends a command block and receives the response into `output`.
    fn submit_command(&mut self, input: &[u8], output: &mut [u8]) -> usize;

    /// Returns the status and the bitmap of the active PCR banks.
    fn get_active_pcr_banks(&mut self) -> (usize, u32);

    /// Stages a change of the active PCR banks.
    fn set_active_pcr_banks(&mut self, banks: u32) -> usize;

    /// Returns the status, whether a change of the banks is on record, and
    /// the response code recorded for it.
    fn get_result_of_set_active_pcr_banks(&mut self) -> (usize, u32, u32);
}

/// Whether a log format may be asked for under a capability: exactly one
/// named format, and one that the module supports.
pub open spec fn log_format_allowed(capability: BootServiceCapability, format: EventLogFormat) -> bool {
    format.is_single_format() && bits_subset_u32(format@, capability.supported_event_logs@)
}

/// Whether command and response buffers of these lengths fit the sizes that
/// a capability advertises.
pub open spec fn buffers_fit(capability: BootServiceCapability, input_len: nat, output_len: nat) -> bool {
    input_len <= capability.max_command_size && output_len <= capability.max_response_size
}

/// What the module's answer to a query of its capability gives: its status
/// where that is a failure, otherwise what reading the record gives.
pub open spec fn capability_answer(status: usize, record: Seq<u8>) -> Result<
    BootServiceCapability,
    TcgError,
> {
    if status != SUCCESS {
        Err(error_of(status))
    } else {
        capability_of(record)
    }
}

/// What the module's answer to a query of the active banks gives: the
/// bitmap it wrote where the status is success, otherwise the status's error.
pub open spec fn active_banks_of(status: usize, banks: u32) -> Result<HashAlgorithm, TcgError> {
    if status != SUCCESS {
        Err(error_of(status))
    } else {
        Ok(HashAlgorithm::spec_from_bits(banks))
    }
}

/// Reads what the module answered when asked for the active banks.
pub fn decode_active_banks(status: usize, banks: u32) -> (r: Result<HashAlgorithm, TcgError>)
    ensures
        r == active_banks_of(status, banks),
{
    match check_status(status) {
        Err(e) => Err(e),
        Ok(()) => Ok(HashAlgorithm::from_bits_retain(banks)),
    }
}

/// A TCG2 protocol instance: the measurement operations, over a port that
/// makes the raw calls.
pub struct Tcg<F> {
    firmware: F,
}

impl<F: Tcg2Firmware> Tcg<F> {
    /// Wraps a port.
    pub fn new(firmware: F) -> (r: Tcg<F>)
        ensures
            r.firmware() == firmware,
    {
        Tcg { firmware }
    }

    /// The port.
    pub closed spec fn firmware(self) -> F {
        self.firmware
    }

    /// Gets a snapshot of the protocol and of the module. An absent module
    /// is no error: its presence flag is clear.
    pub fn get_capability(&mut self) -> (r: Result<BootServiceCapability, TcgError>)
        ensures
            exists|s: usize, b: Seq<u8>| r == capability_answer(s, b),
            r matches Ok(c) ==> c.wf(),
    {
        let mut buffer = BootServiceCapability::request_buffer();
        let status = self.firmware.get_capability(&mut buffer);
        let r = match check_status(status) {
            Err(e) => Err(e),
            Ok(()) => BootServiceCapability::from_bytes(buffer.as_slice()),
        };
        assert(r == capability_answer(status, buffer@));
        r
    }

    /// Finds the measurement log in the given format. A format that is not
    /// exactly one of the named formats, or that `capability` does not list
    /// as supported, is refused before the module is asked.
    pub fn get_event_log(&mut self, capability: &BootServiceCapability, format: EventLogFormat) -> (r:
        Result<EventLog, TcgError>)
        ensures
            !log_format_allowed(*capability, format) ==> r == Err::<EventLog, TcgError>(
                TcgError::Rejected(INVALID_PARAMETER),
            ),
            log_format_allowed(*capability, format) ==> exists|s: usize, l: u64, e: u64, t: u8|
                r == event_log_of(s, l, e, t),
    {
        if !format.is_single() || !capability.supported_event_logs.contains(format) {
            return Err(TcgError::Rejected(INVALID_PARAMETER));
        }
        let (status, location, last_entry, truncated) = self.firmware.get_event_log(format.bits());
        EventLog::decode(status, location, last_entry, truncated)
    }

    /// Extends the active PCR banks with the hash of `data_length` bytes at
    /// `data_address`, and appends `event` to the log unless `flags` holds
    /// the extend-only flag. A failure may leave the PCRs extended.
    pub fn hash_log_extend_event(
        &mut self,
        flags: HashLogExtendEventFlags,
        data_address: u64,
        data_length: u64,
        event: &[u8],
    ) -> (r: Result<(), TcgError>)
        ensures
            exists|s: usize| r == status_result(s),
    {
        let status = self.firmware.hash_log_extend_event(
            flags.bits(),
            data_address,
            data_length,
            event,
        );
        check_status(status)
    }

    /// Sends a raw command to the module and receives its response into
    /// `output`. A command longer than the advertised maximum, or an output
    /// buffer longer than the advertised maximum response, is refused before
    /// the module is asked, so that it never writes past that maximum.
    pub fn submit_command(
        &mut self,
        capability: &BootServiceCapability,
        input: &[u8],
        output: &mut [u8],
    ) -> (r: Result<(), TcgError>)
        ensures
            !buffers_fit(*capability, input@.len(), old(output)@.len()) ==> r == Err::<
                (),
                TcgError,
            >(TcgError::Rejected(BAD_BUFFER_SIZE)) && final(output)@ == old(output)@,
            r is Ok ==> old(output)@.len() <= capability.max_response_size,
    {
        if input.len() > capability.max_command_size as usize || output.len()
            > capability.max_response_size as usize {
            return Err(TcgError::Rejected(BAD_BUFFER_SIZE));
        }
        let status = self.firmware.submit_command(input, output);
        check_status(status)
    }

    /// Gets the bitmap of the banks that are active now.
    pub fn get_active_pcr_banks(&mut self) -> (r: Result<HashAlgorithm, TcgError>)
        ensures
            exists|s: usize, b: u32| r == active_banks_of(s, b),
    {
        let (status, banks) = self.firmware.get_active_pcr_banks();
        decode_active_banks(status, banks)
    }

    /// Asks that exactly the given banks be active. The change is staged: it
    /// takes effect only after two more boots, and its outcome is read back
    /// with `get_result_of_set_active_pcr_banks`. Whether the banks are
    /// supported is for the module to decide.
    pub fn set_active_pcr_banks(&mut self, active_pcr_banks: HashAlgorithm) -> (r: Result<
        (),
        TcgError,
    >)
        ensures
            exists|s: usize| r == status_result(s),
    {
        let status = self.firmware.set_active_pcr_banks(active_pcr_banks.bits());
        check_status(status)
    }

    /// Gets the recorded outcome of a change of the active PCR banks asked
    /// for in an earlier boot: `None` where none is on record, otherwise its
    /// response code, which `PcrBankChangeOutcome::classify` interprets.
    pub fn get_result_of_set_active_pcr_banks(&mut self) -> (r: Result<Option<u32>, TcgError>)
        ensures
            exists|s: usize, p: u32, c: u32| r == set_result_of(s, p, c),
    {
        let (status, operation_present, response) =
            self.firmware.get_result_of_set_active_pcr_banks();
        decode_set_result(status, operation_present, response)
    }
}

} // verus!
