use tcg2::bitmap::{EventLogFormat, HashAlgorithm, HashLogExtendEventFlags};
use tcg2::capability::{BootServiceCapability, CAPABILITY_SIZE};
use tcg2::error::{
    check_status, TcgError, BAD_BUFFER_SIZE, BUFFER_TOO_SMALL, DEVICE_ERROR, ERROR_BIT,
    INVALID_PARAMETER, SUCCESS, UNSUPPORTED,
};
use tcg2::event_log::EventLog;
use tcg2::pcr_banks::{decode_set_result, PcrBankChangeOutcome};
use tcg2::protocol::{decode_active_banks, Tcg, Tcg2Firmware};
use tcg2::version::Version;

/// A module that behaves as the protocol describes: bank changes are staged
/// until two reboots, and extend-only events are not logged.
struct FakeModule {
    record: Vec<u8>,
    supported_logs: u32,
    log_start: u64,
    log_last: u64,
    log_entries: u64,
    extended: u64,
    active: u32,
    pending: Option<u32>,
    reboots_since_request: u32,
    mailbox: Option<u32>,
    calls: u32,
    last_output_len: usize,
}

impl FakeModule {
    fn new() -> FakeModule {
        FakeModule {
            record: full_record(),
            supported_logs: 0x2,
            log_start: 0x1000,
            log_last: 0x1000,
            log_entries: 0,
            extended: 0,
            active: 0x2,
            pending: None,
            reboots_since_request: 0,
            mailbox: None,
            calls: 0,
            last_output_len: 0,
        }
    }

    fn reboot(&mut self) {
        if let Some(banks) = self.pending {
            self.reboots_since_request += 1;
            if self.reboots_since_request == 2 {
                self.active = banks;
                self.pending = None;
                self.mailbox = Some(0);
            }
        }
    }
}

impl Tcg2Firmware for FakeModule {
    fn get_capability(&mut self, buffer: &mut Vec<u8>) -> usize {
        self.calls += 1;
        let n = buffer.len().min(self.record.len());
        buffer[..n].copy_from_slice(&self.record[..n]);
        SUCCESS
    }

    fn get_event_log(&mut self, format: u32) -> (usize, u64, u64, u8) {
        self.calls += 1;
        if format & self.supported_logs != format {
            return (INVALID_PARAMETER, 0, 0, 0);
        }
        (SUCCESS, self.log_start, self.log_last, 0)
    }

    fn hash_log_extend_event(&mut self, flags: u64, _a: u64, _l: u64, _e: &[u8]) -> usize {
        self.calls += 1;
        self.extended += 1;
        if flags & 1 == 0 {
            self.log_entries += 1;
            self.log_last = self.log_start + 0x40 * (self.log_entries - 1);
        }
        SUCCESS
    }

    fn submit_command(&mut self, input: &[u8], output: &mut [u8]) -> usize {
        self.calls += 1;
        self.last_output_len = output.len();
        for (o, i) in output.iter_mut().zip(input.iter()) {
            *o = i.wrapping_add(1);
        }
        SUCCESS
    }

    fn get_active_pcr_banks(&mut self) -> (usize, u32) {
        self.calls += 1;
        (SUCCESS, self.active)
    }

    fn set_active_pcr_banks(&mut self, banks: u32) -> usize {
        self.calls += 1;
        if banks & 0x1f != banks {
            return INVALID_PARAMETER;
        }
        self.pending = Some(banks);
        self.reboots_since_request = 0;
        SUCCESS
    }

    fn get_result_of_set_active_pcr_banks(&mut self) -> (usize, u32, u32) {
        self.calls += 1;
        match self.mailbox {
            None => (SUCCESS, 0, 0),
            Some(code) => (SUCCESS, 1, code),
        }
    }
}

/// A complete record in the aligned C layout: versions 1.1 and 1.1,
/// SHA-1 | SHA-256 supported, crypto-agile log, present, 4096 / 2048 byte
/// limits, vendor 0x49465820, 2 banks, SHA-256 active. Padding bytes hold
/// 0xEE, which must never be read.
fn full_record() -> Vec<u8> {
    let mut b = vec![36u8, 1, 1, 1, 1, 0xEE, 0xEE, 0xEE];
    b.extend_from_slice(&0x0000_0003u32.to_le_bytes());
    b.extend_from_slice(&0x0000_0002u32.to_le_bytes());
    b.push(1);
    b.push(0xEE);
    b.extend_from_slice(&4096u16.to_le_bytes());
    b.extend_from_slice(&2048u16.to_le_bytes());
    b.extend_from_slice(&[0xEE, 0xEE]);
    b.extend_from_slice(&0x4946_5820u32.to_le_bytes());
    b.extend_from_slice(&2u32.to_le_bytes());
    b.extend_from_slice(&0x0000_0002u32.to_le_bytes());
    assert_eq!(b.len(), 36);
    b
}

#[test]
fn default_capability_is_absent_module() {
    let c = BootServiceCapability::default();
    assert!(!c.tpm_present());
    assert_eq!(c.size, 36);
    assert_eq!(c.structure_version, Version::default());
    assert_eq!(c.hash_algorithm_bitmap.bits(), 0);
    assert_eq!(c.active_pcr_banks.bits(), 0);
    assert_eq!(c.max_command_size, 0);
    assert_eq!(c.number_of_pcr_banks, 0);
}

#[test]
fn request_buffer_carries_known_size() {
    let b = BootServiceCapability::request_buffer();
    assert_eq!(b.len(), 36);
    assert_eq!(b[0], CAPABILITY_SIZE);
    assert!(b[1..].iter().all(|x| *x == 0));
}

#[test]
fn full_record_decodes_every_field() {
    let c = BootServiceCapability::from_bytes(&full_record()).unwrap();
    assert_eq!(c.size, 36);
    assert_eq!(c.structure_version, Version::new(1, 1));
    assert_eq!(c.protocol_version, Version::new(1, 1));
    assert_eq!(c.hash_algorithm_bitmap.bits(), 3);
    assert_eq!(c.supported_event_logs, EventLogFormat::tcg_2());
    assert!(c.tpm_present());
    assert_eq!(c.max_command_size, 4096);
    assert_eq!(c.max_response_size, 2048);
    assert_eq!(c.manufacturer_id, 0x4946_5820);
    assert_eq!(c.number_of_pcr_banks, 2);
    assert_eq!(c.active_pcr_banks, HashAlgorithm::sha256());
}

#[test]
fn older_record_reads_known_prefix_only() {
    let mut b = full_record();
    b[0] = 28;
    let c = BootServiceCapability::from_bytes(&b).unwrap();
    assert_eq!(c.size, 28);
    assert_eq!(c.manufacturer_id, 0x4946_5820);
    assert_eq!(c.number_of_pcr_banks, 0);
    assert_eq!(c.active_pcr_banks.bits(), 0);
}

#[test]
fn newer_record_reads_up_to_known_size() {
    let mut b = full_record();
    b[0] = 40;
    b.extend_from_slice(&[0xAA; 10]);
    let c = BootServiceCapability::from_bytes(&b).unwrap();
    assert_eq!(c.size, 40);
    assert_eq!(c.active_pcr_banks, HashAlgorithm::sha256());
}

#[test]
fn short_buffer_reads_what_is_there() {
    let b = full_record();
    let c = BootServiceCapability::from_bytes(&b[..17]).unwrap();
    assert!(c.tpm_present());
    assert_eq!(c.max_command_size, 0);
    let e = BootServiceCapability::from_bytes(&[]).unwrap();
    assert_eq!(e.size, 0);
    assert!(!e.tpm_present());
}

#[test]
fn active_banks_outside_supported_are_refused() {
    let mut b = full_record();
    b[32] = 0x04;
    assert_eq!(
        BootServiceCapability::from_bytes(&b),
        Err(TcgError::Interface(DEVICE_ERROR))
    );
}

#[test]
fn response_codes_classify_by_range() {
    assert_eq!(PcrBankChangeOutcome::classify(0), PcrBankChangeOutcome::Success);
    assert_eq!(PcrBankChangeOutcome::classify(1), PcrBankChangeOutcome::TpmError(1));
    assert_eq!(PcrBankChangeOutcome::classify(0xFFF), PcrBankChangeOutcome::TpmError(0xFFF));
    assert_eq!(
        PcrBankChangeOutcome::classify(0xFFFF_FFF0),
        PcrBankChangeOutcome::CancelledOrTimedOut
    );
    assert_eq!(PcrBankChangeOutcome::classify(0xFFFF_FFF1), PcrBankChangeOutcome::FirmwareError);
    assert_eq!(PcrBankChangeOutcome::classify(0x1000), PcrBankChangeOutcome::Unrecognized(0x1000));
    assert_eq!(
        PcrBankChangeOutcome::classify(0xFFFF_FFEF),
        PcrBankChangeOutcome::Unrecognized(0xFFFF_FFEF)
    );
    assert_eq!(
        PcrBankChangeOutcome::classify(0xFFFF_FFFF),
        PcrBankChangeOutcome::Unrecognized(0xFFFF_FFFF)
    );
}

#[test]
fn set_result_absent_when_nothing_on_record() {
    assert_eq!(decode_set_result(SUCCESS, 0, 0x55), Ok(None));
    assert_eq!(decode_set_result(SUCCESS, 1, 0xFFFF_FFF0), Ok(Some(0xFFFF_FFF0)));
    assert_eq!(decode_set_result(DEVICE_ERROR, 1, 0), Err(TcgError::Interface(DEVICE_ERROR)));
}

#[test]
fn active_banks_answer_decodes() {
    assert_eq!(decode_active_banks(SUCCESS, 0x6), Ok(HashAlgorithm::from_bits_retain(0x6)));
    assert_eq!(decode_active_banks(SUCCESS, 0), Ok(HashAlgorithm::empty()));
    assert_eq!(decode_active_banks(UNSUPPORTED, 0x6), Err(TcgError::Rejected(UNSUPPORTED)));
}

#[test]
fn capabilities_order_by_fields() {
    let a = BootServiceCapability::default();
    let mut b = a;
    b.max_command_size = 1;
    assert!(a < b);
}

#[test]
fn status_codes_split_into_two_channels() {
    assert_eq!(check_status(SUCCESS), Ok(()));
    for s in [INVALID_PARAMETER, UNSUPPORTED, BAD_BUFFER_SIZE, BUFFER_TOO_SMALL] {
        let e = check_status(s).unwrap_err();
        assert!(e.is_rejected());
        assert_eq!(e.status(), s);
    }
    assert_eq!(check_status(DEVICE_ERROR), Err(TcgError::Interface(DEVICE_ERROR)));
    assert_eq!(check_status(ERROR_BIT + 6), Err(TcgError::Interface(ERROR_BIT + 6)));
    // A warning is not success either.
    assert_eq!(check_status(1), Err(TcgError::Interface(1)));
}

#[test]
fn empty_log_keeps_equal_addresses() {
    let log = EventLog::decode(SUCCESS, 0x8000, 0x8000, 0).unwrap();
    assert_eq!(log.location, log.last_entry);
    assert!(!log.truncated);
    let t = EventLog::decode(SUCCESS, 0x8000, 0x8100, 7).unwrap();
    assert!(t.truncated);
    assert_eq!(t.last_entry, 0x8100);
    assert_eq!(
        EventLog::decode(INVALID_PARAMETER, 1, 2, 0),
        Err(TcgError::Rejected(INVALID_PARAMETER))
    );
}

#[test]
fn versions_order_lexicographically() {
    assert!(Version::new(1, 2) < Version::new(2, 0));
    assert!(Version::new(1, 2) < Version::new(1, 3));
    assert!(Version::new(2, 0) > Version::new(1, 255));
    assert_eq!(
        Version::new(1, 1).partial_cmp(&Version::new(1, 1)),
        Some(std::cmp::Ordering::Equal)
    );
}

#[test]
fn bitmaps_hold_their_bits() {
    let both = HashAlgorithm::sha1().union(HashAlgorithm::sha256());
    assert_eq!(both.bits(), 3);
    assert_eq!(EventLogFormat::tcg_1_2().union(EventLogFormat::tcg_2()).bits(), 3);
    assert!(both.contains(HashAlgorithm::sha256()));
    assert!(!both.contains(HashAlgorithm::sha384()));
    assert!(both.contains(HashAlgorithm::empty()));
    assert_eq!(HashAlgorithm::sha512().bits(), 8);
    assert_eq!(HashAlgorithm::sm3_256().bits(), 0x10);
    assert_eq!(EventLogFormat::tcg_1_2().bits(), 1);
    assert!(EventLogFormat::tcg_2().is_single());
    assert!(!EventLogFormat::from_bits_retain(3).is_single());
    let f = HashLogExtendEventFlags::efi_tcg2_extend_only()
        .union(HashLogExtendEventFlags::pe_coff_image());
    assert_eq!(f.bits(), 0x11);
    assert!(f.contains(HashLogExtendEventFlags::pe_coff_image()));
    assert!(!HashLogExtendEventFlags::empty().contains(HashLogExtendEventFlags::pe_coff_image()));
}

#[test]
fn capability_comes_from_module() {
    let mut tcg = Tcg::new(FakeModule::new());
    let c = tcg.get_capability().unwrap();
    assert!(c.tpm_present());
    assert_eq!(c.max_response_size, 2048);
    assert!(c.hash_algorithm_bitmap.contains(c.active_pcr_banks));
}

#[test]
fn unsupported_log_format_is_refused() {
    let mut module = FakeModule::new();
    let mut tcg = Tcg::new(&mut module);
    let c = tcg.get_capability().unwrap();
    assert_eq!(
        tcg.get_event_log(&c, EventLogFormat::tcg_1_2()),
        Err(TcgError::Rejected(INVALID_PARAMETER))
    );
    assert_eq!(
        tcg.get_event_log(&c, EventLogFormat::from_bits_retain(3)),
        Err(TcgError::Rejected(INVALID_PARAMETER))
    );
    // Neither request reached the module.
    drop(tcg);
    assert_eq!(module.calls, 1);
    let mut tcg = Tcg::new(&mut module);
    let log = tcg.get_event_log(&c, EventLogFormat::tcg_2()).unwrap();
    assert_eq!(log.location, log.last_entry);
}

#[test]
fn extend_only_leaves_log_unchanged() {
    let mut tcg = Tcg::new(FakeModule::new());
    let c = tcg.get_capability().unwrap();
    let before = tcg.get_event_log(&c, EventLogFormat::tcg_2()).unwrap();
    let flags = HashLogExtendEventFlags::efi_tcg2_extend_only();
    tcg.hash_log_extend_event(flags, 0x2000, 64, &[0u8; 8]).unwrap();
    let after = tcg.get_event_log(&c, EventLogFormat::tcg_2()).unwrap();
    assert_eq!(before, after);
}

#[test]
fn logged_extend_moves_last_entry() {
    let mut tcg = Tcg::new(FakeModule::new());
    let c = tcg.get_capability().unwrap();
    let flags = HashLogExtendEventFlags::pe_coff_image();
    tcg.hash_log_extend_event(flags, 0x2000, 64, &[0u8; 8]).unwrap();
    tcg.hash_log_extend_event(flags, 0x2000, 64, &[0u8; 8]).unwrap();
    let log = tcg.get_event_log(&c, EventLogFormat::tcg_2()).unwrap();
    assert_eq!(log.location, 0x1000);
    assert_eq!(log.last_entry, 0x1040);
}

#[test]
fn oversize_output_buffer_is_refused() {
    let mut module = FakeModule::new();
    let mut tcg = Tcg::new(&mut module);
    let c = tcg.get_capability().unwrap();
    let input = [1u8, 2, 3];
    let mut big = vec![9u8; 2049];
    assert_eq!(
        tcg.submit_command(&c, &input, &mut big),
        Err(TcgError::Rejected(BAD_BUFFER_SIZE))
    );
    assert!(big.iter().all(|x| *x == 9));
    let long_input = vec![0u8; 4097];
    let mut out = vec![0u8; 16];
    assert_eq!(
        tcg.submit_command(&c, &long_input, &mut out),
        Err(TcgError::Rejected(BAD_BUFFER_SIZE))
    );
    let mut exact = vec![0u8; 2048];
    tcg.submit_command(&c, &input, &mut exact).unwrap();
    assert_eq!(&exact[..3], &[2, 3, 4]);
    drop(tcg);
    assert_eq!(module.last_output_len, 2048);
}

#[test]
fn bank_change_is_staged_across_two_reboots() {
    let mut module = FakeModule::new();
    {
        let mut tcg = Tcg::new(&mut module);
        assert_eq!(tcg.get_result_of_set_active_pcr_banks(), Ok(None));
        let before = tcg.get_active_pcr_banks().unwrap();
        tcg.set_active_pcr_banks(HashAlgorithm::sha1()).unwrap();
        assert_eq!(tcg.get_active_pcr_banks(), Ok(before));
    }
    module.reboot();
    {
        let mut tcg = Tcg::new(&mut module);
        assert_eq!(tcg.get_active_pcr_banks(), Ok(HashAlgorithm::sha256()));
    }
    module.reboot();
    let mut tcg = Tcg::new(&mut module);
    assert_eq!(tcg.get_active_pcr_banks(), Ok(HashAlgorithm::sha1()));
    let code = tcg.get_result_of_set_active_pcr_banks().unwrap().unwrap();
    assert_eq!(PcrBankChangeOutcome::classify(code), PcrBankChangeOutcome::Success);
}

#[test]
fn unsupported_banks_are_refused_by_module() {
    let mut tcg = Tcg::new(FakeModule::new());
    assert_eq!(
        tcg.set_active_pcr_banks(HashAlgorithm::from_bits_retain(0x40)),
        Err(TcgError::Rejected(INVALID_PARAMETER))
    );
}

impl Tcg2Firmware for &mut FakeModule {
    fn get_capability(&mut self, buffer: &mut Vec<u8>) -> usize {
        (**self).get_capability(buffer)
    }
    fn get_event_log(&mut self, format: u32) -> (usize, u64, u64, u8) {
        (**self).get_event_log(format)
    }
    fn hash_log_extend_event(&mut self, flags: u64, a: u64, l: u64, e: &[u8]) -> usize {
        (**self).hash_log_extend_event(flags, a, l, e)
    }
    fn submit_command(&mut self, input: &[u8], output: &mut [u8]) -> usize {
        (**self).submit_command(input, output)
    }
    fn get_active_pcr_banks(&mut self) -> (usize, u32) {
        (**self).get_active_pcr_banks()
    }
    fn set_active_pcr_banks(&mut self, banks: u32) -> usize {
        (**self).set_active_pcr_banks(banks)
    }
    fn get_result_of_set_active_pcr_banks(&mut self) -> (usize, u32, u32) {
        (**self).get_result_of_set_active_pcr_banks()
    }
}
