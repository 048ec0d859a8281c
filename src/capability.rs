use vstd::prelude::*;

use crate::bitmap::{bits_subset_u32, EventLogFormat, HashAlgorithm};
use crate::error::{TcgError, DEVICE_ERROR};
use crate::version::Version;

verus! {

/// The size in bytes of the encoded capability structure that this library
/// knows: the C layout with natural alignment, little-endian. The fields
/// start at offsets 0, 1, 3, 8, 12, 16, 18, 20, 24, 28 and 32; the bytes
/// between them are padding.
pub const CAPABILITY_SIZE: u8 = 36;

/// A snapshot of the protocol and of the module, taken when it was queried.
///
/// Encoded as a little-endian C record whose first byte gives the size
/// of the record, so that a record written by an older or newer module can be
/// read up to the prefix that both sides know.
#[derive(Clone, Copy, Debug, PartialEq, Eq, Structural, PartialOrd, Ord)]
pub struct BootServiceCapability {
    /// The size of the record, as the module wrote it.
    pub size: u8,
    /// Version of the capability structure.
    pub structure_version: Version,
    /// Version of the protocol.
    pub protocol_version: Version,
    /// Bitmap of supported hash algorithms.
    pub hash_algorithm_bitmap: HashAlgorithm,
    /// Event log formats supported by the firmware.
    pub supported_event_logs: EventLogFormat,
    /// Nonzero when the module is present.
    pub present_flag: u8,
    /// Maximum size (in bytes) of a command that can be sent to the module.
    pub max_command_size: u16,
    /// Maximum size (in bytes) of a response that the module can provide.
    pub max_response_size: u16,
    /// Manufacturer ID, from the TCG vendor ID registry.
    pub manufacturer_id: u32,
    /// Maximum number of supported PCR banks (hashing algorithms).
    pub number_of_pcr_banks: u32,
    /// Bitmap of currently active PCR banks: a subset of
    /// `hash_algorithm_bitmap`.
    pub active_pcr_banks: HashAlgorithm,
}

/// The little-endian number held by two bytes at `off`.
pub open spec fn le16(b: Seq<u8>, off: int) -> int {
    b[off] as int + b[off + 1] as int * 256
}

/// The little-endian number held by four bytes at `off`.
pub open spec fn le32(b: Seq<u8>, off: int) -> int {
    le16(b, off) + le16(b, off + 2) * 65536
}

/// How many leading bytes of `b` can be read: the size that the record
/// gives in its first byte, bounded by the bytes at hand and by the size of
/// the record that this library knows.
pub open spec fn known_prefix(b: Seq<u8>) -> int {
    if b.len() == 0 {
        0
    } else {
        let s = b[0] as int;
        let m = if s < b.len() { s } else { b.len() as int };
        if m < CAPABILITY_SIZE as int { m } else { CAPABILITY_SIZE as int }
    }
}

/// The byte at `off`, or zero where it lies beyond the known prefix.
pub open spec fn field8(b: Seq<u8>, off: int) -> u8 {
    if off + 1 <= known_prefix(b) { b[off] } else { 0 }
}

/// The two-byte field at `off`, or zero where it lies beyond the known prefix.
pub open spec fn field16(b: Seq<u8>, off: int) -> u16 {
    if off + 2 <= known_prefix(b) { le16(b, off) as u16 } else { 0 }
}

/// The four-byte field at `off`, or zero where it lies beyond the known prefix.
pub open spec fn field32(b: Seq<u8>, off: int) -> u32 {
    if off + 4 <= known_prefix(b) { le32(b, off) as u32 } else { 0 }
}

/// The capability that an encoded record describes. Fields that lie beyond
/// the known prefix read as zero.
pub open spec fn decoded_capability(b: Seq<u8>) -> BootServiceCapability {
    BootServiceCapability {
        size: if b.len() == 0 { 0 } else { b[0] },
        structure_version: Version { major: field8(b, 1), minor: field8(b, 2) },
        protocol_version: Version { major: field8(b, 3), minor: field8(b, 4) },
        hash_algorithm_bitmap: HashAlgorithm::spec_from_bits(field32(b, 8)),
        supported_event_logs: EventLogFormat::spec_from_bits(field32(b, 12)),
        present_flag: field8(b, 16),
        max_command_size: field16(b, 18),
        max_response_size: field16(b, 20),
        manufacturer_id: field32(b, 24),
        number_of_pcr_banks: field32(b, 28),
        active_pcr_banks: HashAlgorithm::spec_from_bits(field32(b, 32)),
    }
}

/// What reading a record gives: the capability it describes, or, where its
/// active banks are not all supported, an interface failure.
pub open spec fn capability_of(b: Seq<u8>) -> Result<BootServiceCapability, TcgError> {
    if decoded_capability(b).wf() {
        Ok(decoded_capability(b))
    } else {
        Err(TcgError::Interface(DEVICE_ERROR))
    }
}

/// The known prefix of `b`, as an executable value.
fn known_len(b: &[u8]) -> (r: usize)
    ensures
        r as int == known_prefix(b@),
        r <= b@.len(),
        r <= CAPABILITY_SIZE,
{
    if b.len() == 0 {
        0
    } else {
        let s = b[0] as usize;
        let m = if s < b.len() { s } else { b.len() };
        if m < CAPABILITY_SIZE as usize { m } else { CAPABILITY_SIZE as usize }
    }
}

fn read8(b: &[u8], off: usize, known: usize) -> (r: u8)
    requires
        known as int == known_prefix(b@),
        off <= CAPABILITY_SIZE,
    ensures
        r == field8(b@, off as int),
{
    if off + 1 <= known { b[off] } else { 0 }
}

fn read16(b: &[u8], off: usize, known: usize) -> (r: u16)
    requires
        known as int == known_prefix(b@),
        known <= b@.len(),
        off <= CAPABILITY_SIZE,
    ensures
        r == field16(b@, off as int),
{
    if off + 2 <= known {
        b[off] as u16 + b[off + 1] as u16 * 256
    } else {
        0
    }
}

fn read32(b: &[u8], off: usize, known: usize) -> (r: u32)
    requires
        known as int == known_prefix(b@),
        known <= b@.len(),
        off <= CAPABILITY_SIZE,
    ensures
        r == field32(b@, off as int),
{
    if off + 4 <= known {
        b[off] as u32 + b[off + 1] as u32 * 256 + b[off + 2] as u32 * 65536 + b[off + 3] as u32
            * 16777216
    } else {
        0
    }
}

impl BootServiceCapability {
    /// Every bank that is active is a supported one.
    pub open spec fn wf(self) -> bool {
        bits_subset_u32(self.active_pcr_banks@, self.hash_algorithm_bitmap@)
    }

    /// Whether the module is present.
    pub fn tpm_present(&self) -> (r: bool)
        ensures
            r == (self.present_flag != 0),
    {
        self.present_flag != 0
    }

    /// The record handed to the module to be filled: the size of the record
    /// that this library knows in its first byte, zeros after it.
    pub fn request_buffer() -> (r: Vec<u8>)
        ensures
            r@.len() == CAPABILITY_SIZE,
            r@[0] == CAPABILITY_SIZE,
            forall|i: int| 1 <= i < CAPABILITY_SIZE ==> r@[i] == 0,
    {
        let mut v: Vec<u8> = Vec::new();
        v.push(CAPABILITY_SIZE);
        let mut i: usize = 1;
        while i < CAPABILITY_SIZE as usize
            invariant
                1 <= i <= CAPABILITY_SIZE,
                v@.len() == i,
                v@[0] == CAPABILITY_SIZE,
                forall|j: int| 1 <= j < i ==> v@[j] == 0,
            decreases CAPABILITY_SIZE - i,
        {
            v.push(0);
            i = i + 1;
        }
        v
    }

    /// Reads a capability record as the module wrote it. A record whose
    /// active banks are not all supported is malformed, and is refused as an
    /// interface failure.
    pub fn from_bytes(b: &[u8]) -> (r: Result<BootServiceCapability, TcgError>)
        ensures
            r == capability_of(b@),
            r matches Ok(c) ==> c.wf(),
    {
        let k = known_len(b);
        let c = BootServiceCapability {
            size: if b.len() == 0 { 0 } else { b[0] },
            structure_version: Version { major: read8(b, 1, k), minor: read8(b, 2, k) },
            protocol_version: Version { major: read8(b, 3, k), minor: read8(b, 4, k) },
            hash_algorithm_bitmap: HashAlgorithm::from_bits_retain(read32(b, 8, k)),
            supported_event_logs: EventLogFormat::from_bits_retain(read32(b, 12, k)),
            present_flag: read8(b, 16, k),
            max_command_size: read16(b, 18, k),
            max_response_size: read16(b, 20, k),
            manufacturer_id: read32(b, 24, k),
            number_of_pcr_banks: read32(b, 28, k),
            active_pcr_banks: HashAlgorithm::from_bits_retain(read32(b, 32, k)),
        };
        if c.hash_algorithm_bitmap.contains(c.active_pcr_banks) {
            Ok(c)
        } else {
            Err(TcgError::Interface(DEVICE_ERROR))
        }
    }
}

impl Default for BootServiceCapability {
    /// A capability of an absent module: the presence flag clear, every field
    /// zero but the size, which is that of the record this library knows.
    fn default() -> (r: BootServiceCapability)
        ensures
            r.size == CAPABILITY_SIZE,
            r.structure_version == (Version { major: 0, minor: 0 }),
            r.protocol_version == (Version { major: 0, minor: 0 }),
            r.hash_algorithm_bitmap@ == 0,
            r.supported_event_logs@ == 0,
            r.present_flag == 0,
            r.max_command_size == 0,
            r.max_response_size == 0,
            r.manufacturer_id == 0,
            r.number_of_pcr_banks == 0,
            r.active_pcr_banks@ == 0,
            r.wf(),
    {
        assert(0u32 & 0u32 == 0u32) by (bit_vector);
        BootServiceCapability {
            size: CAPABILITY_SIZE,
            structure_version: Version { major: 0, minor: 0 },
            protocol_version: Version { major: 0, minor: 0 },
            hash_algorithm_bitmap: HashAlgorithm::empty(),
            supported_event_logs: EventLogFormat::empty(),
            present_flag: 0,
            max_command_size: 0,
            max_response_size: 0,
            manufacturer_id: 0,
            number_of_pcr_banks: 0,
            active_pcr_banks: HashAlgorithm::empty(),
        }
    }
}

} // verus!
