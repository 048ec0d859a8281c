use vstd::prelude::*;

verus! {

/// A set of hash algorithms, one bit each; used for the supported PCR banks,
/// the active ones and the ones requested.
#[derive(Clone, Copy, Debug, Default, PartialEq, Eq, Structural, PartialOrd, Ord, Hash)]
pub struct HashAlgorithm {
    /// One bit per member of the set.
    pub bits: u32,
}

impl View for HashAlgorithm {
    type V = u32;

    open spec fn view(&self) -> u32 {
        self.bits
    }
}

impl HashAlgorithm {
    /// The set with exactly the given bits.
    pub open spec fn spec_from_bits(bits: u32) -> HashAlgorithm {
        HashAlgorithm { bits }
    }

    /// SHA-1.
    pub fn sha1() -> (r: HashAlgorithm)
        ensures
            r@ == 0x0000_0001,
    {
        HashAlgorithm { bits: 0x0000_0001 }
    }
    /// SHA-256.
    pub fn sha256() -> (r: HashAlgorithm)
        ensures
            r@ == 0x0000_0002,
    {
        HashAlgorithm { bits: 0x0000_0002 }
    }
    /// SHA-384.
    pub fn sha384() -> (r: HashAlgorithm)
        ensures
            r@ == 0x0000_0004,
    {
        HashAlgorithm { bits: 0x0000_0004 }
    }
    /// SHA-512.
    pub fn sha512() -> (r: HashAlgorithm)
        ensures
            r@ == 0x0000_0008,
    {
        HashAlgorithm { bits: 0x0000_0008 }
    }
    /// SM3-256.
    pub fn sm3_256() -> (r: HashAlgorithm)
        ensures
            r@ == 0x0000_0010,
    {
        HashAlgorithm { bits: 0x0000_0010 }
    }

    /// The empty set.
    pub fn empty() -> (r: HashAlgorithm)
        ensures
            r@ == 0,
    {
        HashAlgorithm { bits: 0 }
    }

    /// The set with exactly the given bits, known or not.
    pub fn from_bits_retain(bits: u32) -> (r: HashAlgorithm)
        ensures
            r@ == bits,
    {
        HashAlgorithm { bits }
    }

    /// The raw bits.
    pub fn bits(&self) -> (r: u32)
        ensures
            r == self@,
    {
        self.bits
    }

    /// The union of the two sets.
    pub fn union(&self, other: HashAlgorithm) -> (r: HashAlgorithm)
        ensures
            r@ == self@ | other@,
    {
        HashAlgorithm { bits: self.bits | other.bits }
    }

    /// Whether every bit of `other` is also in `self`.
    pub fn contains(&self, other: HashAlgorithm) -> (r: bool)
        ensures
            r == bits_subset_u32(other@, self@),
    {
        self.bits & other.bits == other.bits
    }
}

/// The event log formats a module can produce, one bit each.
#[derive(Clone, Copy, Debug, Default, PartialEq, Eq, Structural, PartialOrd, Ord, Hash)]
pub struct EventLogFormat {
    /// One bit per member of the set.
    pub bits: u32,
}

impl View for EventLogFormat {
    type V = u32;

    open spec fn view(&self) -> u32 {
        self.bits
    }
}

impl EventLogFormat {
    /// The set with exactly the given bits.
    pub open spec fn spec_from_bits(bits: u32) -> EventLogFormat {
        EventLogFormat { bits }
    }

    /// The SHA-1 only log format.
    pub fn tcg_1_2() -> (r: EventLogFormat)
        ensures
            r@ == 0x0000_0001,
    {
        EventLogFormat { bits: 0x0000_0001 }
    }
    /// The crypto-agile log format.
    pub fn tcg_2() -> (r: EventLogFormat)
        ensures
            r@ == 0x0000_0002,
    {
        EventLogFormat { bits: 0x0000_0002 }
    }

    /// The empty set.
    pub fn empty() -> (r: EventLogFormat)
        ensures
            r@ == 0,
    {
        EventLogFormat { bits: 0 }
    }

    /// The set with exactly the given bits, known or not.
    pub fn from_bits_retain(bits: u32) -> (r: EventLogFormat)
        ensures
            r@ == bits,
    {
        EventLogFormat { bits }
    }

    /// The raw bits.
    pub fn bits(&self) -> (r: u32)
        ensures
            r == self@,
    {
        self.bits
    }

    /// The union of the two sets.
    pub fn union(&self, other: EventLogFormat) -> (r: EventLogFormat)
        ensures
            r@ == self@ | other@,
    {
        EventLogFormat { bits: self.bits | other.bits }
    }

    /// Whether every bit of `other` is also in `self`.
    pub fn contains(&self, other: EventLogFormat) -> (r: bool)
        ensures
            r == bits_subset_u32(other@, self@),
    {
        self.bits & other.bits == other.bits
    }

    /// Whether this is exactly one of the named formats.
    pub open spec fn is_single_format(self) -> bool {
        self@ == 1 || self@ == 2
    }

    /// Whether this is exactly one of the named formats.
    pub fn is_single(&self) -> (r: bool)
        ensures
            r == self.is_single_format(),
    {
        self.bits == 1 || self.bits == 2
    }
}

/// Modifiers of a hash-extend-and-log operation.
#[derive(Clone, Copy, Debug, Default, PartialEq, Eq, Structural, PartialOrd, Ord, Hash)]
pub struct HashLogExtendEventFlags {
    /// One bit per member of the set.
    pub bits: u64,
}

impl View for HashLogExtendEventFlags {
    type V = u64;

    open spec fn view(&self) -> u64 {
        self.bits
    }
}

impl HashLogExtendEventFlags {
    /// Extend the PCRs but do not append to the log.
    pub fn efi_tcg2_extend_only() -> (r: HashLogExtendEventFlags)
        ensures
            r@ == 0x0000_0000_0000_0001,
    {
        HashLogExtendEventFlags { bits: 0x0000_0000_0000_0001 }
    }
    /// The measured data is a loaded PE/COFF image.
    pub fn pe_coff_image() -> (r: HashLogExtendEventFlags)
        ensures
            r@ == 0x0000_0000_0000_0010,
    {
        HashLogExtendEventFlags { bits: 0x0000_0000_0000_0010 }
    }

    /// The empty set.
    pub fn empty() -> (r: HashLogExtendEventFlags)
        ensures
            r@ == 0,
    {
        HashLogExtendEventFlags { bits: 0 }
    }

    /// The set with exactly the given bits, known or not.
    pub fn from_bits_retain(bits: u64) -> (r: HashLogExtendEventFlags)
        ensures
            r@ == bits,
    {
        HashLogExtendEventFlags { bits }
    }

    /// The raw bits.
    pub fn bits(&self) -> (r: u64)
        ensures
            r == self@,
    {
        self.bits
    }

    /// The union of the two sets.
    pub fn union(&self, other: HashLogExtendEventFlags) -> (r: HashLogExtendEventFlags)
        ensures
            r@ == self@ | other@,
    {
        HashLogExtendEventFlags { bits: self.bits | other.bits }
    }

    /// Whether every bit of `other` is also in `self`.
    pub fn contains(&self, other: HashLogExtendEventFlags) -> (r: bool)
        ensures
            r == (self@ & other@ == other@),
    {
        self.bits & other.bits == other.bits
    }
}

/// Every bit set in `a` is set in `b`.
pub open spec fn bits_subset_u32(a: u32, b: u32) -> bool {
    b & a == a
}

} // verus!
