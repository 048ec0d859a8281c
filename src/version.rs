use vstd::prelude::*;

verus! {

/// Version information: a major and a minor component.
///
/// Versions order lexicographically, by `major` first and then by `minor`.
#[derive(Clone, Copy, Debug, Default, PartialEq, Eq, Structural, Ord)]
pub struct Version {
    /// Major version.
    pub major: u8,
    /// Minor version.
    pub minor: u8,
}

impl Version {
    /// The position of a version in the lexicographic order, as one number.
    pub open spec fn rank(self) -> int {
        self.major as int * 256 + self.minor as int
    }

    /// Builds a version from its two components.
    pub fn new(major: u8, minor: u8) -> (r: Version)
        ensures
            r.major == major,
            r.minor == minor,
    {
        Version { major, minor }
    }
}

/// The order of versions is lexicographic: by major version, then by minor.
pub proof fn lemma_order_lexicographic(a: Version, b: Version)
    ensures
        a.rank() < b.rank() <==> (a.major < b.major || (a.major == b.major && a.minor < b.minor)),
        a.rank() == b.rank() <==> a == b,
{
}

impl PartialOrd for Version {
    fn partial_cmp(&self, other: &Version) -> (r: Option<core::cmp::Ordering>) {
        if self.major < other.major {
            Some(core::cmp::Ordering::Less)
        } else if self.major > other.major {
            Some(core::cmp::Ordering::Greater)
        } else if self.minor < other.minor {
            Some(core::cmp::Ordering::Less)
        } else if self.minor > other.minor {
            Some(core::cmp::Ordering::Greater)
        } else {
            Some(core::cmp::Ordering::Equal)
        }
    }
}

impl vstd::std_specs::cmp::PartialOrdSpecImpl for Version {
    open spec fn obeys_partial_cmp_spec() -> bool {
        true
    }

    open spec fn partial_cmp_spec(&self, other: &Version) -> Option<core::cmp::Ordering> {
        if self.rank() < other.rank() {
            Some(core::cmp::Ordering::Less)
        } else if self.rank() > other.rank() {
            Some(core::cmp::Ordering::Greater)
        } else {
            Some(core::cmp::Ordering::Equal)
        }
    }
}

} // verus!
