//! Identities of the computers taking part: a device fingerprint and the
//! operating system family it runs.

use vstd::prelude::*;
use crate::lexical::{compare_bytes, lex_lt};

verus! {

/// A device's public identity fingerprint: 32 bytes.
#[derive(Debug, Clone, Copy, Eq, Hash)]
pub struct DeviceId {
    bytes: [u8; 32],
}

impl View for DeviceId {
    type V = Seq<u8>;

    closed spec fn view(&self) -> Seq<u8> {
        self.bytes@
    }
}

/// Every fingerprint is 32 bytes long.
pub proof fn lemma_device_id_len(d: DeviceId)
    ensures
        d@.len() == 32,
{
}

/// Two identities with the same bytes are the same identity.
pub proof fn lemma_device_view_injective(a: DeviceId, b: DeviceId)
    ensures
        a@ == b@ <==> a == b,
{
    if a@ == b@ {
        assert(a.bytes =~= b.bytes);
    }
}

impl PartialEq for DeviceId {
    fn eq(&self, other: &DeviceId) -> (r: bool) {
        let mut i: usize = 0;
        while i < 32
            invariant
                i <= 32,
                forall|j: int| 0 <= j < i ==> self.bytes@[j] == other.bytes@[j],
            decreases 32 - i,
        {
            if self.bytes[i] != other.bytes[i] {
                return false;
            }
            i = i + 1;
        }
        assert(self.bytes@ =~= other.bytes@);
        true
    }
}

impl vstd::std_specs::cmp::PartialEqSpecImpl for DeviceId {
    open spec fn obeys_eq_spec() -> bool {
        true
    }

    open spec fn eq_spec(&self, other: &DeviceId) -> bool {
        self@ == other@
    }
}

impl DeviceId {
    /// Builds an identity from its raw bytes.
    pub fn from_bytes(bytes: [u8; 32]) -> (d: DeviceId)
        ensures
            d@ == bytes@,
    {
        DeviceId { bytes }
    }

    /// The raw bytes.
    pub fn to_bytes(&self) -> (b: [u8; 32])
        ensures
            b@ == self@,
    {
        self.bytes
    }

    /// The same identity, compared by value: the exact `==` of the bytes.
    pub fn same(&self, other: &DeviceId) -> (r: bool)
        ensures
            r == (self@ == other@),
    {
        *self == *other
    }

    /// True when this identity sorts strictly before `other`, byte by byte.
    pub fn precedes(&self, other: &DeviceId) -> (r: bool)
        ensures
            r == lex_lt(self@, other@),
    {
        compare_bytes(self.bytes.as_slice(), other.bytes.as_slice()) < 0
    }
}

/// Operating system family.
#[derive(Debug, Clone, Copy, PartialEq, Eq, Structural, Hash)]
pub enum OsKind {
    /// Apple macOS.
    MacOs,
    /// Microsoft Windows.
    Windows,
    /// Anything else, including a family a newer peer reports that this build
    /// does not know.
    Unknown,
}

} // verus!
