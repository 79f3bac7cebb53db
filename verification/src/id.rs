//! The identifier itself: sixteen bytes and the two marker fields in them.

use vstd::prelude::*;

verus! {

/// The version number held in the high nibble of byte six.
pub open spec fn version_of(bytes: Seq<u8>) -> u8 {
    bytes[6] >> 4
}

/// Whether the top two bits of byte eight are `10`.
pub open spec fn has_rfc_variant(bytes: Seq<u8>) -> bool {
    bytes[8] >> 6 == 2
}

/// A 128-bit identifier, most significant byte first.
#[derive(Clone, Copy, Debug, PartialEq, Eq, Hash)]
pub struct Uuid {
    pub bytes: [u8; 16],
}

impl View for Uuid {
    type V = Seq<u8>;

    open spec fn view(&self) -> Seq<u8> {
        self.bytes@
    }
}

impl Uuid {
    /// Wraps sixteen bytes without looking at them.
    pub fn from_bytes(bytes: [u8; 16]) -> (id: Uuid)
        ensures
            id@ == bytes@,
            id.bytes == bytes,
    {
        Uuid { bytes }
    }

    /// The sixteen bytes.
    pub fn as_bytes(&self) -> (bytes: &[u8; 16])
        ensures
            bytes@ == self@,
    {
        &self.bytes
    }

    /// The version number, `version_of` of the bytes.
    pub fn version(&self) -> (v: u8)
        ensures
            v == version_of(self@),
    {
        self.bytes[6] >> 4
    }

    /// Whether the variant field marks the standard layout.
    pub fn is_rfc_variant(&self) -> (b: bool)
        ensures
            b == has_rfc_variant(self@),
    {
        self.bytes[8] >> 6 == 2
    }
}

} // verus!
