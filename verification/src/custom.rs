//! Version eight: the caller's own bytes under the two marker fields.

use vstd::prelude::*;
use crate::id::{has_rfc_variant, version_of, Uuid};

verus! {

/// The first sixteen bytes of `data`, with zeros after its end where it is
/// shorter.
pub open spec fn padded(data: Seq<u8>) -> Seq<u8> {
    Seq::new(16, |i: int| if i < data.len() { data[i] } else { 0u8 })
}

/// `padded(data)` with the version nibble set to eight and the variant bits
/// set to `10`; every other bit is the caller's.
pub open spec fn seeded_layout(data: Seq<u8>) -> Seq<u8> {
    let p = padded(data);
    p.update(6, (p[6] & 0x0F) | 0x80).update(8, (p[8] & 0x3F) | 0x80)
}

/// Only the high nibble of byte six and the top two bits of byte eight differ
/// from the padded input: the other fourteen bytes are equal to it, and so are
/// the low nibble of byte six and the low six bits of byte eight.
pub proof fn lemma_seeded_keeps_input(data: Seq<u8>)
    ensures
        seeded_layout(data).len() == 16,
        forall|i: int|
            0 <= i < 16 && i != 6 && i != 8 ==> #[trigger] seeded_layout(data)[i] == padded(
                data,
            )[i],
        seeded_layout(data)[6] & 0x0F == padded(data)[6] & 0x0F,
        seeded_layout(data)[8] & 0x3F == padded(data)[8] & 0x3F,
        version_of(seeded_layout(data)) == 8,
        has_rfc_variant(seeded_layout(data)),
{
    let p = padded(data);
    let b6: u8 = p[6];
    let b8: u8 = p[8];
    assert(((b6 & 0x0F) | 0x80) & 0x0F == b6 & 0x0F) by (bit_vector);
    assert(((b6 & 0x0F) | 0x80) >> 4 == 8) by (bit_vector);
    assert(((b8 & 0x3F) | 0x80) & 0x3F == b8 & 0x3F) by (bit_vector);
    assert(((b8 & 0x3F) | 0x80) >> 6 == 2) by (bit_vector);
}

/// Bytes after the sixteenth play no part.
pub proof fn lemma_seeded_ignores_tail(data: Seq<u8>)
    requires
        data.len() >= 16,
    ensures
        seeded_layout(data) == seeded_layout(data.subrange(0, 16)),
{
    assert(padded(data) =~= padded(data.subrange(0, 16)));
}

/// Builds a version eight identifier from up to sixteen bytes of `data`:
/// shorter input is padded with zeros on the right, longer input is cut after
/// its sixteenth byte, and nothing is hashed.
pub fn generate_v8(data: &[u8]) -> (id: Uuid)
    ensures
        id@ == seeded_layout(data@),
        version_of(id@) == 8,
        has_rfc_variant(id@),
{
    let mut bytes: [u8; 16] = [0u8; 16];
    let mut i: usize = 0;
    while i < 16 && i < data.len()
        invariant
            i <= 16,
            i <= data.len(),
            forall|j: int| 0 <= j < i ==> bytes@[j] == data@[j],
            forall|j: int| i <= j < 16 ==> bytes@[j] == 0u8,
        decreases 16 - i,
    {
        bytes[i] = data[i];
        i += 1;
    }
    assert(bytes@ =~= padded(data@));
    bytes[6] = (bytes[6] & 0x0F) | 0x80;
    bytes[8] = (bytes[8] & 0x3F) | 0x80;
    proof {
        lemma_seeded_keeps_input(data@);
        assert(bytes@ =~= seeded_layout(data@));
    }
    Uuid::from_bytes(bytes)
}

} // verus!
