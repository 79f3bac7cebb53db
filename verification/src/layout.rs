//! The byte layouts of the time-ordered versions, as functions of the clock
//! reading that goes into them.

use vstd::prelude::*;
use crate::id::{has_rfc_variant, version_of};

verus! {

/// The number of 100-nanosecond ticks from 1582-10-15 00:00:00 to
/// 1970-01-01 00:00:00.
pub const GREGORIAN_OFFSET: u64 = 0x01B2_1DD2_1381_4000;

/// A time after the Unix epoch as 100-nanosecond ticks since 1582-10-15,
/// wrapping round in 64 bits.
pub open spec fn gregorian_ticks(seconds: u64, subsec_nanos: u32) -> u64 {
    ((GREGORIAN_OFFSET + seconds * 10_000_000 + subsec_nanos / 100)
        % 0x1_0000_0000_0000_0000) as u64
}

/// A time after the Unix epoch in whole milliseconds, held at `u64::MAX` where
/// it would not fit.
pub open spec fn unix_millis(seconds: u64, subsec_nanos: u32) -> u64 {
    let exact = seconds * 1000 + subsec_nanos / 1_000_000;
    if exact > u64::MAX {
        u64::MAX
    } else {
        exact as u64
    }
}

/// Three integer fields, most significant byte first, followed by `tail`.
pub open spec fn field_bytes(d1: u32, d2: u16, d3: u16, tail: Seq<u8>) -> Seq<u8> {
    seq![
        (d1 >> 24) as u8,
        (d1 >> 16) as u8,
        (d1 >> 8) as u8,
        d1 as u8,
        (d2 >> 8) as u8,
        d2 as u8,
        (d3 >> 8) as u8,
        d3 as u8,
    ] + tail
}

/// The low fourteen bits of the clock sequence under the variant bits `10`,
/// followed by the node identifier.
pub open spec fn clock_and_node(counter: u16, node: Seq<u8>) -> Seq<u8> {
    seq![(((counter & 0x3F00) >> 8) as u8) | 0x80, (counter & 0xFF) as u8] + node
}

/// Version one: time-low, time-mid, time-high-and-version,
/// clock-seq-and-reserved, node. The top four bits of `ticks` are not held.
pub open spec fn v1_layout(ticks: u64, counter: u16, node: Seq<u8>) -> Seq<u8> {
    let time_low = (ticks & 0xFFFF_FFFF) as u32;
    let time_mid = ((ticks >> 32) & 0xFFFF) as u16;
    let time_high_and_version = (((ticks >> 48) & 0x0FFF) as u16) | 0x1000;
    field_bytes(time_low, time_mid, time_high_and_version, clock_and_node(counter, node))
}

/// Version six: the same sixty bits of `ticks` with the most significant first,
/// so that identifiers sort by time; then the clock sequence and the node.
pub open spec fn v6_layout(ticks: u64, counter: u16, node: Seq<u8>) -> Seq<u8> {
    let time_high = ((ticks >> 28) & 0xFFFF_FFFF) as u32;
    let time_mid = ((ticks >> 12) & 0xFFFF) as u16;
    let time_low_and_version = ((ticks & 0x0FFF) as u16) | 0x6000;
    field_bytes(time_high, time_mid, time_low_and_version, clock_and_node(counter, node))
}

/// The low forty-eight bits of `millis`, most significant byte first: the
/// first six bytes of a version seven identifier.
pub open spec fn millis_prefix(millis: u64) -> Seq<u8> {
    seq![
        (millis >> 40) as u8,
        (millis >> 32) as u8,
        (millis >> 24) as u8,
        (millis >> 16) as u8,
        (millis >> 8) as u8,
        millis as u8,
    ]
}

/// A version one layout has sixteen bytes, the version nibble one, the variant
/// bits `10`, and the node identifier in its last six bytes.
pub proof fn lemma_v1_layout_markers(ticks: u64, counter: u16, node: Seq<u8>)
    requires
        node.len() == 6,
    ensures
        v1_layout(ticks, counter, node).len() == 16,
        version_of(v1_layout(ticks, counter, node)) == 1,
        has_rfc_variant(v1_layout(ticks, counter, node)),
        v1_layout(ticks, counter, node).subrange(10, 16) == node,
{
    assert((((((ticks >> 48) & 0x0FFF) as u16) | 0x1000u16) >> 8) as u8 >> 4 == 1)
        by (bit_vector);
    assert(((((counter & 0x3F00) >> 8) as u8) | 0x80u8) >> 6 == 2) by (bit_vector);
    assert(v1_layout(ticks, counter, node).subrange(10, 16) =~= node);
}

/// A version six layout has sixteen bytes, the version nibble six, the variant
/// bits `10`, and the node identifier in its last six bytes.
pub proof fn lemma_v6_layout_markers(ticks: u64, counter: u16, node: Seq<u8>)
    requires
        node.len() == 6,
    ensures
        v6_layout(ticks, counter, node).len() == 16,
        version_of(v6_layout(ticks, counter, node)) == 6,
        has_rfc_variant(v6_layout(ticks, counter, node)),
        v6_layout(ticks, counter, node).subrange(10, 16) == node,
{
    assert(((((ticks & 0x0FFF) as u16) | 0x6000u16) >> 8) as u8 >> 4 == 6) by (bit_vector);
    assert(((((counter & 0x3F00) >> 8) as u8) | 0x80u8) >> 6 == 2) by (bit_vector);
    assert(v6_layout(ticks, counter, node).subrange(10, 16) =~= node);
}

} // verus!
