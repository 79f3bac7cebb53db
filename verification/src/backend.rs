//! The calls into the `uuid` crate. Nothing in this file is proved: each
//! contract records what the crate's source shows of the function called.

use vstd::prelude::*;
use crate::id::{has_rfc_variant, version_of};
use crate::layout::{gregorian_ticks, millis_prefix, unix_millis, v1_layout, v6_layout};

verus! {

/// The error of `uuid::Uuid::parse_str`, carried and never read.
#[verifier::external_type_specification]
#[verifier::external_body]
pub struct ExParseError(uuid::Error);

/// The bytes that `uuid::Uuid::parse_str` reads from `input`, or `None` where
/// it refuses the text. It takes thirty-two hexadecimal digits of either case:
/// bare, in the hyphenated groups 8-4-4-4-12, those groups in braces, or those
/// groups behind `urn:uuid:`.
pub uninterp spec fn parsed_uuid(input: Seq<char>) -> Option<Seq<u8>>;

/// The bytes of `uuid::Uuid::new_v3` for a namespace and a name: the MD5
/// digest of the namespace's bytes followed by the name's, under the version
/// and variant fields.
pub uninterp spec fn md5_name_based(namespace: Seq<u8>, name: Seq<u8>) -> Seq<u8>;

/// The bytes of `uuid::Uuid::new_v5` for a namespace and a name: the first
/// sixteen bytes of the SHA-1 digest of the namespace's bytes followed by the
/// name's, under the version and variant fields.
pub uninterp spec fn sha1_name_based(namespace: Seq<u8>, name: Seq<u8>) -> Seq<u8>;

/// `uuid::Uuid::parse_str`. The result is a function of the text alone.
#[verifier::external_body]
pub(crate) fn parse_bytes(input: &str) -> (r: Result<[u8; 16], uuid::Error>)
    ensures
        r matches Ok(bytes) ==> parsed_uuid(input@) == Some(bytes@),
        r is Err ==> parsed_uuid(input@) is None,
{
    uuid::Uuid::parse_str(input).map(uuid::Uuid::into_bytes)
}

/// `uuid::Timestamp::now` with a fresh `uuid::ContextV1` started at `seed`:
/// seconds and nanoseconds since the Unix epoch as the system clock gives
/// them, and the first value of the context's counter, which is the low
/// fourteen bits of `seed`. Nothing is claimed of the time. The call panics
/// where the system clock stands before the Unix epoch.
#[verifier::external_body]
pub(crate) fn system_clock(seed: u16) -> (reading: (u64, u32, u16))
    ensures
        reading.2 == seed & 0x3FFF,
{
    let now = uuid::Timestamp::now(uuid::ContextV1::new(seed));
    (now.to_unix().0, now.to_unix().1, now.to_gregorian().1)
}

/// `uuid::Uuid::new_v1` on a timestamp made of the given parts. The crate
/// turns the time into ticks since 1582-10-15, wrapping, and lays the fields
/// out as `v1_layout` says; the counter's width plays no part.
#[verifier::external_body]
pub(crate) fn gregorian_bytes(
    seconds: u64,
    subsec_nanos: u32,
    counter: u16,
    counter_bits: u8,
    node: &[u8; 6],
) -> (out: [u8; 16])
    ensures
        out@ == v1_layout(gregorian_ticks(seconds, subsec_nanos), counter, node@),
{
    let ts = uuid::Timestamp::from_unix_time(
        seconds,
        subsec_nanos,
        u128::from(counter),
        counter_bits,
    );
    uuid::Uuid::new_v1(ts, node).into_bytes()
}

/// `uuid::Uuid::new_v6` on a timestamp made of the given parts: the same
/// ticks as for version one, laid out as `v6_layout` says.
#[verifier::external_body]
pub(crate) fn sorted_gregorian_bytes(
    seconds: u64,
    subsec_nanos: u32,
    counter: u16,
    counter_bits: u8,
    node: &[u8; 6],
) -> (out: [u8; 16])
    ensures
        out@ == v6_layout(gregorian_ticks(seconds, subsec_nanos), counter, node@),
{
    let ts = uuid::Timestamp::from_unix_time(
        seconds,
        subsec_nanos,
        u128::from(counter),
        counter_bits,
    );
    uuid::Uuid::new_v6(ts, node).into_bytes()
}

/// `uuid::Uuid::new_v7` on a timestamp made of the given parts. The first six
/// bytes hold the time in milliseconds, held at `u64::MAX` where it would not
/// fit; the rest holds the counter, as far as it has a width, and bytes from
/// the operating system's random source. Of the rest only the version and
/// variant fields are claimed. The call panics where that source fails.
#[verifier::external_body]
pub(crate) fn unix_time_bytes(
    seconds: u64,
    subsec_nanos: u32,
    counter: u16,
    counter_bits: u8,
) -> (out: [u8; 16])
    ensures
        out@.subrange(0, 6) == millis_prefix(unix_millis(seconds, subsec_nanos)),
        version_of(out@) == 7,
        has_rfc_variant(out@),
{
    let ts = uuid::Timestamp::from_unix_time(
        seconds,
        subsec_nanos,
        u128::from(counter),
        counter_bits,
    );
    uuid::Uuid::new_v7(ts).into_bytes()
}

/// `uuid::Uuid::new_v4`: sixteen bytes from the operating system's random
/// source under the version and variant fields. The call panics where that
/// source fails.
#[verifier::external_body]
pub(crate) fn random_bytes() -> (out: [u8; 16])
    ensures
        version_of(out@) == 4,
        has_rfc_variant(out@),
{
    uuid::Uuid::new_v4().into_bytes()
}

/// `uuid::Uuid::new_v3`. The crate sets the version nibble to three and the
/// variant bits to `10` after hashing.
#[verifier::external_body]
pub(crate) fn md5_bytes(namespace: &[u8; 16], name: &[u8]) -> (out: [u8; 16])
    ensures
        out@ == md5_name_based(namespace@, name@),
        version_of(out@) == 3,
        has_rfc_variant(out@),
{
    uuid::Uuid::new_v3(&uuid::Uuid::from_bytes(*namespace), name).into_bytes()
}

/// `uuid::Uuid::new_v5`. The crate sets the version nibble to five and the
/// variant bits to `10` after hashing.
#[verifier::external_body]
pub(crate) fn sha1_bytes(namespace: &[u8; 16], name: &[u8]) -> (out: [u8; 16])
    ensures
        out@ == sha1_name_based(namespace@, name@),
        version_of(out@) == 5,
        has_rfc_variant(out@),
{
    uuid::Uuid::new_v5(&uuid::Uuid::from_bytes(*namespace), name).into_bytes()
}

} // verus!
