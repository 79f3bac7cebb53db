//! One generator for each version that the `uuid` crate builds, and the
//! dispatch over a whole request.

use vstd::prelude::*;
use vstd::utf8::encode_utf8;
use crate::backend::{
    gregorian_bytes, md5_bytes, md5_name_based, parse_bytes, parsed_uuid, random_bytes,
    sha1_bytes, sha1_name_based, sorted_gregorian_bytes, unix_time_bytes,
};
use crate::clock::{Timestamp, CLOCK_SEED, CLOCK_SEQUENCE_BITS};
use crate::custom::{generate_v8, seeded_layout};
use crate::id::{has_rfc_variant, version_of, Uuid};
use crate::layout::{
    lemma_v1_layout_markers, lemma_v6_layout_markers, millis_prefix, v1_layout, v6_layout,
};
use crate::request::{validate, GenerationRequest, UuidVersion, ValidationError};

verus! {

/// The node identifier of the time-ordered versions: a fixed placeholder, so
/// that no hardware address is given away.
pub open spec fn spec_node_id() -> Seq<u8> {
    seq![0x01u8, 0x23u8, 0x45u8, 0x67u8, 0x89u8, 0xABu8]
}

/// The node identifier of the time-ordered versions.
pub fn node_id() -> (node: [u8; 6])
    ensures
        node@ == spec_node_id(),
{
    let node: [u8; 6] = [0x01, 0x23, 0x45, 0x67, 0x89, 0xAB];
    assert(node@ =~= spec_node_id());
    node
}

/// Version one from a clock reading and a node identifier.
pub fn generate_v1(ts: &Timestamp, node: &[u8; 6]) -> (id: Uuid)
    ensures
        id@ == v1_layout(ts.ticks(), ts.counter, node@),
        version_of(id@) == 1,
        has_rfc_variant(id@),
{
    let bytes = gregorian_bytes(
        ts.seconds,
        ts.subsec_nanos,
        ts.counter,
        CLOCK_SEQUENCE_BITS,
        node,
    );
    proof {
        lemma_v1_layout_markers(ts.ticks(), ts.counter, node@);
    }
    Uuid::from_bytes(bytes)
}

/// Version six from a clock reading and a node identifier.
pub fn generate_v6(ts: &Timestamp, node: &[u8; 6]) -> (id: Uuid)
    ensures
        id@ == v6_layout(ts.ticks(), ts.counter, node@),
        version_of(id@) == 6,
        has_rfc_variant(id@),
{
    let bytes = sorted_gregorian_bytes(
        ts.seconds,
        ts.subsec_nanos,
        ts.counter,
        CLOCK_SEQUENCE_BITS,
        node,
    );
    proof {
        lemma_v6_layout_markers(ts.ticks(), ts.counter, node@);
    }
    Uuid::from_bytes(bytes)
}

/// Version seven from a clock reading: the milliseconds in the first six
/// bytes, then random bits under the version and variant fields. The clock
/// sequence is left out, so that all seventy-four bits that remain are random.
pub fn generate_v7(ts: &Timestamp) -> (id: Uuid)
    ensures
        id@.subrange(0, 6) == millis_prefix(ts.millis()),
        version_of(id@) == 7,
        has_rfc_variant(id@),
{
    Uuid::from_bytes(unix_time_bytes(ts.seconds, ts.subsec_nanos, 0, 0))
}

/// Version four: random bits under the version and variant fields.
pub fn generate_v4() -> (id: Uuid)
    ensures
        version_of(id@) == 4,
        has_rfc_variant(id@),
{
    Uuid::from_bytes(random_bytes())
}

/// Version three: the MD5 identifier of `name` within `namespace`. The same
/// namespace and name give the same identifier.
pub fn generate_v3(namespace: &Uuid, name: &[u8]) -> (id: Uuid)
    ensures
        id@ == md5_name_based(namespace@, name@),
        version_of(id@) == 3,
        has_rfc_variant(id@),
{
    Uuid::from_bytes(md5_bytes(namespace.as_bytes(), name))
}

/// Version five: the SHA-1 identifier of `name` within `namespace`. The same
/// namespace and name give the same identifier.
pub fn generate_v5(namespace: &Uuid, name: &[u8]) -> (id: Uuid)
    ensures
        id@ == sha1_name_based(namespace@, name@),
        version_of(id@) == 5,
        has_rfc_variant(id@),
{
    Uuid::from_bytes(sha1_bytes(namespace.as_bytes(), name))
}

/// Reads a namespace from its text. Text that is no identifier is an error,
/// never replaced by a default.
pub fn parse_namespace(text: &str) -> (r: Result<Uuid, ValidationError>)
    ensures
        match parsed_uuid(text@) {
            Some(bytes) => r matches Ok(id) && id@ == bytes,
            None => r == Err::<Uuid, ValidationError>(ValidationError::InvalidNamespace),
        },
{
    match parse_bytes(text) {
        Ok(bytes) => Ok(Uuid::from_bytes(bytes)),
        Err(_) => Err(ValidationError::InvalidNamespace),
    }
}

/// Whether the request names a namespace whose text is no identifier.
pub open spec fn has_invalid_namespace(request: &GenerationRequest) -> bool {
    &&& request.version.is_name_based()
    &&& request.namespace matches Some(text)
    &&& parsed_uuid(text@) is None
}

/// Whether `bytes` is an identifier that answers `request`: of the version
/// asked for, with the variant bits `10`, and
/// - for versions one and six, of some time, with the clock sequence
///   `CLOCK_SEED` and the fixed node identifier;
/// - for versions three and five, the one identifier of the name within the
///   namespace;
/// - for version eight, the request's bytes under the two marker fields.
pub open spec fn fulfils(request: &GenerationRequest, bytes: Seq<u8>) -> bool {
    &&& bytes.len() == 16
    &&& version_of(bytes) == request.version.number()
    &&& has_rfc_variant(bytes)
    &&& match request.version {
        UuidVersion::V1 => exists|ticks: u64|
            bytes == #[trigger] v1_layout(ticks, CLOCK_SEED, spec_node_id()),
        UuidVersion::V6 => exists|ticks: u64|
            bytes == #[trigger] v6_layout(ticks, CLOCK_SEED, spec_node_id()),
        UuidVersion::V3 => {
            &&& request.namespace matches Some(text)
            &&& request.name matches Some(name)
            &&& parsed_uuid(text@) matches Some(namespace)
            &&& bytes == md5_name_based(namespace, encode_utf8(name@))
        },
        UuidVersion::V5 => {
            &&& request.namespace matches Some(text)
            &&& request.name matches Some(name)
            &&& parsed_uuid(text@) matches Some(namespace)
            &&& bytes == sha1_name_based(namespace, encode_utf8(name@))
        },
        UuidVersion::V8 => {
            &&& request.data matches Some(data)
            &&& bytes == seeded_layout(data@)
        },
        UuidVersion::V4 | UuidVersion::V7 => true,
    }
}

/// A name-based request leaves no choice: any two identifiers that fulfil it
/// are the same, so that generating twice from one namespace and one name
/// gives one identifier.
pub proof fn lemma_name_based_is_deterministic(
    request: &GenerationRequest,
    first: Seq<u8>,
    second: Seq<u8>,
)
    requires
        request.version.is_name_based(),
        fulfils(request, first),
        fulfils(request, second),
    ensures
        first == second,
{
}

/// Generates one identifier of the version that the request asks for.
///
/// An incomplete request is refused with the fields it lacks, and a namespace
/// that is no identifier with `InvalidNamespace`; every other request gets an
/// identifier that fulfils it. Versions one, six and seven read the system
/// clock, versions four and seven the system's random source.
pub fn generate_uuid(request: &GenerationRequest) -> (r: Result<Uuid, ValidationError>)
    ensures
        !request.is_complete() ==> r == Err::<Uuid, ValidationError>(
            request.missing_argument(),
        ),
        request.is_complete() && has_invalid_namespace(request) ==> r == Err::<
            Uuid,
            ValidationError,
        >(ValidationError::InvalidNamespace),
        request.is_complete() && !has_invalid_namespace(request) ==> (r matches Ok(id)
            && fulfils(request, id@)),
        r matches Ok(id) ==> version_of(id@) == request.version.number() && has_rfc_variant(
            id@,
        ),
{
    match validate(request) {
        Err(e) => Err(e),
        Ok(_) => match request.version {
            UuidVersion::V1 => {
                let ts = Timestamp::now(CLOCK_SEED);
                let node = node_id();
                let id = generate_v1(&ts, &node);
                proof {
                    assert(CLOCK_SEED & 0x3FFF == CLOCK_SEED) by (bit_vector);
                    assert(id@ == v1_layout(ts.ticks(), CLOCK_SEED, spec_node_id()));
                }
                Ok(id)
            },
            UuidVersion::V6 => {
                let ts = Timestamp::now(CLOCK_SEED);
                let node = node_id();
                let id = generate_v6(&ts, &node);
                proof {
                    assert(CLOCK_SEED & 0x3FFF == CLOCK_SEED) by (bit_vector);
                    assert(id@ == v6_layout(ts.ticks(), CLOCK_SEED, spec_node_id()));
                }
                Ok(id)
            },
            UuidVersion::V7 => {
                let ts = Timestamp::now(CLOCK_SEED);
                Ok(generate_v7(&ts))
            },
            UuidVersion::V4 => Ok(generate_v4()),
            UuidVersion::V3 => {
                let name = request.name.as_ref().unwrap();
                match parse_namespace(request.namespace.as_ref().unwrap().as_str()) {
                    Err(e) => Err(e),
                    Ok(namespace) => Ok(generate_v3(&namespace, name.as_str().as_bytes())),
                }
            },
            UuidVersion::V5 => {
                let name = request.name.as_ref().unwrap();
                match parse_namespace(request.namespace.as_ref().unwrap().as_str()) {
                    Err(e) => Err(e),
                    Ok(namespace) => Ok(generate_v5(&namespace, name.as_str().as_bytes())),
                }
            },
            UuidVersion::V8 => Ok(generate_v8(request.data.as_ref().unwrap().as_slice())),
        },
    }
}

} // verus!
