//! What a caller asks for, and whether it holds all that its version needs.

use vstd::prelude::*;

verus! {

/// The seven versions that can be generated.
#[derive(Clone, Copy, Debug, PartialEq, Eq, PartialOrd, Ord, Hash, Structural)]
pub enum UuidVersion {
    /// Time and node, legacy field order.
    V1,
    /// Namespace and name under MD5.
    V3,
    /// Random.
    V4,
    /// Namespace and name under SHA-1.
    V5,
    /// Time and node, sortable field order.
    V6,
    /// Unix time in milliseconds, then random.
    V7,
    /// The caller's own bytes.
    V8,
}

impl UuidVersion {
    /// The number that the version nibble of a generated identifier holds.
    pub open spec fn spec_number(self) -> u8 {
        match self {
            UuidVersion::V1 => 1,
            UuidVersion::V3 => 3,
            UuidVersion::V4 => 4,
            UuidVersion::V5 => 5,
            UuidVersion::V6 => 6,
            UuidVersion::V7 => 7,
            UuidVersion::V8 => 8,
        }
    }

    /// Whether the version hashes a name within a namespace.
    pub open spec fn spec_is_name_based(self) -> bool {
        self is V3 || self is V5
    }

    /// The number that the version nibble of a generated identifier holds.
    #[verifier::when_used_as_spec(spec_number)]
    pub fn number(self) -> (n: u8)
        ensures
            n == self.spec_number(),
    {
        match self {
            UuidVersion::V1 => 1,
            UuidVersion::V3 => 3,
            UuidVersion::V4 => 4,
            UuidVersion::V5 => 5,
            UuidVersion::V6 => 6,
            UuidVersion::V7 => 7,
            UuidVersion::V8 => 8,
        }
    }

    /// Whether the version hashes a name within a namespace.
    #[verifier::when_used_as_spec(spec_is_name_based)]
    pub fn is_name_based(self) -> (b: bool)
        ensures
            b == self.spec_is_name_based(),
    {
        match self {
            UuidVersion::V3 | UuidVersion::V5 => true,
            _ => false,
        }
    }
}

/// Why no identifier was generated.
#[derive(Clone, Copy, Debug, PartialEq, Eq, Structural)]
pub enum ValidationError {
    /// The version needs a field that the request lacks; each flag says
    /// whether that field is one of them.
    MissingArgument { namespace: bool, name: bool, data: bool },
    /// The namespace is there and is not the text of an identifier.
    InvalidNamespace,
}

/// The parameters of one run of the generator.
#[derive(Debug)]
pub struct GenerationRequest {
    /// Which algorithm to use.
    pub version: UuidVersion,
    /// The namespace identifier as text, for the name-based versions.
    pub namespace: Option<String>,
    /// The name to hash, for the name-based versions.
    pub name: Option<String>,
    /// The bytes to carry, for version eight.
    pub data: Option<Vec<u8>>,
    /// How many identifiers to generate.
    pub count: u32,
    /// Whether the hexadecimal digits are written in upper case.
    pub uppercase: bool,
}

impl GenerationRequest {
    /// Whether the name-based version asked for lacks its namespace.
    pub open spec fn lacks_namespace(&self) -> bool {
        self.version.is_name_based() && self.namespace is None
    }

    /// Whether the name-based version asked for lacks its name.
    pub open spec fn lacks_name(&self) -> bool {
        self.version.is_name_based() && self.name is None
    }

    /// Whether version eight is asked for without its bytes.
    pub open spec fn lacks_data(&self) -> bool {
        self.version is V8 && self.data is None
    }

    /// Whether every field that the version needs is there.
    pub open spec fn is_complete(&self) -> bool {
        !self.lacks_namespace() && !self.lacks_name() && !self.lacks_data()
    }

    /// The error that names the fields an incomplete request lacks.
    pub open spec fn missing_argument(&self) -> ValidationError {
        ValidationError::MissingArgument {
            namespace: self.lacks_namespace(),
            name: self.lacks_name(),
            data: self.lacks_data(),
        }
    }
}

/// Checks that the request holds what its version needs: a namespace and a
/// name for versions three and five, bytes for version eight. The namespace's
/// text is not read here.
pub fn validate(request: &GenerationRequest) -> (r: Result<(), ValidationError>)
    ensures
        request.is_complete() ==> r == Ok::<(), ValidationError>(()),
        !request.is_complete() ==> r == Err::<(), ValidationError>(request.missing_argument()),
{
    let name_based = request.version.is_name_based();
    let namespace = name_based && request.namespace.is_none();
    let name = name_based && request.name.is_none();
    let data = match request.version {
        UuidVersion::V8 => request.data.is_none(),
        _ => false,
    };
    if namespace || name || data {
        Err(ValidationError::MissingArgument { namespace, name, data })
    } else {
        Ok(())
    }
}

} // verus!
