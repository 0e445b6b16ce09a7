//! Deciding which of the two schema shapes a raw document has.

use vstd::prelude::*;
use vstd::string::StringExecFns;

verus! {

/// The two schema shapes.
#[derive(Debug, Clone, Copy, PartialEq, Eq, Structural)]
pub enum IdlVersion {
    /// The legacy shape, with a `name` field at the root.
    Old,
    /// The current shape, with a `metadata.name` field.
    New,
}

/// The failures a run can end in.
#[derive(Debug, Clone, Copy, PartialEq, Eq, Structural)]
pub enum IdlError {
    /// The bytes are not JSON, or not a document of the expected shape.
    MalformedInput,
    /// Neither `metadata.name` nor `name` is present.
    AmbiguousFormat,
    /// The normalised document could not be serialised again.
    SerializationFailure,
}

impl IdlError {
    /// The text shown to the user for this failure.
    pub open spec fn message_spec(self) -> Seq<char> {
        match self {
            IdlError::MalformedInput => "Failed to parse JSON for version detection"@,
            IdlError::AmbiguousFormat =>
                "Could not determine IDL format - neither 'name' nor 'metadata.name' found"@,
            IdlError::SerializationFailure => "Failed to serialize the converted IDL"@,
        }
    }

    pub fn message(&self) -> (r: String)
        ensures
            r@ == self.message_spec(),
    {
        match self {
            IdlError::MalformedInput => String::from_str("Failed to parse JSON for version detection"),
            IdlError::AmbiguousFormat => String::from_str(
                "Could not determine IDL format - neither 'name' nor 'metadata.name' found",
            ),
            IdlError::SerializationFailure => String::from_str(
                "Failed to serialize the converted IDL",
            ),
        }
    }
}

/// `serde_json::Value`, a parsed JSON value; opaque here.
#[verifier::external_type_specification]
#[verifier::external_body]
pub struct ExJsonValue(serde_json::Value);

/// `serde_json::Error`, why bytes did not parse; opaque here.
#[verifier::external_type_specification]
#[verifier::external_body]
pub struct ExJsonError(serde_json::Error);

/// The key paths of a JSON value: the sequences of keys that can be followed
/// from it, each key naming a member of the object reached so far. The empty
/// path is one of them, whatever the value is.
pub uninterp spec fn value_key_paths(v: serde_json::Value) -> Set<Seq<Seq<char>>>;

/// The key paths of the JSON value that `bytes` parse to, `None` where they
/// are not JSON.
pub uninterp spec fn json_key_paths(bytes: Seq<u8>) -> Option<Set<Seq<Seq<char>>>>;

/// Calls `serde_json::from_slice` for a `serde_json::Value`.
/// Trusted: whether the call succeeds, and the key paths of the value it
/// gives, depend on the bytes alone; the contract names them
/// `json_key_paths`.
#[verifier::external_body]
fn parse_json(bytes: &[u8]) -> (r: Result<serde_json::Value, serde_json::Error>)
    ensures
        match r {
            Ok(v) => json_key_paths(bytes@) == Some(value_key_paths(v)),
            Err(_) => json_key_paths(bytes@) is None,
        },
{
    serde_json::from_slice::<serde_json::Value>(bytes)
}

/// Calls `serde_json::Value::get` with a string key.
/// Trusted: a member is returned exactly where `v` is an object that has
/// `key`, that is where `key` alone is a key path of `v`; the key paths of
/// the member are then those that follow `key` in a key path of `v`.
#[verifier::external_body]
fn member<'a>(v: &'a serde_json::Value, key: &str) -> (r: Option<&'a serde_json::Value>)
    ensures
        r is Some <==> value_key_paths(*v).contains(seq![key@]),
        match r {
            Some(m) => forall|p: Seq<Seq<char>>| #[trigger]
                value_key_paths(*m).contains(p) <==> value_key_paths(*v).contains(seq![key@] + p),
            None => true,
        },
{
    v.get(key)
}

/// Whether a document with these key paths holds a `metadata` member that
/// itself holds a `name` member.
pub open spec fn has_metadata_name(paths: Set<Seq<Seq<char>>>) -> bool {
    paths.contains(seq!["metadata"@]) && paths.contains(seq!["metadata"@, "name"@])
}

/// Whether a document with these key paths holds a `name` member at its root.
pub open spec fn has_root_name(paths: Set<Seq<Seq<char>>>) -> bool {
    paths.contains(seq!["name"@])
}

/// The shape of a document, given which of the two name fields it has:
/// `metadata.name` wins over a root `name`.
pub open spec fn classify_spec(has_metadata_name: bool, has_name: bool) -> Result<
    IdlVersion,
    IdlError,
> {
    if has_metadata_name {
        Ok(IdlVersion::New)
    } else if has_name {
        Ok(IdlVersion::Old)
    } else {
        Err(IdlError::AmbiguousFormat)
    }
}

/// The shape that the raw bytes of a document are detected as.
pub open spec fn detect_spec(bytes: Seq<u8>) -> Result<IdlVersion, IdlError> {
    match json_key_paths(bytes) {
        None => Err(IdlError::MalformedInput),
        Some(paths) => classify_spec(has_metadata_name(paths), has_root_name(paths)),
    }
}

/// Decides the shape from the presence of the two name fields.
pub fn classify_format(has_metadata_name: bool, has_name: bool) -> (r: Result<
    IdlVersion,
    IdlError,
>)
    ensures
        r == classify_spec(has_metadata_name, has_name),
{
    if has_metadata_name {
        Ok(IdlVersion::New)
    } else if has_name {
        Ok(IdlVersion::Old)
    } else {
        Err(IdlError::AmbiguousFormat)
    }
}

/// Detects the shape of a raw document: `New` where `metadata.name` is
/// present, else `Old` where a root `name` is present.
pub fn detect_idl_version(bytes: &[u8]) -> (r: Result<IdlVersion, IdlError>)
    ensures
        r == detect_spec(bytes@),
{
    match parse_json(bytes) {
        Err(_) => Err(IdlError::MalformedInput),
        Ok(json) => {
            let nested = match member(&json, "metadata") {
                Some(m) => member(m, "name").is_some(),
                None => false,
            };
            let flat = member(&json, "name").is_some();
            proof {
                assert(seq!["metadata"@] + seq!["name"@] =~= seq!["metadata"@, "name"@]);
            }
            classify_format(nested, flat)
        },
    }
}

/// The shape to read a document as: the caller's choice where there is one,
/// else the detected shape.
pub fn resolve_idl_version(forced: Option<IdlVersion>, bytes: &[u8]) -> (r: Result<
    IdlVersion,
    IdlError,
>)
    ensures
        r == match forced {
            Some(v) => Ok(v),
            None => detect_spec(bytes@),
        },
{
    match forced {
        Some(v) => Ok(v),
        None => detect_idl_version(bytes),
    }
}

} // verus!
