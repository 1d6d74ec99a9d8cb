//! The few calls into serde_json that payload decoding relies on, and the
//! model of a parsed document that their contracts are stated over.
use vstd::prelude::*;

verus! {

#[verifier::external_type_specification]
#[verifier::external_body]
pub struct ExJsonValue(serde_json::Value);

#[verifier::external_type_specification]
#[verifier::external_body]
pub struct ExJsonError(serde_json::Error);

/// What the decoder can read out of one member of a JSON object.
///
/// `Unsigned` and `Signed` are serde_json's two integer representations
/// (`PosInt` and `NegInt`); every other value (null, float, string, array,
/// object) is `Other`.
#[derive(Clone, Copy, Debug, PartialEq, Eq, Structural)]
pub enum JsonScalar {
    Bool(bool),
    Unsigned(u64),
    Signed(i64),
    Other,
}

/// The members of a parsed document, each seen as a scalar.  A document that
/// is not an object has no members.
pub uninterp spec fn json_members(v: serde_json::Value) -> Map<Seq<char>, JsonScalar>;

/// The members of the document that a text parses to, or `None` when the
/// text is not well-formed JSON.
pub uninterp spec fn json_parse(s: Seq<char>) -> Option<Map<Seq<char>, JsonScalar>>;

/// A member by key; a missing member reads as null.
pub open spec fn member(m: Map<Seq<char>, JsonScalar>, key: Seq<char>) -> JsonScalar {
    if m.contains_key(key) {
        m[key]
    } else {
        JsonScalar::Other
    }
}

pub open spec fn scalar_u64(s: JsonScalar) -> Option<u64> {
    match s {
        JsonScalar::Unsigned(n) => Some(n),
        _ => None,
    }
}

pub open spec fn scalar_i64(s: JsonScalar) -> Option<i64> {
    match s {
        JsonScalar::Unsigned(n) => if n <= i64::MAX as u64 {
            Some(n as i64)
        } else {
            None
        },
        JsonScalar::Signed(n) => Some(n),
        _ => None,
    }
}

pub open spec fn scalar_bool(s: JsonScalar) -> Option<bool> {
    match s {
        JsonScalar::Bool(b) => Some(b),
        _ => None,
    }
}

/// Relies on serde_json::from_str into a `Value`: it succeeds exactly on
/// well-formed JSON, and the document depends on the text alone.
#[verifier::external_body]
pub(crate) fn parse_document(s: &str) -> (r: Result<serde_json::Value, serde_json::Error>)
    ensures
        r is Ok <==> json_parse(s@) is Some,
        r is Ok ==> json_parse(s@) == Some(json_members(r->Ok_0)),
{
    serde_json::from_str(s)
}

/// Relies on indexing a `Value` by a key (null when the key or the object is
/// missing) followed by `Value::as_u64` (`Some` only for a `PosInt`).
#[verifier::external_body]
pub(crate) fn member_u64(v: &serde_json::Value, key: &str) -> (r: Option<u64>)
    ensures
        r == scalar_u64(member(json_members(*v), key@)),
{
    v[key].as_u64()
}

/// Relies on indexing a `Value` by a key followed by `Value::as_i64`
/// (`Some` for a `NegInt`, and for a `PosInt` that fits in an `i64`).
#[verifier::external_body]
pub(crate) fn member_i64(v: &serde_json::Value, key: &str) -> (r: Option<i64>)
    ensures
        r == scalar_i64(member(json_members(*v), key@)),
{
    v[key].as_i64()
}

/// Relies on indexing a `Value` by a key followed by `Value::as_bool`
/// (`Some` only for a JSON boolean).
#[verifier::external_body]
pub(crate) fn member_bool(v: &serde_json::Value, key: &str) -> (r: Option<bool>)
    ensures
        r == scalar_bool(member(json_members(*v), key@)),
{
    v[key].as_bool()
}

} // verus!
