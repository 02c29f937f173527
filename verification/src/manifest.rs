//! The manifest: the small JSON document that names the current build.

use crate::error::ResolveError;
use vstd::prelude::*;

verus! {

/// `serde_json::Error`, with which the JSON reader fails. Nothing is said
/// of what it holds.
#[verifier::external_type_specification]
#[verifier::external_body]
pub struct ExJsonError(serde_json::Error);

/// What the JSON reader finds under `key` in `data`: `None` where `data` is
/// not one JSON document, `Some(None)` where it is one but not an object
/// with a string under `key`, and else that string.
pub uninterp spec fn json_member(data: Seq<u8>, key: Seq<char>) -> Option<Option<Seq<char>>>;

/// Reads `data` with `serde_json::from_slice` into a `Value`, looks `key` up
/// with `Value::get`, and hands back the string that stands there. Trusted,
/// not verified: the outcome is taken to be what [`json_member`] names for
/// this text and key.
#[verifier::external_body]
fn read_member(data: &[u8], key: &str) -> (r: Result<Option<String>, serde_json::Error>)
    ensures
        match r {
            Ok(Some(text)) => json_member(data@, key@) == Some(Some(text@)),
            Ok(None) => json_member(data@, key@) == Some(None::<Seq<char>>),
            Err(_) => json_member(data@, key@) is None,
        },
{
    let document: serde_json::Value = serde_json::from_slice(data)?;
    Ok(match document.get(key) {
        Some(serde_json::Value::String(text)) => Some(text.clone()),
        _ => None,
    })
}

/// The member of the manifest that names the build.
pub const BUILD_KEY: &'static str = "build";

/// The build that a manifest names: the string under `build`. Whatever else
/// the manifest holds is not read.
pub open spec fn manifest_build(data: Seq<u8>) -> Option<Seq<char>> {
    match json_member(data, BUILD_KEY@) {
        Some(Some(build)) => Some(build),
        _ => None,
    }
}

/// The build identifier, given what the JSON reader found under `build`.
pub fn build_from<E>(member: Result<Option<String>, E>) -> (r: Result<String, ResolveError>)
    ensures
        match member {
            Ok(Some(build)) => r == Ok::<_, ResolveError>(build),
            _ => r == Err::<String, _>(ResolveError::Manifest),
        },
{
    match member {
        Ok(Some(build)) => Ok(build),
        _ => Err(ResolveError::Manifest),
    }
}

/// Reads the build identifier out of a manifest.
pub fn read_build(data: &[u8]) -> (r: Result<String, ResolveError>)
    ensures
        match r {
            Ok(build) => manifest_build(data@) == Some(build@),
            Err(e) => manifest_build(data@) is None && e == ResolveError::Manifest,
        },
{
    build_from(read_member(data, BUILD_KEY))
}

} // verus!
