//! Trusted declarations of the outside code that the library calls.

use vstd::prelude::*;

use base64::Engine;
use sha2::Digest;
use std::path::PathBuf;

use crate::encoding::base64_standard;

verus! {

/// The SHA-256 digest of a byte string, as the `sha2` crate computes it.
pub uninterp spec fn sha256(data: Seq<u8>) -> Seq<u8>;

/// Calls `sha2::Sha256::digest` on `data`.
/// Trusted: the result is the SHA-256 digest of `data` (named `sha256`),
/// which is 32 bytes long.
#[verifier::external_body]
pub(crate) fn sha256_digest(data: &[u8]) -> (digest: Vec<u8>)
    ensures
        digest@ == sha256(data@),
        digest@.len() == 32,
{
    sha2::Sha256::digest(data).to_vec()
}

/// Calls `base64::engine::general_purpose::STANDARD.encode` on `data`.
/// Trusted: the result is the standard (RFC 4648, padded) base64 encoding of
/// `data`, as `base64_standard` spells it out.
#[verifier::external_body]
pub(crate) fn base64_encode_standard(data: &[u8]) -> (text: String)
    ensures
        text@ == base64_standard(data@),
{
    base64::engine::general_purpose::STANDARD.encode(data)
}

/// `std::path::PathBuf`, carried through the library as an opaque value.
#[verifier::external_type_specification]
#[verifier::external_body]
pub struct ExPathBuf(std::path::PathBuf);

/// `std::io::Error`, carried in the library's error type.
#[verifier::external_type_specification]
#[verifier::external_body]
pub struct ExIoError(std::io::Error);

/// `serde_json::Error`, carried in the library's error type.
#[verifier::external_type_specification]
#[verifier::external_body]
pub struct ExJsonError(serde_json::Error);

/// Whether `serde_json` accepts `text` as a JSON document.
pub uninterp spec fn json_document_valid(text: Seq<char>) -> bool;

/// The string held by member `key` of the JSON document `text`: `None` when
/// the document is not an object, has no member `key`, or that member is not
/// a JSON string.
pub uninterp spec fn json_member_str(text: Seq<char>, key: Seq<char>) -> Option<Seq<char>>;

/// Parses `text` with `serde_json::from_str` into a `serde_json::Value`, then
/// looks the member up with `Value::get` and `Value::as_str`.
/// Trusted: the result is `Ok` exactly when `serde_json` accepts the text
/// (named `json_document_valid`), and then holds the member's string, if
/// any (named `json_member_str`). Which error `serde_json` reports is not
/// stated.
#[verifier::external_body]
pub(crate) fn json_str_member(text: &str, key: &str) -> (r: Result<Option<String>, serde_json::Error>)
    ensures
        r is Ok <==> json_document_valid(text@),
        r matches Ok(m) ==> match m {
            Some(v) => json_member_str(text@, key@) == Some(v@),
            None => json_member_str(text@, key@) is None,
        },
{
    let value = serde_json::from_str::<serde_json::Value>(text)?;
    Ok(value.get(key).and_then(serde_json::Value::as_str).map(String::from))
}

/// The parent directory of a path as `std::path::Path::parent` gives it,
/// following the path syntax of the target the crate is compiled for.
pub uninterp spec fn path_parent_of(path: PathBuf) -> Option<PathBuf>;

/// The path that `std::path::Path::join` makes of `dir` and the text `rel`,
/// following the path syntax of the target the crate is compiled for.
pub uninterp spec fn path_joined(dir: PathBuf, rel: Seq<char>) -> PathBuf;

/// The text of a path as `std::path::Path::to_str` gives it: `None` when the
/// path is not valid Unicode.
pub uninterp spec fn path_text(path: PathBuf) -> Option<Seq<char>>;

/// Calls `std::path::Path::parent` and copies the result into a `PathBuf`.
/// Trusted: the result is the parent named `path_parent_of`.
#[verifier::external_body]
pub(crate) fn path_parent(path: &PathBuf) -> (parent: Option<PathBuf>)
    ensures
        parent == path_parent_of(*path),
{
    path.parent().map(std::path::Path::to_path_buf)
}

/// Calls `std::path::Path::join`.
/// Trusted: the result is the path named `path_joined`.
#[verifier::external_body]
pub(crate) fn path_join(dir: &PathBuf, rel: &str) -> (joined: PathBuf)
    ensures
        joined == path_joined(*dir, rel@),
{
    dir.join(rel)
}

/// Calls `std::path::Path::to_str` and copies the text.
/// Trusted: the result is the text named `path_text`, `None` exactly when
/// the path is not valid Unicode.
#[verifier::external_body]
pub(crate) fn path_to_string(path: &PathBuf) -> (text: Option<String>)
    ensures
        match text {
            Some(t) => path_text(*path) == Some(t@),
            None => path_text(*path) is None,
        },
{
    path.to_str().map(String::from)
}

/// Whether `url::Url::parse` accepts `text`.
pub uninterp spec fn url_parses(text: Seq<char>) -> bool;

/// The serialization of the URL `url` (as `url::Url::parse` reads it) after
/// the query pair `key=value` has been appended with
/// `form_urlencoded::Serializer::append_pair`.
pub uninterp spec fn url_with_query_pair(url: Seq<char>, key: Seq<char>, value: Seq<char>) -> Seq<char>;

/// Parses `url` with `url::Url::parse`, appends the query pair with
/// `Url::query_pairs_mut().append_pair` and serializes the result.
/// Trusted: the result is `Some` exactly when the URL parses (named
/// `url_parses`) and is then the serialization named `url_with_query_pair`.
#[verifier::external_body]
pub(crate) fn url_append_query_pair(url: &str, key: &str, value: &str) -> (r: Option<String>)
    ensures
        r is Some <==> url_parses(url@),
        r matches Some(s) ==> s@ == url_with_query_pair(url@, key@, value@),
{
    let mut parsed = url::Url::parse(url).ok()?;
    parsed.query_pairs_mut().append_pair(key, value);
    Some(String::from(parsed))
}

/// Calls `<PathBuf as Clone>::clone`.
/// Trusted: the copy equals the original.
#[verifier::external_body]
pub(crate) fn path_clone(path: &PathBuf) -> (copy: PathBuf)
    ensures
        copy == *path,
{
    path.clone()
}

} // verus!
