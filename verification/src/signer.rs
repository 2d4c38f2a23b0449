//! The segment signer: it pipes a CMAF segment through the external
//! `c2pa-live-cbc` tool. This module holds what the signer computes; starting
//! the tool and reading files is left to the caller.

use vstd::prelude::*;

use std::path::PathBuf;

use crate::decimal::{decimal_digits, decimal_string};
use crate::encoding::{base64_standard, cert_fingerprint, cert_hash_b64, fingerprint_shape};
use crate::outside::sha256;
use crate::error::{ExitReport, SignerError};
use crate::outside::{
    json_document_valid, json_member_str, json_str_member, path_join, path_joined, path_parent,
    path_parent_of, path_text, path_to_string,
};

verus! {

/// Signs complete CMAF segments (moof+mdat) with the `c2pa-live-cbc` tool.
pub struct SegmentSigner {
    /// Path to the C2PA manifest JSON file.
    pub manifest_path: PathBuf,
    /// Path to the `c2pa-live-cbc` binary.
    pub signer_path: PathBuf,
    /// Stream ID used for deterministic IV derivation.
    pub stream_id: String,
    /// Base64 of the first 16 bytes of the SHA-256 of the signing
    /// certificate; handed to the tool as `CERT_HASH_B64`.
    cert_hash_b64: String,
}

/// How to run the signing tool for one segment: the program, its arguments
/// and its environment. The segment is written to the tool's standard input
/// and the signed segment is read from its standard output.
pub struct SignCommand {
    pub program: String,
    pub args: Vec<String>,
    pub env: Vec<(String, String)>,
}

/// The name of the manifest member that names the signing certificate.
pub open spec fn sign_cert_key() -> Seq<char> {
    "sign_cert"@
}

/// The arguments of the tool for a segment, after the manifest path and the
/// tool path have been rendered as text.
pub open spec fn sign_args(manifest: Seq<char>, segment_index: nat, stream_id: Seq<char>) -> Seq<Seq<char>> {
    seq![
        "sign-stream"@,
        "--manifest"@,
        manifest,
        "--segment-index"@,
        decimal_digits(segment_index),
        "--stream-id"@,
        stream_id,
    ]
}

/// The tool's arguments, position by position: the subcommand, the manifest
/// path after `--manifest`, the segment index in decimal after
/// `--segment-index`, and the stream ID, unchanged, after `--stream-id`.
pub proof fn law_sign_args_positions(manifest: Seq<char>, segment_index: nat, stream_id: Seq<char>)
    ensures
        sign_args(manifest, segment_index, stream_id).len() == 7,
        sign_args(manifest, segment_index, stream_id)[0] == "sign-stream"@,
        sign_args(manifest, segment_index, stream_id)[1] == "--manifest"@,
        sign_args(manifest, segment_index, stream_id)[2] == manifest,
        sign_args(manifest, segment_index, stream_id)[3] == "--segment-index"@,
        sign_args(manifest, segment_index, stream_id)[4] == decimal_digits(segment_index),
        sign_args(manifest, segment_index, stream_id)[5] == "--stream-id"@,
        sign_args(manifest, segment_index, stream_id)[6] == stream_id,
{
}

impl SegmentSigner {
    /// The certificate fingerprint handed to the tool.
    pub closed spec fn cert_hash(&self) -> Seq<char> {
        self.cert_hash_b64@
    }

    /// The manifest path the signer was made with.
    pub closed spec fn manifest(&self) -> PathBuf {
        self.manifest_path
    }

    /// The tool path the signer was made with.
    pub closed spec fn tool(&self) -> PathBuf {
        self.signer_path
    }

    /// The stream ID the signer was made with.
    pub closed spec fn stream(&self) -> Seq<char> {
        self.stream_id@
    }

    /// Creates a signer from the bytes of the certificate that the manifest's
    /// `sign_cert` member names (see `manifest_sign_cert` and
    /// `resolve_cert_path`), computing the fingerprint the tool expects.
    pub fn new(manifest_path: PathBuf, signer_path: PathBuf, stream_id: String, cert: &[u8]) -> (s: Self)
        ensures
            s.manifest() == manifest_path,
            s.tool() == signer_path,
            s.stream() == stream_id@,
            s.cert_hash() == cert_fingerprint(cert@),
            s.cert_hash() == base64_standard(sha256(cert@).take(16)),
            fingerprint_shape(s.cert_hash()),
    {
        let cert_hash_b64 = cert_hash_b64(cert);
        SegmentSigner { manifest_path, signer_path, stream_id, cert_hash_b64 }
    }

    /// The command that signs the segment with index `segment_index`:
    /// `c2pa-live-cbc sign-stream --manifest <path> --segment-index <n>
    /// --stream-id <id>` with `CERT_HASH_B64` set in the environment.
    /// Fails with `InvalidPath` when the manifest path or the tool path is not
    /// valid Unicode.
    pub fn sign_command(&self, segment_index: usize) -> (r: Result<SignCommand, SignerError>)
        ensures
            r is Ok <==> (path_text(self.manifest()) is Some && path_text(self.tool()) is Some),
            r matches Err(e) ==> e is InvalidPath,
            r matches Ok(cmd) ==> {
                &&& cmd.program@ == path_text(self.tool())->Some_0
                &&& cmd.args@.len() == 7
                &&& cmd.args@.map_values(|a: String| a@) == sign_args(
                    path_text(self.manifest())->Some_0,
                    segment_index as nat,
                    self.stream(),
                )
                &&& cmd.args@[0]@ == "sign-stream"@
                &&& cmd.args@[1]@ == "--manifest"@
                &&& cmd.args@[2]@ == path_text(self.manifest())->Some_0
                &&& cmd.args@[3]@ == "--segment-index"@
                &&& cmd.args@[4]@ == decimal_digits(segment_index as nat)
                &&& cmd.args@[5]@ == "--stream-id"@
                &&& cmd.args@[6]@ == self.stream()
                &&& cmd.env@.len() == 1
                &&& cmd.env@[0].0@ == "CERT_HASH_B64"@
                &&& cmd.env@[0].1@ == self.cert_hash()
            },
    {
        let manifest = match path_to_string(&self.manifest_path) {
            Some(m) => m,
            None => return Err(SignerError::InvalidPath),
        };
        let program = match path_to_string(&self.signer_path) {
            Some(p) => p,
            None => return Err(SignerError::InvalidPath),
        };
        let mut args: Vec<String> = Vec::new();
        args.push(String::from_str("sign-stream"));
        args.push(String::from_str("--manifest"));
        args.push(manifest);
        args.push(String::from_str("--segment-index"));
        args.push(decimal_string(segment_index));
        args.push(String::from_str("--stream-id"));
        args.push(self.stream_id.clone());
        let mut env: Vec<(String, String)> = Vec::new();
        env.push((String::from_str("CERT_HASH_B64"), self.cert_hash_b64.clone()));
        assert(args@.map_values(|a: String| a@) =~= sign_args(
            args@[2]@,
            segment_index as nat,
            self.stream_id@,
        ));
        Ok(SignCommand { program, args, env })
    }
}

/// What a finished run of the signing tool amounts to: the signed segment
/// (the tool's standard output) when the tool exited successfully, else
/// `ExitStatus` with how the tool ended (exit code or signal).
pub fn sign_outcome(success: bool, exit: ExitReport, stdout: Vec<u8>) -> (r: Result<Vec<u8>, SignerError>)
    ensures
        success ==> r == Ok::<Vec<u8>, SignerError>(stdout),
        !success ==> r == Err::<Vec<u8>, SignerError>(SignerError::ExitStatus(exit)),
{
    if !success {
        return Err(SignerError::ExitStatus(exit));
    }
    Ok(stdout)
}

/// Reads the `sign_cert` member of the manifest JSON: the path of the signing
/// certificate, relative to the manifest's directory.
pub fn manifest_sign_cert(manifest_json: &str) -> (r: Result<String, SignerError>)
    ensures
        !json_document_valid(manifest_json@) <==> (r matches Err(e) && e is ManifestParse),
        json_document_valid(manifest_json@) ==> match json_member_str(manifest_json@, sign_cert_key()) {
            Some(v) => r matches Ok(s) && s@ == v,
            None => r matches Err(e) && e == SignerError::ManifestMissingField("sign_cert"),
        },
{
    let lookup = json_str_member(manifest_json, "sign_cert");
    sign_cert_from_lookup(lookup)
}

/// Turns the lookup of the manifest's `sign_cert` member into the
/// certificate path or the signer's error: a JSON error becomes
/// `ManifestParse`, a missing (or non-string) member `ManifestMissingField`.
pub fn sign_cert_from_lookup(lookup: Result<Option<String>, serde_json::Error>) -> (r: Result<String, SignerError>)
    ensures
        match lookup {
            Err(e) => r matches Err(SignerError::ManifestParse(e2)) && e2 == e,
            Ok(Some(s)) => r == Ok::<String, SignerError>(s),
            Ok(None) => r matches Err(e) && e == SignerError::ManifestMissingField("sign_cert"),
        },
{
    match lookup {
        Err(e) => Err(SignerError::ManifestParse(e)),
        Ok(Some(s)) => Ok(s),
        Ok(None) => Err(SignerError::ManifestMissingField("sign_cert")),
    }
}

/// The path of the signing certificate: `sign_cert` joined to the manifest's
/// directory. Fails with `InvalidPath` when the manifest path has no parent.
/// The certificate is thus found beside the manifest, whatever the working
/// directory.
pub fn resolve_cert_path(manifest_path: &PathBuf, sign_cert: &str) -> (r: Result<PathBuf, SignerError>)
    ensures
        r is Ok <==> path_parent_of(*manifest_path) is Some,
        r matches Err(e) ==> e is InvalidPath,
        r matches Ok(p) ==> p == path_joined(path_parent_of(*manifest_path)->Some_0, sign_cert@),
{
    match path_parent(manifest_path) {
        Some(dir) => Ok(path_join(&dir, sign_cert)),
        None => Err(SignerError::InvalidPath),
    }
}

/// Where the signing certificate is, given the manifest path and the outcome
/// of reading the manifest file: the checks are made in order, and the first
/// that fails gives the error. A failed read is `Io`, text that is not JSON is
/// `ManifestParse`, a manifest without a string `sign_cert` member is
/// `ManifestMissingField("sign_cert")`, a manifest path without a parent is
/// `InvalidPath`; otherwise the certificate path is `sign_cert` joined to the
/// manifest's directory.
pub fn cert_location(manifest_path: &PathBuf, manifest_read: Result<String, std::io::Error>) -> (r: Result<PathBuf, SignerError>)
    ensures
        match manifest_read {
            Err(e) => r matches Err(SignerError::Io(e2)) && e2 == e,
            Ok(text) => if !json_document_valid(text@) {
                r matches Err(e) && e is ManifestParse
            } else {
                match json_member_str(text@, sign_cert_key()) {
                    None => r matches Err(e) && e == SignerError::ManifestMissingField("sign_cert"),
                    Some(cert) => match path_parent_of(*manifest_path) {
                        None => r matches Err(e) && e is InvalidPath,
                        Some(dir) => r == Ok::<PathBuf, SignerError>(path_joined(dir, cert)),
                    },
                }
            },
        },
{
    let text = match manifest_read {
        Ok(text) => text,
        Err(e) => return Err(SignerError::Io(e)),
    };
    let sign_cert = match manifest_sign_cert(text.as_str()) {
        Ok(c) => c,
        Err(e) => return Err(e),
    };
    resolve_cert_path(manifest_path, sign_cert.as_str())
}

impl SegmentSigner {
    /// Creates a signer from the outcome of reading the certificate that
    /// `cert_location` found: a failed read is `Io`, otherwise the signer is
    /// made as `new` makes it.
    pub fn with_cert_read(
        manifest_path: PathBuf,
        signer_path: PathBuf,
        stream_id: String,
        cert_read: Result<Vec<u8>, std::io::Error>,
    ) -> (r: Result<Self, SignerError>)
        ensures
            match cert_read {
                Err(e) => r matches Err(SignerError::Io(e2)) && e2 == e,
                Ok(cert) => r matches Ok(s) && {
                    &&& s.manifest() == manifest_path
                    &&& s.tool() == signer_path
                    &&& s.stream() == stream_id@
                    &&& s.cert_hash() == cert_fingerprint(cert@)
                    &&& s.cert_hash() == base64_standard(sha256(cert@).take(16))
                    &&& fingerprint_shape(s.cert_hash())
                },
            },
    {
        match cert_read {
            Ok(cert) => Ok(SegmentSigner::new(manifest_path, signer_path, stream_id, cert.as_slice())),
            Err(e) => Err(SignerError::Io(e)),
        }
    }
}

} // verus!
