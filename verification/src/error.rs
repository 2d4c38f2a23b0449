//! The signer's error type.

use vstd::prelude::*;

verus! {

/// How a process ended without success: its exit code when it exited, the
/// number of the signal that ended it when it was killed.
#[derive(Debug, Clone, Copy, PartialEq, Eq, Structural)]
pub struct ExitReport {
    pub code: Option<i32>,
    pub signal: Option<i32>,
}

/// What can go wrong while preparing or running the segment signer.
#[derive(Debug)]
pub enum SignerError {
    /// The signing tool could not be started.
    Spawn(std::io::Error),
    /// Reading a file, or talking to the signing tool, failed.
    Io(std::io::Error),
    /// The signing tool ended unsuccessfully, as the report tells.
    ExitStatus(ExitReport),
    /// A path is not valid Unicode, or has no parent directory.
    InvalidPath,
    /// The manifest is not valid JSON.
    ManifestParse(serde_json::Error),
    /// The manifest lacks a required string member.
    ManifestMissingField(&'static str),
}

} // verus!
