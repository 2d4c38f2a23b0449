//! The publisher's choice of media decoder.

use vstd::prelude::*;

use std::path::PathBuf;

use crate::outside::path_clone;
use crate::relay::SignerPaths;

verus! {

/// The media format read from standard input (or from an HLS playlist).
pub enum PublishFormat {
    /// H.264 Annex B with in-band parameter sets.
    Avc3,
    /// Fragmented MP4.
    Fmp4 {
        /// Transmit the fMP4 container directly instead of decoding it.
        passthrough: bool,
        /// A C2PA manifest to sign the segments with (passthrough only).
        c2pa_manifest: Option<PathBuf>,
        /// Path to the signing tool.
        c2patool_path: PathBuf,
    },
    /// An HLS playlist.
    Hls {
        /// URL or file path of an HLS playlist to ingest.
        playlist: String,
        /// Transmit the fMP4 segments directly instead of decoding them.
        passthrough: bool,
    },
}

/// The decoder to build for a format.
pub enum DecoderPlan {
    Avc3,
    Fmp4 { passthrough: bool, signer: Option<SignerPaths> },
    Hls { playlist: String, passthrough: bool },
}

/// Why a format cannot be published.
#[derive(PartialEq, Eq, Structural, Clone, Copy, Debug)]
pub enum PublishError {
    /// A C2PA manifest was given without passthrough: signing works on the
    /// fMP4 container as it is transmitted.
    ManifestRequiresPassthrough,
}

impl PublishError {
    /// The message the command line reports.
    pub fn message(&self) -> (m: &'static str)
        ensures
            m@ == "--c2pa-manifest requires --passthrough"@,
    {
        "--c2pa-manifest requires --passthrough"
    }
}

/// Chooses the decoder for `format`. A C2PA manifest is accepted only with
/// passthrough; it makes the fMP4 decoder sign each segment.
pub fn decoder_plan(format: &PublishFormat) -> (r: Result<DecoderPlan, PublishError>)
    ensures
        match format {
            PublishFormat::Avc3 => r matches Ok(DecoderPlan::Avc3),
            PublishFormat::Fmp4 { passthrough, c2pa_manifest, c2patool_path } => match c2pa_manifest {
                Some(m) => if *passthrough {
                    r matches Ok(DecoderPlan::Fmp4 { passthrough: p, signer: Some(s) }) && p
                        && s.manifest_path == m && s.tool_path == c2patool_path
                } else {
                    r == Err::<DecoderPlan, PublishError>(PublishError::ManifestRequiresPassthrough)
                },
                None => r matches Ok(DecoderPlan::Fmp4 { passthrough: p, signer: None }) && p
                    == *passthrough,
            },
            PublishFormat::Hls { playlist, passthrough } => r matches Ok(
                DecoderPlan::Hls { playlist: pl, passthrough: p },
            ) && pl@ == playlist@ && p == *passthrough,
        },
{
    match format {
        PublishFormat::Avc3 => Ok(DecoderPlan::Avc3),
        PublishFormat::Fmp4 { passthrough, c2pa_manifest, c2patool_path } => match c2pa_manifest {
            Some(m) => {
                if !*passthrough {
                    return Err(PublishError::ManifestRequiresPassthrough);
                }
                let signer = SignerPaths { manifest_path: path_clone(m), tool_path: path_clone(c2patool_path) };
                Ok(DecoderPlan::Fmp4 { passthrough: true, signer: Some(signer) })
            },
            None => Ok(DecoderPlan::Fmp4 { passthrough: *passthrough, signer: None }),
        },
        PublishFormat::Hls { playlist, passthrough } => Ok(
            DecoderPlan::Hls { playlist: playlist.clone(), passthrough: *passthrough },
        ),
    }
}

} // verus!
