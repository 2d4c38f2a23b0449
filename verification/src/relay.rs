//! The relay's C2PA signing proxy: its configuration and the decisions of its
//! loops. The proxy watches an origin for announced broadcasts and
//! republishes them, signing the video tracks (see `track`).

use vstd::prelude::*;

use std::path::PathBuf;

use crate::outside::path_clone;

verus! {

/// Configuration for C2PA per-segment signing of upstream video tracks.
pub struct C2paConfig {
    /// Path to a C2PA manifest JSON file. When set, video tracks received
    /// from the upstream relay are signed before being forwarded.
    pub manifest_path: Option<PathBuf>,
    /// Path to the signing tool.
    pub c2patool_path: PathBuf,
}

/// The two paths a signer is made from: the manifest and the signing tool.
pub struct SignerPaths {
    pub manifest_path: PathBuf,
    pub tool_path: PathBuf,
}

/// A proxy from the `source` origin to the `dest` origin that signs video
/// tracks with the signer that `signer` describes.
pub struct C2paProxy<S, D> {
    pub source: S,
    pub dest: D,
    pub signer: SignerPaths,
}

impl<S, D> C2paProxy<S, D> {
    /// Creates a proxy. Returns `None` when no manifest path is configured.
    pub fn new(config: &C2paConfig, source: S, dest: D) -> (r: Option<Self>)
        ensures
            r is None <==> config.manifest_path is None,
            r matches Some(p) ==> {
                &&& p.source == source
                &&& p.dest == dest
                &&& config.manifest_path == Some(p.signer.manifest_path)
                &&& p.signer.tool_path == config.c2patool_path
            },
    {
        let manifest = match &config.manifest_path {
            Some(m) => path_clone(m),
            None => return None,
        };
        Some(C2paProxy {
            source,
            dest,
            signer: SignerPaths { manifest_path: manifest, tool_path: path_clone(&config.c2patool_path) },
        })
    }
}

/// What the proxy's origin watcher observed.
#[derive(PartialEq, Eq, Structural, Clone, Copy, Debug)]
pub enum AnnounceEvent {
    /// The source origin closed: no more announcements.
    OriginClosed,
    /// A broadcast was announced.
    Announced,
    /// A broadcast went away.
    Unannounced,
}

/// What the origin watcher does next.
#[derive(PartialEq, Eq, Structural, Clone, Copy, Debug)]
pub enum ProxyAction {
    /// Return: the proxy is done.
    Stop,
    /// Start republishing the announced broadcast with signing, then keep
    /// watching.
    SignBroadcast,
    /// Keep watching.
    Ignore,
}

/// The origin watcher's decision for one observation.
pub fn on_announcement(event: AnnounceEvent) -> (a: ProxyAction)
    ensures
        a == match event {
            AnnounceEvent::OriginClosed => ProxyAction::Stop,
            AnnounceEvent::Announced => ProxyAction::SignBroadcast,
            AnnounceEvent::Unannounced => ProxyAction::Ignore,
        },
{
    match event {
        AnnounceEvent::OriginClosed => ProxyAction::Stop,
        AnnounceEvent::Announced => ProxyAction::SignBroadcast,
        AnnounceEvent::Unannounced => ProxyAction::Ignore,
    }
}

/// What a republished broadcast observed.
#[derive(PartialEq, Eq, Structural, Clone, Copy, Debug)]
pub enum BroadcastEvent {
    /// The source broadcast closed.
    SourceClosed,
    /// Waiting for the next track request failed.
    RequestFailed,
    /// A subscriber requested a track; `subscribed` tells whether the same
    /// track could be subscribed from the source.
    Requested { subscribed: bool },
}

/// What the republished broadcast does next.
#[derive(PartialEq, Eq, Structural, Clone, Copy, Debug)]
pub enum BroadcastAction {
    /// Return: the broadcast is done.
    Stop,
    /// Leave the request unanswered and wait for the next one.
    SkipTrack,
    /// Forward the requested track (see `track`), then wait for the next
    /// request.
    ForwardTrack,
}

/// The republished broadcast's decision for one observation.
pub fn on_broadcast_event(event: BroadcastEvent) -> (a: BroadcastAction)
    ensures
        a == match event {
            BroadcastEvent::SourceClosed => BroadcastAction::Stop,
            BroadcastEvent::RequestFailed => BroadcastAction::Stop,
            BroadcastEvent::Requested { subscribed } => if subscribed {
                BroadcastAction::ForwardTrack
            } else {
                BroadcastAction::SkipTrack
            },
        },
{
    match event {
        BroadcastEvent::SourceClosed => BroadcastAction::Stop,
        BroadcastEvent::RequestFailed => BroadcastAction::Stop,
        BroadcastEvent::Requested { subscribed } => if subscribed {
            BroadcastAction::ForwardTrack
        } else {
            BroadcastAction::SkipTrack
        },
    }
}

} // verus!
