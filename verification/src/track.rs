//! Decisions of the relay's signing proxy. A track is forwarded group by
//! group; its first frame is a probe: when the signing tool accepts it the
//! whole track is signed, otherwise every frame passes through unchanged.
//! The caller performs the reads, the signing and the writes; the functions
//! here say what comes next.

use vstd::prelude::*;

verus! {

/// Where the forwarding of one track stands.
#[derive(PartialEq, Eq, Structural, Clone, Copy, Debug)]
pub enum TrackPhase {
    /// Waiting for a group of the source track before any frame has been
    /// seen (groups without frames are forwarded empty).
    AwaitFirstGroup,
    /// Waiting for the first frame of the track, in the current group.
    AwaitFirstFrame,
    /// Waiting for the signing tool's answer on the first frame.
    AwaitProbe,
    /// Forwarding; `sign` says whether frames are signed, `in_group` whether
    /// an output group is open (and a frame is awaited) or a group is awaited.
    Copying { sign: bool, in_group: bool },
    /// The output track is finished.
    Finished,
}

/// What the caller observed.
#[derive(PartialEq, Eq, Structural, Clone, Copy, Debug)]
pub enum TrackEvent {
    /// The source yielded a group (`true`) or ended (`false`).
    Group(bool),
    /// The current source group yielded a frame (`true`) or ended (`false`).
    Frame(bool),
    /// Signing the first frame succeeded (`true`) or failed (`false`).
    Probed(bool),
}

/// An operation on the output track.
#[derive(PartialEq, Eq, Structural, Clone, Copy, Debug)]
pub enum TrackOp {
    /// Open a new output group.
    AppendGroup,
    /// Write the signed first frame that the probe produced.
    WriteProbeOutput,
    /// Write the frame just read, unchanged.
    WriteOriginal,
    /// Sign the frame just read (falling back to the original on failure,
    /// see `frame_after_signing`) and write it.
    SignAndWrite,
    /// Finish the open output group.
    FinishGroup,
    /// Finish the output track.
    FinishTrack,
}

/// What the caller waits for next.
#[derive(PartialEq, Eq, Structural, Clone, Copy, Debug)]
pub enum TrackWait {
    NextGroup,
    NextFrame,
    ProbeResult,
    Nothing,
}

/// The write of a frame in the current signing mode.
pub open spec fn frame_write(sign: bool) -> TrackOp {
    if sign {
        TrackOp::SignAndWrite
    } else {
        TrackOp::WriteOriginal
    }
}

/// One step of the track forwarder: the next phase and the output operations
/// to perform, or `None` when the event cannot occur in the phase.
pub open spec fn track_step_spec(phase: TrackPhase, event: TrackEvent) -> Option<(TrackPhase, Seq<TrackOp>)> {
    match (phase, event) {
        (TrackPhase::AwaitFirstGroup, TrackEvent::Group(false)) => Some(
            (TrackPhase::Finished, seq![TrackOp::FinishTrack]),
        ),
        (TrackPhase::AwaitFirstGroup, TrackEvent::Group(true)) => Some(
            (TrackPhase::AwaitFirstFrame, seq![]),
        ),
        (TrackPhase::AwaitFirstFrame, TrackEvent::Frame(false)) => Some(
            (TrackPhase::AwaitFirstGroup, seq![TrackOp::AppendGroup, TrackOp::FinishGroup]),
        ),
        (TrackPhase::AwaitFirstFrame, TrackEvent::Frame(true)) => Some((TrackPhase::AwaitProbe, seq![])),
        (TrackPhase::AwaitProbe, TrackEvent::Probed(ok)) => Some(
            (
                TrackPhase::Copying { sign: ok, in_group: true },
                seq![
                    TrackOp::AppendGroup,
                    if ok {
                        TrackOp::WriteProbeOutput
                    } else {
                        TrackOp::WriteOriginal
                    },
                ],
            ),
        ),
        (TrackPhase::Copying { sign, in_group: true }, TrackEvent::Frame(true)) => Some(
            (TrackPhase::Copying { sign, in_group: true }, seq![frame_write(sign)]),
        ),
        (TrackPhase::Copying { sign, in_group: true }, TrackEvent::Frame(false)) => Some(
            (TrackPhase::Copying { sign, in_group: false }, seq![TrackOp::FinishGroup]),
        ),
        (TrackPhase::Copying { sign, in_group: false }, TrackEvent::Group(true)) => Some(
            (TrackPhase::Copying { sign, in_group: true }, seq![TrackOp::AppendGroup]),
        ),
        (TrackPhase::Copying { sign, in_group: false }, TrackEvent::Group(false)) => Some(
            (TrackPhase::Finished, seq![TrackOp::FinishTrack]),
        ),
        _ => None,
    }
}

/// What the caller waits for in each phase.
pub open spec fn track_wait_spec(phase: TrackPhase) -> TrackWait {
    match phase {
        TrackPhase::AwaitFirstGroup => TrackWait::NextGroup,
        TrackPhase::AwaitFirstFrame => TrackWait::NextFrame,
        TrackPhase::AwaitProbe => TrackWait::ProbeResult,
        TrackPhase::Copying { in_group, .. } => if in_group {
            TrackWait::NextFrame
        } else {
            TrackWait::NextGroup
        },
        TrackPhase::Finished => TrackWait::Nothing,
    }
}

/// The phase a track starts in.
pub fn track_start() -> (phase: TrackPhase)
    ensures
        phase == TrackPhase::AwaitFirstGroup,
{
    TrackPhase::AwaitFirstGroup
}

/// What to wait for in `phase`.
pub fn track_wait(phase: TrackPhase) -> (w: TrackWait)
    ensures
        w == track_wait_spec(phase),
        w is Nothing <==> phase is Finished,
        phase matches TrackPhase::Copying { in_group: false, .. } ==> w is NextGroup,
        phase matches TrackPhase::Copying { in_group: true, .. } ==> w is NextFrame,
        w is NextGroup ==> track_step_spec(phase, TrackEvent::Group(true)) is Some
            && track_step_spec(phase, TrackEvent::Group(false)) is Some,
        w is NextFrame ==> track_step_spec(phase, TrackEvent::Frame(true)) is Some
            && track_step_spec(phase, TrackEvent::Frame(false)) is Some,
        w is ProbeResult ==> track_step_spec(phase, TrackEvent::Probed(true)) is Some
            && track_step_spec(phase, TrackEvent::Probed(false)) is Some,
{
    match phase {
        TrackPhase::AwaitFirstGroup => TrackWait::NextGroup,
        TrackPhase::AwaitFirstFrame => TrackWait::NextFrame,
        TrackPhase::AwaitProbe => TrackWait::ProbeResult,
        TrackPhase::Copying { in_group, .. } => if in_group {
            TrackWait::NextFrame
        } else {
            TrackWait::NextGroup
        },
        TrackPhase::Finished => TrackWait::Nothing,
    }
}

/// The forwarder never stalls: in every phase but `Finished` it waits for
/// something, and both answers to what it waits for are events it accepts;
/// outside a group it waits for the next group whether or not the track is
/// signed. Only a finished track waits for nothing, and it accepts no event.
pub proof fn law_wait_matches_step(phase: TrackPhase)
    ensures
        track_wait_spec(phase) is Nothing <==> phase is Finished,
        phase is Finished ==> forall|e: TrackEvent| #[trigger] track_step_spec(phase, e) is None,
        phase matches TrackPhase::Copying { in_group: false, .. } ==> track_wait_spec(phase)
            is NextGroup,
        phase matches TrackPhase::Copying { in_group: true, .. } ==> track_wait_spec(phase)
            is NextFrame,
        forall|b: bool|
            {
                &&& (track_wait_spec(phase) is NextGroup ==> #[trigger] track_step_spec(
                    phase,
                    TrackEvent::Group(b),
                ) is Some)
                &&& (track_wait_spec(phase) is NextFrame ==> #[trigger] track_step_spec(
                    phase,
                    TrackEvent::Frame(b),
                ) is Some)
                &&& (track_wait_spec(phase) is ProbeResult ==> #[trigger] track_step_spec(
                    phase,
                    TrackEvent::Probed(b),
                ) is Some)
            },
{
}

/// Advances the forwarder of one track by one observed event.
pub fn track_step(phase: TrackPhase, event: TrackEvent) -> (r: Option<(TrackPhase, Vec<TrackOp>)>)
    ensures
        match r {
            None => track_step_spec(phase, event) is None,
            Some((next, ops)) => track_step_spec(phase, event) == Some((next, ops@)),
        },
{
    let mut ops: Vec<TrackOp> = Vec::new();
    let next = match (phase, event) {
        (TrackPhase::AwaitFirstGroup, TrackEvent::Group(arrived)) => {
            if arrived {
                TrackPhase::AwaitFirstFrame
            } else {
                ops.push(TrackOp::FinishTrack);
                TrackPhase::Finished
            }
        },
        (TrackPhase::AwaitFirstFrame, TrackEvent::Frame(arrived)) => {
            if arrived {
                TrackPhase::AwaitProbe
            } else {
                ops.push(TrackOp::AppendGroup);
                ops.push(TrackOp::FinishGroup);
                TrackPhase::AwaitFirstGroup
            }
        },
        (TrackPhase::AwaitProbe, TrackEvent::Probed(ok)) => {
            ops.push(TrackOp::AppendGroup);
            if ok {
                ops.push(TrackOp::WriteProbeOutput);
            } else {
                ops.push(TrackOp::WriteOriginal);
            }
            TrackPhase::Copying { sign: ok, in_group: true }
        },
        (TrackPhase::Copying { sign, in_group }, TrackEvent::Frame(arrived)) => {
            if !in_group {
                return None;
            }
            if arrived {
                if sign {
                    ops.push(TrackOp::SignAndWrite);
                } else {
                    ops.push(TrackOp::WriteOriginal);
                }
                TrackPhase::Copying { sign, in_group: true }
            } else {
                ops.push(TrackOp::FinishGroup);
                TrackPhase::Copying { sign, in_group: false }
            }
        },
        (TrackPhase::Copying { sign, in_group }, TrackEvent::Group(arrived)) => {
            if in_group {
                return None;
            }
            if arrived {
                ops.push(TrackOp::AppendGroup);
                TrackPhase::Copying { sign, in_group: true }
            } else {
                ops.push(TrackOp::FinishTrack);
                TrackPhase::Finished
            }
        },
        _ => {
            return None;
        },
    };
    proof {
        let spec = track_step_spec(phase, event);
        assert(spec is Some);
        if let Some((_, spec_ops)) = spec {
            assert(ops@ =~= spec_ops);
        }
    }
    Some((next, ops))
}

/// The frame to forward once signing was attempted: the signed frame when
/// signing succeeded, the original frame otherwise.
pub fn frame_after_signing<T>(original: T, signed: Option<T>) -> (frame: T)
    ensures
        frame == match signed {
            Some(s) => s,
            None => original,
        },
{
    match signed {
        Some(s) => s,
        None => original,
    }
}

} // verus!
