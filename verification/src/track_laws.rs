//! What holds of every run of the track forwarder.

use vstd::prelude::*;

use crate::track::{frame_write, track_step_spec, TrackEvent, TrackOp, TrackPhase};

verus! {

/// The phase reached and the output operations performed when the events are
/// observed in order from `phase`; `None` when one of them cannot occur.
pub open spec fn track_run(phase: TrackPhase, events: Seq<TrackEvent>) -> Option<(TrackPhase, Seq<TrackOp>)>
    decreases events.len(),
{
    if events.len() == 0 {
        Some((phase, seq![]))
    } else {
        match track_step_spec(phase, events[0]) {
            None => None,
            Some((next, ops)) => match track_run(next, events.drop_first()) {
                None => None,
                Some((last, rest)) => Some((last, ops + rest)),
            },
        }
    }
}

/// How many times `op` occurs in `ops`.
pub open spec fn count_op(ops: Seq<TrackOp>, op: TrackOp) -> nat
    decreases ops.len(),
{
    if ops.len() == 0 {
        0
    } else {
        (if ops[0] == op { 1nat } else { 0nat }) + count_op(ops.drop_first(), op)
    }
}

/// How many source frames the events report.
pub open spec fn frames_read(events: Seq<TrackEvent>) -> nat
    decreases events.len(),
{
    if events.len() == 0 {
        0
    } else {
        (if events[0] == TrackEvent::Frame(true) { 1nat } else { 0nat }) + frames_read(events.drop_first())
    }
}

/// How many source groups the events report.
pub open spec fn groups_read(events: Seq<TrackEvent>) -> nat
    decreases events.len(),
{
    if events.len() == 0 {
        0
    } else {
        (if events[0] == TrackEvent::Group(true) { 1nat } else { 0nat }) + groups_read(events.drop_first())
    }
}

/// Whether a source group has been read and its output group not yet
/// opened (the first frame is awaited or being probed).
pub open spec fn pending_groups(phase: TrackPhase) -> nat {
    match phase {
        TrackPhase::AwaitFirstFrame => 1,
        TrackPhase::AwaitProbe => 1,
        _ => 0,
    }
}

/// How many frames the operations write to the output.
pub open spec fn frames_written(ops: Seq<TrackOp>) -> nat {
    count_op(ops, TrackOp::WriteProbeOutput) + count_op(ops, TrackOp::WriteOriginal) + count_op(
        ops,
        TrackOp::SignAndWrite,
    )
}

/// Whether an output group is open in the phase.
pub open spec fn open_groups(phase: TrackPhase) -> nat {
    match phase {
        TrackPhase::Copying { in_group: true, .. } => 1,
        _ => 0,
    }
}

/// Whether a frame has been read and not yet written (the probed frame).
pub open spec fn pending_frames(phase: TrackPhase) -> nat {
    match phase {
        TrackPhase::AwaitProbe => 1,
        _ => 0,
    }
}

/// Every frame write in `ops` follows the signing mode `sign`, and none of
/// them writes a probe output.
pub open spec fn writes_follow(ops: Seq<TrackOp>, sign: bool) -> bool {
    forall|i: int|
        0 <= i < ops.len() ==> {
            &&& #[trigger] ops[i] != TrackOp::WriteProbeOutput
            &&& (ops[i] == TrackOp::SignAndWrite ==> sign)
            &&& (ops[i] == TrackOp::WriteOriginal ==> !sign)
        }
}

proof fn lemma_count_concat(a: Seq<TrackOp>, b: Seq<TrackOp>, op: TrackOp)
    ensures
        count_op(a + b, op) == count_op(a, op) + count_op(b, op),
    decreases a.len(),
{
    if a.len() == 0 {
        assert(a + b =~= b);
    } else {
        assert((a + b).drop_first() =~= a.drop_first() + b);
        lemma_count_concat(a.drop_first(), b, op);
    }
}

proof fn lemma_run_step(phase: TrackPhase, events: Seq<TrackEvent>)
    requires
        events.len() > 0,
        track_run(phase, events) is Some,
    ensures
        track_step_spec(phase, events[0]) is Some,
        track_run(track_step_spec(phase, events[0])->Some_0.0, events.drop_first()) is Some,
        track_run(phase, events)->Some_0.0 == track_run(
            track_step_spec(phase, events[0])->Some_0.0,
            events.drop_first(),
        )->Some_0.0,
        track_run(phase, events)->Some_0.1 == track_step_spec(phase, events[0])->Some_0.1
            + track_run(track_step_spec(phase, events[0])->Some_0.0, events.drop_first())->Some_0.1,
{
}

/// Frames are conserved: every frame read from the source is written to the
/// output exactly once (the probed frame once the probe has answered).
pub proof fn law_frames_conserved(phase: TrackPhase, events: Seq<TrackEvent>)
    requires
        track_run(phase, events) is Some,
    ensures
        frames_written(track_run(phase, events)->Some_0.1) + pending_frames(
            track_run(phase, events)->Some_0.0,
        ) == frames_read(events) + pending_frames(phase),
    decreases events.len(),
{
    if events.len() > 0 {
        lemma_run_step(phase, events);
        let (next, ops) = track_step_spec(phase, events[0])->Some_0;
        let rest = track_run(next, events.drop_first())->Some_0.1;
        law_frames_conserved(next, events.drop_first());
        lemma_count_concat(ops, rest, TrackOp::WriteProbeOutput);
        lemma_count_concat(ops, rest, TrackOp::WriteOriginal);
        lemma_count_concat(ops, rest, TrackOp::SignAndWrite);
        reveal_with_fuel(count_op, 4);
    }
}

/// Groups are balanced: every output group that is opened is finished,
/// except the one still open in the final phase.
pub proof fn law_groups_balanced(phase: TrackPhase, events: Seq<TrackEvent>)
    requires
        track_run(phase, events) is Some,
    ensures
        count_op(track_run(phase, events)->Some_0.1, TrackOp::AppendGroup) + open_groups(phase)
            == count_op(track_run(phase, events)->Some_0.1, TrackOp::FinishGroup) + open_groups(
            track_run(phase, events)->Some_0.0,
        ),
    decreases events.len(),
{
    if events.len() > 0 {
        lemma_run_step(phase, events);
        let (next, ops) = track_step_spec(phase, events[0])->Some_0;
        let rest = track_run(next, events.drop_first())->Some_0.1;
        law_groups_balanced(next, events.drop_first());
        lemma_count_concat(ops, rest, TrackOp::AppendGroup);
        lemma_count_concat(ops, rest, TrackOp::FinishGroup);
        reveal_with_fuel(count_op, 4);
    }
}

/// Every group is forwarded: each source group read gets exactly one output
/// group, an empty one for a group without frames, so no group is dropped.
pub proof fn law_groups_forwarded(phase: TrackPhase, events: Seq<TrackEvent>)
    requires
        track_run(phase, events) is Some,
    ensures
        count_op(track_run(phase, events)->Some_0.1, TrackOp::AppendGroup) + pending_groups(
            track_run(phase, events)->Some_0.0,
        ) == groups_read(events) + pending_groups(phase),
    decreases events.len(),
{
    if events.len() > 0 {
        lemma_run_step(phase, events);
        let (next, ops) = track_step_spec(phase, events[0])->Some_0;
        let rest = track_run(next, events.drop_first())->Some_0.1;
        law_groups_forwarded(next, events.drop_first());
        lemma_count_concat(ops, rest, TrackOp::AppendGroup);
        reveal_with_fuel(count_op, 4);
    }
}

/// Once forwarding has started, the signing mode never changes: the track
/// stays in the same mode until it is finished, and every frame is signed
/// exactly when the mode says so.
pub proof fn law_sign_mode_fixed(sign: bool, in_group: bool, events: Seq<TrackEvent>)
    requires
        track_run(TrackPhase::Copying { sign, in_group }, events) is Some,
    ensures
        ({
            let (last, ops) = track_run(TrackPhase::Copying { sign, in_group }, events)->Some_0;
            &&& (last is Finished || (last matches TrackPhase::Copying { sign: s, .. } && s == sign))
            &&& writes_follow(ops, sign)
        }),
    decreases events.len(),
{
    let phase = TrackPhase::Copying { sign, in_group };
    if events.len() > 0 {
        lemma_run_step(phase, events);
        let (next, ops) = track_step_spec(phase, events[0])->Some_0;
        let rest = track_run(next, events.drop_first())->Some_0.1;
        let all = ops + rest;
        match next {
            TrackPhase::Copying { sign: s, in_group: g } => {
                law_sign_mode_fixed(s, g, events.drop_first());
            },
            _ => {
                assert(next is Finished);
                assert(events.drop_first().len() == 0 || track_step_spec(next, events.drop_first()[0]) is None);
            },
        }
        assert forall|i: int| 0 <= i < all.len() implies {
            &&& #[trigger] all[i] != TrackOp::WriteProbeOutput
            &&& (all[i] == TrackOp::SignAndWrite ==> sign)
            &&& (all[i] == TrackOp::WriteOriginal ==> !sign)
        } by {
            if i >= ops.len() {
                assert(all[i] == rest[i - ops.len()]);
            }
        }
    }
}

/// The probe decides the track: after the first frame has been probed, the
/// track is signed exactly when signing the probe succeeded. The first frame
/// is written as the probe's output when it succeeded, unchanged otherwise.
pub proof fn law_probe_decides(ok: bool, events: Seq<TrackEvent>)
    requires
        track_run(TrackPhase::AwaitProbe, seq![TrackEvent::Probed(ok)] + events) is Some,
    ensures
        ({
            let (last, ops) = track_run(TrackPhase::AwaitProbe, seq![TrackEvent::Probed(ok)] + events)->Some_0;
            &&& ops.len() >= 2
            &&& ops[0] == TrackOp::AppendGroup
            &&& ops[1] == (if ok { TrackOp::WriteProbeOutput } else { TrackOp::WriteOriginal })
            &&& writes_follow(ops.subrange(2, ops.len() as int), ok)
            &&& (last is Finished || (last matches TrackPhase::Copying { sign: s, .. } && s == ok))
        }),
{
    let all_events = seq![TrackEvent::Probed(ok)] + events;
    lemma_run_step(TrackPhase::AwaitProbe, all_events);
    assert(all_events.drop_first() =~= events);
    assert(all_events[0] == TrackEvent::Probed(ok));
    law_sign_mode_fixed(ok, true, events);
    let first = track_step_spec(TrackPhase::AwaitProbe, TrackEvent::Probed(ok))->Some_0.1;
    let rest = track_run(TrackPhase::Copying { sign: ok, in_group: true }, events)->Some_0.1;
    assert((first + rest).subrange(2, (first + rest).len() as int) =~= rest);
}

/// A track is finished exactly once: a run that ends in `Finished` from any
/// other phase performs `FinishTrack` once, as its last operation, and a
/// finished track accepts no further event.
pub proof fn law_finished_once(phase: TrackPhase, events: Seq<TrackEvent>)
    requires
        track_run(phase, events) is Some,
    ensures
        phase is Finished ==> events.len() == 0,
        ({
            let (last, ops) = track_run(phase, events)->Some_0;
            &&& count_op(ops, TrackOp::FinishTrack) == (if last is Finished && !(phase is Finished) {
                1nat
            } else {
                0nat
            })
            &&& (last is Finished && !(phase is Finished)) ==> ops.len() > 0 && ops.last()
                == TrackOp::FinishTrack
        }),
    decreases events.len(),
{
    if events.len() > 0 {
        lemma_run_step(phase, events);
        let (next, ops) = track_step_spec(phase, events[0])->Some_0;
        let rest = track_run(next, events.drop_first())->Some_0.1;
        law_finished_once(next, events.drop_first());
        lemma_count_concat(ops, rest, TrackOp::FinishTrack);
        reveal_with_fuel(count_op, 4);
        if rest.len() == 0 {
            assert(ops + rest =~= ops);
        } else {
            assert((ops + rest).last() == rest.last());
        }
    }
}

/// Adds one frame to the last group of a list of group sizes.
pub open spec fn add_frame(groups: Seq<nat>) -> Seq<nat> {
    if groups.len() == 0 {
        groups
    } else {
        groups.update(groups.len() - 1, groups.last() + 1)
    }
}

/// The sizes of the source groups after one more event: a new group starts
/// empty, a frame joins the last group.
pub open spec fn source_groups_step(groups: Seq<nat>, event: TrackEvent) -> Seq<nat> {
    match event {
        TrackEvent::Group(true) => groups.push(0),
        TrackEvent::Frame(true) => add_frame(groups),
        _ => groups,
    }
}

/// The sizes of the source groups after the events, from `groups`.
pub open spec fn source_groups(groups: Seq<nat>, events: Seq<TrackEvent>) -> Seq<nat>
    decreases events.len(),
{
    if events.len() == 0 {
        groups
    } else {
        source_groups(source_groups_step(groups, events[0]), events.drop_first())
    }
}

/// The sizes of the output groups after one more operation: an appended
/// group starts empty, a written frame joins the last group.
pub open spec fn output_groups_step(groups: Seq<nat>, op: TrackOp) -> Seq<nat> {
    match op {
        TrackOp::AppendGroup => groups.push(0),
        TrackOp::WriteProbeOutput => add_frame(groups),
        TrackOp::WriteOriginal => add_frame(groups),
        TrackOp::SignAndWrite => add_frame(groups),
        _ => groups,
    }
}

/// The sizes of the output groups after the operations, from `groups`.
pub open spec fn output_groups(groups: Seq<nat>, ops: Seq<TrackOp>) -> Seq<nat>
    decreases ops.len(),
{
    if ops.len() == 0 {
        groups
    } else {
        output_groups(output_groups_step(groups, ops[0]), ops.drop_first())
    }
}

/// How the source and output group sizes relate in each phase: equal, but
/// for a source group (holding no frame, or the probed frame) whose output
/// group is not open yet.
pub open spec fn groups_match(phase: TrackPhase, source: Seq<nat>, output: Seq<nat>) -> bool {
    match phase {
        TrackPhase::AwaitFirstFrame => source == output.push(0),
        TrackPhase::AwaitProbe => source == output.push(1),
        _ => source == output,
    }
}

proof fn lemma_output_groups_concat(groups: Seq<nat>, a: Seq<TrackOp>, b: Seq<TrackOp>)
    ensures
        output_groups(groups, a + b) == output_groups(output_groups(groups, a), b),
    decreases a.len(),
{
    if a.len() == 0 {
        assert(a + b =~= b);
    } else {
        assert((a + b).drop_first() =~= a.drop_first() + b);
        assert((a + b)[0] == a[0]);
        lemma_output_groups_concat(output_groups_step(groups, a[0]), a.drop_first(), b);
    }
}

proof fn lemma_groups_match_step(phase: TrackPhase, event: TrackEvent, source: Seq<nat>, output: Seq<nat>)
    requires
        groups_match(phase, source, output),
        track_step_spec(phase, event) is Some,
    ensures
        groups_match(
            track_step_spec(phase, event)->Some_0.0,
            source_groups_step(source, event),
            output_groups(output, track_step_spec(phase, event)->Some_0.1),
        ),
{
    let ops = track_step_spec(phase, event)->Some_0.1;
    reveal_with_fuel(output_groups, 4);
    if ops.len() >= 1 {
        assert(ops.drop_first().len() + 1 == ops.len());
    }
    if ops.len() >= 2 {
        assert(ops.drop_first().drop_first().len() + 2 == ops.len());
    }
    match (phase, event) {
        (TrackPhase::AwaitFirstFrame, TrackEvent::Frame(true)) => {
            assert(add_frame(output.push(0)) =~= output.push(1));
        },
        (TrackPhase::AwaitProbe, TrackEvent::Probed(ok)) => {
            assert(ops[0] == TrackOp::AppendGroup);
            assert(ops.drop_first()[0] == ops[1]);
            assert(add_frame(output.push(0)) =~= output.push(1));
        },
        (TrackPhase::AwaitFirstFrame, TrackEvent::Frame(false)) => {
            assert(ops[0] == TrackOp::AppendGroup);
            assert(ops.drop_first()[0] == ops[1]);
        },
        _ => {},
    }
}

/// Groups correspond one to one: each output group holds as many frames as
/// the source group it forwards, in order (up to a group whose output is not
/// open yet, see `groups_match`).
pub proof fn law_groups_correspond(
    phase: TrackPhase,
    events: Seq<TrackEvent>,
    source: Seq<nat>,
    output: Seq<nat>,
)
    requires
        groups_match(phase, source, output),
        track_run(phase, events) is Some,
    ensures
        groups_match(
            track_run(phase, events)->Some_0.0,
            source_groups(source, events),
            output_groups(output, track_run(phase, events)->Some_0.1),
        ),
    decreases events.len(),
{
    if events.len() > 0 {
        lemma_run_step(phase, events);
        let (next, ops) = track_step_spec(phase, events[0])->Some_0;
        let rest = track_run(next, events.drop_first())->Some_0.1;
        lemma_groups_match_step(phase, events[0], source, output);
        law_groups_correspond(
            next,
            events.drop_first(),
            source_groups_step(source, events[0]),
            output_groups(output, ops),
        );
        lemma_output_groups_concat(output, ops, rest);
    }
}

/// A whole track, from its first group to its end: every group and every
/// frame read is forwarded once, every output group is finished, and the
/// output track is finished once.
pub proof fn law_whole_track(events: Seq<TrackEvent>)
    requires
        track_run(TrackPhase::AwaitFirstGroup, events) matches Some((last, _)) && last is Finished,
    ensures
        ({
            let ops = track_run(TrackPhase::AwaitFirstGroup, events)->Some_0.1;
            &&& frames_written(ops) == frames_read(events)
            &&& count_op(ops, TrackOp::AppendGroup) == groups_read(events)
            &&& count_op(ops, TrackOp::AppendGroup) == count_op(ops, TrackOp::FinishGroup)
            &&& count_op(ops, TrackOp::FinishTrack) == 1
            &&& ops.last() == TrackOp::FinishTrack
            &&& output_groups(seq![], ops) == source_groups(seq![], events)
        }),
{
    law_groups_correspond(TrackPhase::AwaitFirstGroup, events, seq![], seq![]);
    law_frames_conserved(TrackPhase::AwaitFirstGroup, events);
    law_groups_balanced(TrackPhase::AwaitFirstGroup, events);
    law_groups_forwarded(TrackPhase::AwaitFirstGroup, events);
    law_finished_once(TrackPhase::AwaitFirstGroup, events);
}

} // verus!
