use moq_c2pa::TrackEvent::{Frame, Group, Probed};
use moq_c2pa::{
    frame_after_signing, track_start, track_step, track_wait, TrackEvent, TrackOp, TrackPhase,
    TrackWait,
};

fn run(events: &[TrackEvent]) -> Option<(TrackPhase, Vec<TrackOp>)> {
    let mut phase = track_start();
    let mut all = Vec::new();
    for e in events {
        let (next, ops) = track_step(phase, *e)?;
        phase = next;
        all.extend(ops);
    }
    Some((phase, all))
}

#[test]
fn empty_track_is_finished() {
    let (phase, ops) = run(&[TrackEvent::Group(false)]).unwrap();
    assert_eq!(phase, TrackPhase::Finished);
    assert_eq!(ops, vec![TrackOp::FinishTrack]);
    assert_eq!(track_wait(phase), TrackWait::Nothing);
}

#[test]
fn empty_first_group_writes_empty_group() {
    let (phase, ops) = run(&[TrackEvent::Group(true), TrackEvent::Frame(false)]).unwrap();
    assert_eq!(phase, TrackPhase::AwaitFirstGroup);
    assert_eq!(track_wait(phase), TrackWait::NextGroup);
    assert_eq!(ops, vec![TrackOp::AppendGroup, TrackOp::FinishGroup]);
}

#[test]
fn track_after_empty_first_group_is_still_forwarded() {
    let (phase, ops) = run(&[
        Group(true),
        Frame(false),
        Group(true),
        Frame(true),
        Probed(true),
        Frame(true),
        Frame(false),
        Group(true),
        Frame(true),
        Frame(false),
        Group(false),
    ])
    .unwrap();
    assert_eq!(phase, TrackPhase::Finished);
    assert_eq!(
        ops,
        vec![
            TrackOp::AppendGroup,
            TrackOp::FinishGroup,
            TrackOp::AppendGroup,
            TrackOp::WriteProbeOutput,
            TrackOp::SignAndWrite,
            TrackOp::FinishGroup,
            TrackOp::AppendGroup,
            TrackOp::SignAndWrite,
            TrackOp::FinishGroup,
            TrackOp::FinishTrack,
        ]
    );
}

#[test]
fn signed_video_track() {
    let (phase, ops) = run(&[
        Group(true),
        Frame(true),
        Probed(true),
        Frame(true),
        Frame(false),
        Group(true),
        Frame(true),
        Frame(false),
        Group(false),
    ])
    .unwrap();
    assert_eq!(phase, TrackPhase::Finished);
    assert_eq!(
        ops,
        vec![
            TrackOp::AppendGroup,
            TrackOp::WriteProbeOutput,
            TrackOp::SignAndWrite,
            TrackOp::FinishGroup,
            TrackOp::AppendGroup,
            TrackOp::SignAndWrite,
            TrackOp::FinishGroup,
            TrackOp::FinishTrack,
        ]
    );
}

#[test]
fn unsigned_track_passes_through() {
    let (phase, ops) =
        run(&[Group(true), Frame(true), Probed(false), Frame(true), Frame(false), Group(false)]).unwrap();
    assert_eq!(phase, TrackPhase::Finished);
    assert_eq!(
        ops,
        vec![
            TrackOp::AppendGroup,
            TrackOp::WriteOriginal,
            TrackOp::WriteOriginal,
            TrackOp::FinishGroup,
            TrackOp::FinishTrack,
        ]
    );
}

#[test]
fn waits_follow_the_phase() {
    let mut phase = track_start();
    assert_eq!(track_wait(phase), TrackWait::NextGroup);
    phase = track_step(phase, TrackEvent::Group(true)).unwrap().0;
    assert_eq!(track_wait(phase), TrackWait::NextFrame);
    phase = track_step(phase, TrackEvent::Frame(true)).unwrap().0;
    assert_eq!(track_wait(phase), TrackWait::ProbeResult);
    phase = track_step(phase, TrackEvent::Probed(true)).unwrap().0;
    assert_eq!(phase, TrackPhase::Copying { sign: true, in_group: true });
    assert_eq!(track_wait(phase), TrackWait::NextFrame);
    phase = track_step(phase, TrackEvent::Frame(false)).unwrap().0;
    assert_eq!(track_wait(phase), TrackWait::NextGroup);
}

#[test]
fn impossible_events_are_refused() {
    assert!(track_step(TrackPhase::AwaitFirstGroup, TrackEvent::Frame(true)).is_none());
    assert!(track_step(TrackPhase::AwaitProbe, TrackEvent::Group(true)).is_none());
    assert!(track_step(TrackPhase::Finished, TrackEvent::Group(true)).is_none());
    assert!(track_step(TrackPhase::Copying { sign: true, in_group: false }, TrackEvent::Frame(true)).is_none());
    assert!(track_step(TrackPhase::Copying { sign: false, in_group: true }, TrackEvent::Group(true)).is_none());
}

#[test]
fn signed_frame_replaces_original() {
    assert_eq!(frame_after_signing(vec![1u8, 2], Some(vec![9u8, 9, 9])), vec![9, 9, 9]);
}

#[test]
fn failed_signing_keeps_original() {
    assert_eq!(frame_after_signing(vec![1u8, 2], None), vec![1, 2]);
}

fn count(ops: &[TrackOp], op: TrackOp) -> usize {
    ops.iter().filter(|o| **o == op).count()
}

#[test]
fn whole_track_conserves_frames_and_groups() {
    let events = [
        Group(true),
        Frame(true),
        Probed(false),
        Frame(true),
        Frame(true),
        Frame(false),
        Group(true),
        Frame(false),
        Group(true),
        Frame(true),
        Frame(false),
        Group(false),
    ];
    let (phase, ops) = run(&events).unwrap();
    assert_eq!(phase, TrackPhase::Finished);
    let frames = events.iter().filter(|e| **e == Frame(true)).count();
    let writes = count(&ops, TrackOp::WriteProbeOutput) + count(&ops, TrackOp::WriteOriginal) + count(&ops, TrackOp::SignAndWrite);
    assert_eq!(writes, frames);
    assert_eq!(count(&ops, TrackOp::AppendGroup), count(&ops, TrackOp::FinishGroup));
    assert_eq!(count(&ops, TrackOp::FinishTrack), 1);
    assert_eq!(ops.last(), Some(&TrackOp::FinishTrack));
    // the probe failed: nothing is signed
    assert_eq!(count(&ops, TrackOp::SignAndWrite), 0);
}

fn group_sizes_in(events: &[TrackEvent]) -> Vec<usize> {
    let mut sizes: Vec<usize> = Vec::new();
    for e in events {
        match e {
            Group(true) => sizes.push(0),
            Frame(true) => {
                if let Some(last) = sizes.last_mut() {
                    *last += 1;
                }
            }
            _ => {}
        }
    }
    sizes
}

fn group_sizes_out(ops: &[TrackOp]) -> Vec<usize> {
    let mut sizes: Vec<usize> = Vec::new();
    for op in ops {
        match op {
            TrackOp::AppendGroup => sizes.push(0),
            TrackOp::WriteProbeOutput | TrackOp::WriteOriginal | TrackOp::SignAndWrite => {
                if let Some(last) = sizes.last_mut() {
                    *last += 1;
                }
            }
            _ => {}
        }
    }
    sizes
}

#[test]
fn output_groups_match_source_groups() {
    let events = [
        Group(true),
        Frame(false),
        Group(true),
        Frame(true),
        Probed(false),
        Frame(true),
        Frame(true),
        Frame(false),
        Group(true),
        Frame(false),
        Group(true),
        Frame(true),
        Frame(false),
        Group(false),
    ];
    let (_, ops) = run(&events).unwrap();
    assert_eq!(group_sizes_in(&events), vec![0, 3, 0, 1]);
    assert_eq!(group_sizes_out(&ops), group_sizes_in(&events));
}
