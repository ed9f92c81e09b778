use screen_recorder::config::RecorderConfig;
use screen_recorder::session::{
    PollOutcome, RecordingSession, SessionAction, SessionEvent, SessionPhase,
};

/// What a simulated run of a session did to its collaborators.
struct Outcome {
    send_times: Vec<u64>,
    finish_calls: u32,
    frames_submitted: u64,
    phase: SessionPhase,
}

/// Drives a session against a frame source that yields `polls` in turn and a
/// sink that answers `sink_answers` in turn (accepting once they run out).
/// The stop flag is set from the start when `stop_at_once`, and otherwise
/// once the frame source has nothing more to give.
fn simulate(fps: u32, polls: &[PollOutcome], sink_answers: &[bool], stop_at_once: bool) -> Outcome {
    let config = RecorderConfig::new("sim.mp4".to_string(), fps, None);
    let mut session = RecordingSession::new(&config);
    let mut clock = 0u64;
    let mut next_poll = 0usize;
    let mut woke_at = 0u64;
    let mut out = Outcome { send_times: Vec::new(), finish_calls: 0, frames_submitted: 0, phase: SessionPhase::Idle };
    let mut action = session.step(SessionEvent::Started { now_micros: clock });
    loop {
        action = match action {
            SessionAction::CheckStop => {
                let stop = stop_at_once || next_poll >= polls.len();
                session.step(SessionEvent::Tick { stop_requested: stop, now_micros: clock })
            }
            SessionAction::Wait { micros } => {
                clock += micros;
                woke_at = clock;
                session.step(SessionEvent::Woke { now_micros: clock })
            }
            SessionAction::Poll => {
                let outcome = polls[next_poll];
                next_poll += 1;
                clock += 500;
                session.step(SessionEvent::Polled(outcome))
            }
            SessionAction::Submit => {
                out.send_times.push(woke_at);
                let accepted = sink_answers.get(out.send_times.len() - 1).copied().unwrap_or(true);
                clock += 4_000;
                session.step(SessionEvent::Submitted(accepted))
            }
            SessionAction::Finalize => {
                out.finish_calls += 1;
                session.step(SessionEvent::Finalized)
            }
            SessionAction::Exit => break,
            SessionAction::Ignore => panic!("the driver sent an event out of turn"),
        };
    }
    out.frames_submitted = session.frames_submitted();
    out.phase = session.phase();
    out
}

#[test]
fn not_ready_polls_then_three_frames() {
    let mut polls = vec![PollOutcome::NotReady; 10];
    polls.extend([PollOutcome::Ready, PollOutcome::Ready, PollOutcome::Ready]);
    let out = simulate(30, &polls, &[], false);
    assert_eq!(out.send_times.len(), 3);
    for w in out.send_times.windows(2) {
        assert!(w[1] - w[0] >= 33_333);
    }
    assert_eq!(out.finish_calls, 1);
    assert_eq!(out.frames_submitted, 3);
    assert_eq!(out.phase, SessionPhase::Stopped);
}

#[test]
fn refused_second_frame_ends_the_loop() {
    let polls = vec![PollOutcome::Ready; 6];
    let out = simulate(30, &polls, &[true, false, true], false);
    assert_eq!(out.send_times.len(), 2);
    assert_eq!(out.finish_calls, 1);
    assert_eq!(out.frames_submitted, 1);
    assert_eq!(out.phase, SessionPhase::Stopped);
}

#[test]
fn stop_before_first_iteration_submits_nothing() {
    let polls = vec![PollOutcome::Ready; 4];
    let out = simulate(30, &polls, &[], true);
    assert!(out.send_times.is_empty());
    assert_eq!(out.finish_calls, 1);
    assert_eq!(out.frames_submitted, 0);
    assert_eq!(out.phase, SessionPhase::Stopped);
}

#[test]
fn capture_failure_still_finalizes_once() {
    let polls = [PollOutcome::Ready, PollOutcome::NotReady, PollOutcome::Failed, PollOutcome::Ready];
    let out = simulate(60, &polls, &[], false);
    assert_eq!(out.send_times.len(), 1);
    assert_eq!(out.finish_calls, 1);
    assert_eq!(out.phase, SessionPhase::Stopped);
}

#[test]
fn finalize_once_on_every_exit_path() {
    let ready = vec![PollOutcome::Ready; 3];
    assert_eq!(simulate(30, &ready, &[], false).finish_calls, 1);
    assert_eq!(simulate(30, &ready, &[false], false).finish_calls, 1);
    assert_eq!(simulate(30, &ready, &[], true).finish_calls, 1);
    assert_eq!(simulate(30, &[PollOutcome::Failed], &[], false).finish_calls, 1);
    assert_eq!(simulate(30, &[], &[], false).finish_calls, 1);
}

#[test]
fn submissions_are_paced_one_interval_apart() {
    let polls = vec![PollOutcome::Ready; 5];
    let out = simulate(50, &polls, &[], false);
    assert_eq!(out.send_times, vec![20_000, 40_000, 60_000, 80_000, 100_000]);
}

#[test]
fn slow_work_gets_no_wait() {
    let config = RecorderConfig::new("slow.mp4".to_string(), 100, None);
    let mut s = RecordingSession::new(&config);
    assert_eq!(s.step(SessionEvent::Started { now_micros: 1_000 }), SessionAction::CheckStop);
    assert_eq!(
        s.step(SessionEvent::Tick { stop_requested: false, now_micros: 50_000 }),
        SessionAction::Wait { micros: 0 }
    );
    assert_eq!(s.step(SessionEvent::Woke { now_micros: 50_000 }), SessionAction::Poll);
    assert_eq!(s.step(SessionEvent::Polled(PollOutcome::NotReady)), SessionAction::CheckStop);
    assert_eq!(
        s.step(SessionEvent::Tick { stop_requested: false, now_micros: 52_000 }),
        SessionAction::Wait { micros: 8_000 }
    );
}

#[test]
fn events_out_of_turn_are_ignored() {
    let config = RecorderConfig::new("x.mp4".to_string(), 30, None);
    let mut s = RecordingSession::new(&config);
    assert_eq!(s.phase(), SessionPhase::Idle);
    assert_eq!(s.step(SessionEvent::Finalized), SessionAction::Ignore);
    assert_eq!(s.step(SessionEvent::Polled(PollOutcome::Ready)), SessionAction::Ignore);
    assert_eq!(s.step(SessionEvent::Started { now_micros: 0 }), SessionAction::CheckStop);
    assert_eq!(s.phase(), SessionPhase::Running);
    assert_eq!(s.step(SessionEvent::Submitted(true)), SessionAction::Ignore);
    assert_eq!(s.step(SessionEvent::Started { now_micros: 5 }), SessionAction::Ignore);
    assert_eq!(s.frames_submitted(), 0);
}
