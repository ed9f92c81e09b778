use screen_recorder::pacing::{frame_interval_micros, Pacer};
use screen_recorder::shutdown::{
    Shutdown, ShutdownAction, ShutdownEvent, ShutdownPhase, SHUTDOWN_MAX_POLLS,
    SHUTDOWN_POLL_INTERVAL_MILLIS,
};
use screen_recorder::sink::{SinkLifecycle, SinkState};

#[test]
fn frame_interval_values() {
    assert_eq!(frame_interval_micros(30), 33_333);
    assert_eq!(frame_interval_micros(60), 16_666);
    assert_eq!(frame_interval_micros(1), 1_000_000);
    assert_eq!(frame_interval_micros(24), 41_666);
}

#[test]
fn pacer_waits_out_the_rest_of_the_interval() {
    let mut p = Pacer::new(30, 1_000);
    assert_eq!(p.interval_micros, 33_333);
    assert_eq!(p.delay_micros(1_000), 33_333);
    assert_eq!(p.delay_micros(11_000), 23_333);
    assert_eq!(p.delay_micros(34_333), 0);
    assert_eq!(p.delay_micros(90_000), 0);
    assert_eq!(p.delay_micros(500), 33_333);
    p.mark_emission(90_000);
    assert_eq!(p.last_emission_micros, 90_000);
    assert_eq!(p.delay_micros(100_000), 23_333);
}

#[test]
fn pacer_spacing_is_one_interval_when_work_is_short() {
    let mut p = Pacer::new(50, 0);
    let mut now = 0u64;
    let mut emissions = Vec::new();
    for _ in 0..5 {
        now += 3_000; // capture, convert and submit
        now += p.delay_micros(now);
        p.mark_emission(now);
        emissions.push(now);
    }
    for w in emissions.windows(2) {
        assert_eq!(w[1] - w[0], 20_000);
    }
}

#[test]
fn shutdown_of_a_process_that_exits_gracefully() {
    let mut s = Shutdown::new();
    assert_eq!(s.phase(), ShutdownPhase::NotStarted);
    assert_eq!(s.step(ShutdownEvent::Begin), ShutdownAction::CloseAndTerminate);
    assert_eq!(s.step(ShutdownEvent::Begin), ShutdownAction::Ignore);
    for _ in 0..3 {
        assert_eq!(
            s.step(ShutdownEvent::Polled { exited: false }),
            ShutdownAction::WaitAndPoll { millis: 100 }
        );
    }
    assert_eq!(s.step(ShutdownEvent::Polled { exited: true }), ShutdownAction::Finished);
    assert_eq!(s.phase(), ShutdownPhase::Done);
    assert_eq!(s.step(ShutdownEvent::Killed), ShutdownAction::Ignore);
}

#[test]
fn shutdown_kills_a_process_that_never_exits() {
    let mut s = Shutdown::new();
    let mut action = s.step(ShutdownEvent::Begin);
    let mut waited_millis = 0u64;
    let mut kills = 0u32;
    let mut checks = 0u32;
    loop {
        match action {
            ShutdownAction::CloseAndTerminate => {
                checks += 1;
                action = s.step(ShutdownEvent::Polled { exited: false });
            }
            ShutdownAction::WaitAndPoll { millis } => {
                waited_millis += millis;
                checks += 1;
                action = s.step(ShutdownEvent::Polled { exited: false });
            }
            ShutdownAction::ForceKill => {
                kills += 1;
                action = s.step(ShutdownEvent::Killed);
            }
            ShutdownAction::Finished => break,
            ShutdownAction::Ignore => panic!("unexpected event"),
        }
        assert!(checks <= SHUTDOWN_MAX_POLLS + 1);
    }
    assert_eq!(kills, 1);
    assert_eq!(checks, 41);
    assert_eq!(waited_millis, 4_000);
    assert_eq!(
        waited_millis,
        SHUTDOWN_MAX_POLLS as u64 * SHUTDOWN_POLL_INTERVAL_MILLIS
    );
    assert_eq!(s.phase(), ShutdownPhase::Done);
}

#[test]
fn sink_stamps_increasing_timestamps_until_drained() {
    let mut s = SinkLifecycle::new();
    assert_eq!(s.state(), SinkState::NotStarted);
    assert_eq!(s.stamp_frame(), None);
    assert!(!s.needs_finalize());
    assert!(s.opened());
    assert!(!s.opened());
    assert!(s.needs_finalize());
    assert_eq!(s.stamp_frame(), Some(0));
    assert_eq!(s.stamp_frame(), Some(1));
    assert_eq!(s.stamp_frame(), Some(2));
    assert!(s.begin_drain());
    assert!(!s.begin_drain());
    assert_eq!(s.state(), SinkState::Draining);
    assert_eq!(s.stamp_frame(), None);
    assert!(s.needs_finalize());
    assert!(s.mark_finalized());
    assert!(!s.mark_finalized());
    assert!(!s.needs_finalize());
    assert_eq!(s.stamp_frame(), None);
    assert_eq!(s.state(), SinkState::Finalized);
}

#[test]
fn sink_finalize_needs_a_drain_first() {
    let mut s = SinkLifecycle::new();
    assert!(!s.mark_finalized());
    assert!(!s.begin_drain());
    assert!(s.opened());
    assert!(!s.mark_finalized());
    assert_eq!(s.state(), SinkState::Running);
}
