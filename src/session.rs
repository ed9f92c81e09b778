use vstd::prelude::*;
use crate::config::RecorderConfig;
use crate::pacing::{Pacer, delay_of, interval_of, lemma_pacing_spacing};

verus! {

/// Lifecycle of a recording session. A session is used once.
#[derive(Clone, Copy, PartialEq, Eq, Structural, Debug)]
pub enum SessionPhase {
    Idle,
    Running,
    Draining,
    Stopped,
}

/// What a running session waits for next within one loop iteration.
#[derive(Clone, Copy, PartialEq, Eq, Structural, Debug)]
pub enum LoopStep {
    /// The top of an iteration: the stop flag and the clock.
    AwaitTick,
    /// The end of the pacing wait.
    AwaitWake,
    /// The outcome of polling the frame source.
    AwaitPoll,
    /// The outcome of handing a frame to the encoder sink.
    AwaitSubmit,
}

/// Outcome of one poll of the frame source.
#[derive(Clone, Copy, PartialEq, Eq, Structural, Debug)]
pub enum PollOutcome {
    /// A frame is ready.
    Ready,
    /// No new frame yet; retry on a later iteration.
    NotReady,
    /// The capture capability failed for good.
    Failed,
}

/// What the driver of a session reports back.
#[derive(Clone, Copy, PartialEq, Eq, Structural, Debug)]
pub enum SessionEvent {
    /// Frame source and encoder sink are open; the clock reads `now_micros`.
    Started { now_micros: u64 },
    /// Top of an iteration: whether a stop was requested, and the clock.
    Tick { stop_requested: bool, now_micros: u64 },
    /// The pacing wait is over; the clock reads `now_micros`.
    Woke { now_micros: u64 },
    /// The frame source was polled.
    Polled(PollOutcome),
    /// The sink took the frame (`true`) or refused it (`false`).
    Submitted(bool),
    /// The sink has been finalized.
    Finalized,
}

/// What the driver of a session must do next.
#[derive(Clone, Copy, PartialEq, Eq, Structural, Debug)]
pub enum SessionAction {
    /// Read the stop flag and the clock, and report `Tick`.
    CheckStop,
    /// Sleep this long, then report `Woke`.
    Wait { micros: u64 },
    /// Poll the frame source and report `Polled`.
    Poll,
    /// Convert the frame, hand it to the sink, and report `Submitted`.
    Submit,
    /// Finalize the sink and report `Finalized`.
    Finalize,
    /// The session is over.
    Exit,
    /// The event does not fit the session's state; nothing changed.
    Ignore,
}

/// The whole state of a session.
#[derive(Clone, Copy, PartialEq, Eq, Structural)]
pub struct SessionState {
    pub phase: SessionPhase,
    pub step: LoopStep,
    pub pacer: Pacer,
    pub frames_submitted: u64,
}

/// Frame count after one more accepted frame; it stays put at the top of
/// its range.
pub open spec fn count_up(n: u64) -> u64 {
    if n < u64::MAX {
        (n + 1) as u64
    } else {
        n
    }
}

/// The transition of a session on one event, and the action it asks for.
pub open spec fn next(s: SessionState, e: SessionEvent) -> (SessionState, SessionAction) {
    match (s.phase, e) {
        (SessionPhase::Idle, SessionEvent::Started { now_micros }) => (
            SessionState {
                phase: SessionPhase::Running,
                step: LoopStep::AwaitTick,
                pacer: Pacer { last_emission_micros: now_micros, ..s.pacer },
                ..s
            },
            SessionAction::CheckStop,
        ),
        (SessionPhase::Running, SessionEvent::Tick { stop_requested, now_micros }) if s.step
            == LoopStep::AwaitTick => {
            if stop_requested {
                (SessionState { phase: SessionPhase::Draining, ..s }, SessionAction::Finalize)
            } else {
                (
                    SessionState { step: LoopStep::AwaitWake, ..s },
                    SessionAction::Wait {
                        micros: delay_of(
                            s.pacer.interval_micros,
                            s.pacer.last_emission_micros,
                            now_micros,
                        ) as u64,
                    },
                )
            }
        },
        (SessionPhase::Running, SessionEvent::Woke { now_micros }) if s.step
            == LoopStep::AwaitWake => (
            SessionState {
                step: LoopStep::AwaitPoll,
                pacer: Pacer { last_emission_micros: now_micros, ..s.pacer },
                ..s
            },
            SessionAction::Poll,
        ),
        (SessionPhase::Running, SessionEvent::Polled(outcome)) if s.step
            == LoopStep::AwaitPoll => match outcome {
            PollOutcome::Ready => (
                SessionState { step: LoopStep::AwaitSubmit, ..s },
                SessionAction::Submit,
            ),
            PollOutcome::NotReady => (
                SessionState { step: LoopStep::AwaitTick, ..s },
                SessionAction::CheckStop,
            ),
            PollOutcome::Failed => (
                SessionState { phase: SessionPhase::Draining, ..s },
                SessionAction::Finalize,
            ),
        },
        (SessionPhase::Running, SessionEvent::Submitted(accepted)) if s.step
            == LoopStep::AwaitSubmit => {
            if accepted {
                (
                    SessionState {
                        step: LoopStep::AwaitTick,
                        frames_submitted: count_up(s.frames_submitted),
                        ..s
                    },
                    SessionAction::CheckStop,
                )
            } else {
                (SessionState { phase: SessionPhase::Draining, ..s }, SessionAction::Finalize)
            }
        },
        (SessionPhase::Draining, SessionEvent::Finalized) => (
            SessionState { phase: SessionPhase::Stopped, ..s },
            SessionAction::Exit,
        ),
        _ => (s, SessionAction::Ignore),
    }
}

/// The state of a fresh session whose frame interval is `interval`.
pub open spec fn initial(interval: u64) -> SessionState {
    SessionState {
        phase: SessionPhase::Idle,
        step: LoopStep::AwaitTick,
        pacer: Pacer { interval_micros: interval, last_emission_micros: 0 },
        frames_submitted: 0,
    }
}

/// The state after a run of events, and the actions asked for on the way.
pub open spec fn run(s: SessionState, events: Seq<SessionEvent>) -> (
    SessionState,
    Seq<SessionAction>,
)
    decreases events.len(),
{
    if events.len() == 0 {
        (s, Seq::empty())
    } else {
        let (before, acts) = run(s, events.drop_last());
        let (after, act) = next(before, events.last());
        (after, acts.push(act))
    }
}

/// How many of `acts` are `a`.
pub open spec fn count_of(acts: Seq<SessionAction>, a: SessionAction) -> nat
    decreases acts.len(),
{
    if acts.len() == 0 {
        0
    } else {
        count_of(acts.drop_last(), a) + if acts.last() == a {
            1nat
        } else {
            0nat
        }
    }
}

/// Transition function of a session, as executable code.
pub fn transition(s: SessionState, e: SessionEvent) -> (r: (SessionState, SessionAction))
    ensures
        r == next(s, e),
{
    match (s.phase, e) {
        (SessionPhase::Idle, SessionEvent::Started { now_micros }) => {
            let mut pacer = s.pacer;
            pacer.mark_emission(now_micros);
            (
                SessionState { phase: SessionPhase::Running, step: LoopStep::AwaitTick, pacer, ..s },
                SessionAction::CheckStop,
            )
        },
        (SessionPhase::Running, SessionEvent::Tick { stop_requested, now_micros }) if s.step
            == LoopStep::AwaitTick => {
            if stop_requested {
                (SessionState { phase: SessionPhase::Draining, ..s }, SessionAction::Finalize)
            } else {
                let micros = s.pacer.delay_micros(now_micros);
                (SessionState { step: LoopStep::AwaitWake, ..s }, SessionAction::Wait { micros })
            }
        },
        (SessionPhase::Running, SessionEvent::Woke { now_micros }) if s.step
            == LoopStep::AwaitWake => {
            let mut pacer = s.pacer;
            pacer.mark_emission(now_micros);
            (SessionState { step: LoopStep::AwaitPoll, pacer, ..s }, SessionAction::Poll)
        },
        (SessionPhase::Running, SessionEvent::Polled(outcome)) if s.step
            == LoopStep::AwaitPoll => match outcome {
            PollOutcome::Ready => (
                SessionState { step: LoopStep::AwaitSubmit, ..s },
                SessionAction::Submit,
            ),
            PollOutcome::NotReady => (
                SessionState { step: LoopStep::AwaitTick, ..s },
                SessionAction::CheckStop,
            ),
            PollOutcome::Failed => (
                SessionState { phase: SessionPhase::Draining, ..s },
                SessionAction::Finalize,
            ),
        },
        (SessionPhase::Running, SessionEvent::Submitted(accepted)) if s.step
            == LoopStep::AwaitSubmit => {
            if accepted {
                let frames_submitted = if s.frames_submitted < u64::MAX {
                    s.frames_submitted + 1
                } else {
                    s.frames_submitted
                };
                (
                    SessionState { step: LoopStep::AwaitTick, frames_submitted, ..s },
                    SessionAction::CheckStop,
                )
            } else {
                (SessionState { phase: SessionPhase::Draining, ..s }, SessionAction::Finalize)
            }
        },
        (SessionPhase::Draining, SessionEvent::Finalized) => (
            SessionState { phase: SessionPhase::Stopped, ..s },
            SessionAction::Exit,
        ),
        _ => (s, SessionAction::Ignore),
    }
}

/// A recording session: decides, event by event, what its driver does next.
pub struct RecordingSession {
    state: SessionState,
}

impl View for RecordingSession {
    type V = SessionState;

    closed spec fn view(&self) -> SessionState {
        self.state
    }
}

impl RecordingSession {
    /// A fresh, idle session paced at the configuration's frame rate.
    pub fn new(config: &RecorderConfig) -> (r: Self)
        requires
            config.wf(),
        ensures
            r@ == initial(interval_of(config.fps as nat) as u64),
    {
        let pacer = Pacer::new(config.fps, 0);
        RecordingSession {
            state: SessionState {
                phase: SessionPhase::Idle,
                step: LoopStep::AwaitTick,
                pacer,
                frames_submitted: 0,
            },
        }
    }

    /// Takes one event and returns the action that it calls for.
    pub fn step(&mut self, event: SessionEvent) -> (r: SessionAction)
        ensures
            (final(self)@, r) == next(old(self)@, event),
    {
        let (s, a) = transition(self.state, event);
        self.state = s;
        a
    }

    pub fn phase(&self) -> (r: SessionPhase)
        ensures
            r == self@.phase,
    {
        self.state.phase
    }

    /// Frames that the sink has accepted so far.
    pub fn frames_submitted(&self) -> (r: u64)
        ensures
            r == self@.frames_submitted,
    {
        self.state.frames_submitted
    }
}

/// The loop has ended: the sink is being, or has been, finalized.
pub open spec fn is_winding_down(s: SessionState) -> bool {
    s.phase == SessionPhase::Draining || s.phase == SessionPhase::Stopped
}

/// Running a session over `a` then `b` is running it over `a + b`.
pub proof fn lemma_run_append(s: SessionState, a: Seq<SessionEvent>, b: Seq<SessionEvent>)
    ensures
        run(s, a + b).0 == run(run(s, a).0, b).0,
        run(s, a + b).1 == run(s, a).1 + run(run(s, a).0, b).1,
    decreases b.len(),
{
    if b.len() == 0 {
        assert(a + b =~= a);
        assert(run(s, a).1 + run(run(s, a).0, b).1 =~= run(s, a).1);
    } else {
        assert((a + b).drop_last() =~= a + b.drop_last());
        assert((a + b).last() == b.last());
        lemma_run_append(s, a, b.drop_last());
        let mid = run(s, a).0;
        assert(run(s, a).1 + run(mid, b).1 =~= (run(s, a).1 + run(mid, b.drop_last()).1).push(
            next(run(mid, b.drop_last()).0, b.last()).1,
        ));
    }
}

/// Counting over a concatenation adds the counts.
pub proof fn lemma_count_append(x: Seq<SessionAction>, y: Seq<SessionAction>, a: SessionAction)
    ensures
        count_of(x + y, a) == count_of(x, a) + count_of(y, a),
    decreases y.len(),
{
    if y.len() == 0 {
        assert(x + y =~= x);
    } else {
        assert((x + y).drop_last() =~= x + y.drop_last());
        lemma_count_append(x, y.drop_last(), a);
    }
}

/// Counting over one more action.
proof fn lemma_count_push(x: Seq<SessionAction>, y: SessionAction, a: SessionAction)
    ensures
        count_of(x.push(y), a) == count_of(x, a) + if y == a {
            1nat
        } else {
            0nat
        },
{
    assert(x.push(y).drop_last() =~= x);
}

/// Running a session over a single event is taking one step.
proof fn lemma_run_one(s: SessionState, e: SessionEvent)
    ensures
        run(s, seq![e]) == (next(s, e).0, seq![next(s, e).1]),
{
    assert(seq![e].drop_last() =~= Seq::<SessionEvent>::empty());
    assert(run(s, Seq::<SessionEvent>::empty()) == (s, Seq::<SessionAction>::empty()));
    assert(Seq::<SessionAction>::empty().push(next(s, e).1) =~= seq![next(s, e).1]);
}

/// One iteration of the loop keeps the pace: when the session is told, at
/// `now`, that no stop was asked for, it asks for a wait; if the driver then
/// reports waking at `woke` no earlier than that wait ends, the new emission
/// follows the last one by at least the frame interval, and by exactly that
/// interval when it woke on time after less than an interval of work.
pub proof fn lemma_iteration_spacing(s: SessionState, now: u64, woke: u64)
    requires
        s.phase == SessionPhase::Running,
        s.step == LoopStep::AwaitTick,
        now >= s.pacer.last_emission_micros,
        ({
            let (_, a) = next(s, SessionEvent::Tick { stop_requested: false, now_micros: now });
            woke >= now + a->Wait_micros
        }),
    ensures
        ({
            let (t, a) = next(s, SessionEvent::Tick { stop_requested: false, now_micros: now });
            let (u, b) = next(t, SessionEvent::Woke { now_micros: woke });
            &&& a is Wait
            &&& b == SessionAction::Poll
            &&& u.pacer.last_emission_micros == woke
            &&& u.pacer.interval_micros == s.pacer.interval_micros
            &&& woke - s.pacer.last_emission_micros >= s.pacer.interval_micros
            &&& (now - s.pacer.last_emission_micros < s.pacer.interval_micros && woke == now
                + a->Wait_micros) ==> woke == s.pacer.last_emission_micros
                + s.pacer.interval_micros
        }),
{
    lemma_pacing_spacing(s.pacer.interval_micros, s.pacer.last_emission_micros, now, woke);
}

/// Once the loop has ended, no event makes the session submit or finalize
/// again, and it never runs again.
pub proof fn lemma_no_submit_after_drain(s: SessionState, events: Seq<SessionEvent>)
    requires
        is_winding_down(s),
    ensures
        is_winding_down(run(s, events).0),
        count_of(run(s, events).1, SessionAction::Submit) == 0,
        count_of(run(s, events).1, SessionAction::Finalize) == 0,
    decreases events.len(),
{
    if events.len() > 0 {
        lemma_no_submit_after_drain(s, events.drop_last());
        let (before, acts) = run(s, events.drop_last());
        let act = next(before, events.last()).1;
        lemma_count_push(acts, act, SessionAction::Submit);
        lemma_count_push(acts, act, SessionAction::Finalize);
    }
}

/// Whatever happens during a session, the sink is finalized at most once,
/// and it has been asked to finalize exactly when the loop has ended, be it
/// by a stop request, a refused frame or a capture failure.
pub proof fn lemma_finalize_once(interval: u64, events: Seq<SessionEvent>)
    ensures
        count_of(run(initial(interval), events).1, SessionAction::Finalize) <= 1,
        count_of(run(initial(interval), events).1, SessionAction::Finalize) == 1
            <==> is_winding_down(run(initial(interval), events).0),
    decreases events.len(),
{
    if events.len() > 0 {
        lemma_finalize_once(interval, events.drop_last());
        let (before, acts) = run(initial(interval), events.drop_last());
        let act = next(before, events.last()).1;
        lemma_count_push(acts, act, SessionAction::Finalize);
    }
}

/// A stop requested before the first iteration ends the session with no
/// frame submitted and the sink finalized once, whatever follows.
pub proof fn lemma_stop_before_first_frame(
    interval: u64,
    start_micros: u64,
    now_micros: u64,
    rest: Seq<SessionEvent>,
)
    ensures
        ({
            let events = seq![
                SessionEvent::Started { now_micros: start_micros },
                SessionEvent::Tick { stop_requested: true, now_micros },
            ] + rest;
            let (s, acts) = run(initial(interval), events);
            &&& count_of(acts, SessionAction::Submit) == 0
            &&& count_of(acts, SessionAction::Finalize) == 1
            &&& s.frames_submitted == 0
            &&& is_winding_down(s)
        }),
{
    let e1 = SessionEvent::Started { now_micros: start_micros };
    let e2 = SessionEvent::Tick { stop_requested: true, now_micros };
    let head = seq![e1, e2];
    let s0 = initial(interval);
    assert(head =~= seq![e1] + seq![e2]);
    lemma_run_one(s0, e1);
    let s1 = next(s0, e1).0;
    lemma_run_one(s1, e2);
    lemma_run_append(s0, seq![e1], seq![e2]);
    let mid = run(s0, head).0;
    let acts = run(s0, head).1;
    assert(acts =~= seq![SessionAction::CheckStop].push(SessionAction::Finalize));
    lemma_count_push(seq![SessionAction::CheckStop], SessionAction::Finalize, SessionAction::Submit);
    lemma_count_push(
        seq![SessionAction::CheckStop],
        SessionAction::Finalize,
        SessionAction::Finalize,
    );
    lemma_count_push(Seq::empty(), SessionAction::CheckStop, SessionAction::Submit);
    lemma_count_push(Seq::empty(), SessionAction::CheckStop, SessionAction::Finalize);
    assert(Seq::<SessionAction>::empty().push(SessionAction::CheckStop) =~= seq![
        SessionAction::CheckStop,
    ]);
    lemma_run_append(s0, head, rest);
    lemma_no_submit_after_drain(mid, rest);
    lemma_count_append(acts, run(mid, rest).1, SessionAction::Submit);
    lemma_count_append(acts, run(mid, rest).1, SessionAction::Finalize);
    lemma_frames_kept_after_drain(mid, rest);
}

/// Once the loop has ended the count of accepted frames stays as it is.
pub proof fn lemma_frames_kept_after_drain(s: SessionState, events: Seq<SessionEvent>)
    requires
        is_winding_down(s),
    ensures
        run(s, events).0.frames_submitted == s.frames_submitted,
    decreases events.len(),
{
    if events.len() > 0 {
        lemma_no_submit_after_drain(s, events.drop_last());
        lemma_frames_kept_after_drain(s, events.drop_last());
    }
}

/// A frame that the sink refuses ends the loop: the session asks at once
/// for the sink to be finalized, and submits nothing more, whatever follows.
pub proof fn lemma_refused_frame_ends_loop(s: SessionState, rest: Seq<SessionEvent>)
    requires
        s.phase == SessionPhase::Running,
        s.step == LoopStep::AwaitSubmit,
    ensures
        ({
            let (t, acts) = run(s, seq![SessionEvent::Submitted(false)] + rest);
            &&& acts[0] == SessionAction::Finalize
            &&& count_of(acts, SessionAction::Submit) == 0
            &&& count_of(acts, SessionAction::Finalize) == 1
            &&& is_winding_down(t)
        }),
{
    let e = SessionEvent::Submitted(false);
    let head = seq![e];
    lemma_run_one(s, e);
    let mid = run(s, head).0;
    let acts = run(s, head).1;
    lemma_count_push(Seq::empty(), SessionAction::Finalize, SessionAction::Submit);
    lemma_count_push(Seq::empty(), SessionAction::Finalize, SessionAction::Finalize);
    assert(Seq::<SessionAction>::empty().push(SessionAction::Finalize) =~= acts);
    lemma_run_append(s, head, rest);
    lemma_no_submit_after_drain(mid, rest);
    lemma_count_append(acts, run(mid, rest).1, SessionAction::Submit);
    lemma_count_append(acts, run(mid, rest).1, SessionAction::Finalize);
}

} // verus!
