use vstd::prelude::*;

verus! {

/// Pause between two checks of whether the encoder process has exited.
pub const SHUTDOWN_POLL_INTERVAL_MILLIS: u64 = 100;

/// Checks of the exit status, after the first, before the process is killed.
pub const SHUTDOWN_MAX_POLLS: u32 = 40;

/// Where the shutdown of an encoder process stands.
#[derive(Clone, Copy, PartialEq, Eq, Structural, Debug)]
pub enum ShutdownPhase {
    /// Nothing has been done yet.
    NotStarted,
    /// End of input and a termination request have been sent; waiting.
    AwaitingExit,
    /// The process has been told to die and is being waited for.
    Killing,
    /// The process has exited.
    Done,
}

/// What the owner of the process reports back.
#[derive(Clone, Copy, PartialEq, Eq, Structural, Debug)]
pub enum ShutdownEvent {
    /// Shutdown is asked for.
    Begin,
    /// The exit status was checked.
    Polled { exited: bool },
    /// The forced kill has been sent and the process reaped.
    Killed,
}

/// What the owner of the process must do next.
#[derive(Clone, Copy, PartialEq, Eq, Structural, Debug)]
pub enum ShutdownAction {
    /// Close the process's input, ask it to terminate, and check its exit
    /// status.
    CloseAndTerminate,
    /// Sleep this long, then check the exit status again.
    WaitAndPoll { millis: u64 },
    /// Kill the process and wait for it.
    ForceKill,
    /// The process is gone.
    Finished,
    /// The event does not fit the state; nothing changed.
    Ignore,
}

/// The state of one escalating shutdown.
#[derive(Clone, Copy, PartialEq, Eq, Structural, Debug)]
pub struct ShutdownState {
    pub phase: ShutdownPhase,
    /// Waits spent so far.
    pub polls: u32,
    /// Waits allowed before the process is killed.
    pub max_polls: u32,
}

/// The transition of a shutdown on one event, and the action it asks for.
pub open spec fn shutdown_next(s: ShutdownState, e: ShutdownEvent) -> (
    ShutdownState,
    ShutdownAction,
) {
    match (s.phase, e) {
        (ShutdownPhase::NotStarted, ShutdownEvent::Begin) => (
            ShutdownState { phase: ShutdownPhase::AwaitingExit, ..s },
            ShutdownAction::CloseAndTerminate,
        ),
        (ShutdownPhase::AwaitingExit, ShutdownEvent::Polled { exited }) => {
            if exited {
                (ShutdownState { phase: ShutdownPhase::Done, ..s }, ShutdownAction::Finished)
            } else if s.polls < s.max_polls {
                (
                    ShutdownState { polls: (s.polls + 1) as u32, ..s },
                    ShutdownAction::WaitAndPoll { millis: SHUTDOWN_POLL_INTERVAL_MILLIS },
                )
            } else {
                (ShutdownState { phase: ShutdownPhase::Killing, ..s }, ShutdownAction::ForceKill)
            }
        },
        (ShutdownPhase::Killing, ShutdownEvent::Killed) => (
            ShutdownState { phase: ShutdownPhase::Done, ..s },
            ShutdownAction::Finished,
        ),
        _ => (s, ShutdownAction::Ignore),
    }
}

/// A shutdown not yet begun, allowing `max_polls` waits.
pub open spec fn shutdown_initial(max_polls: u32) -> ShutdownState {
    ShutdownState { phase: ShutdownPhase::NotStarted, polls: 0, max_polls }
}

/// The state after a run of events, and the actions asked for on the way.
pub open spec fn shutdown_run(s: ShutdownState, events: Seq<ShutdownEvent>) -> (
    ShutdownState,
    Seq<ShutdownAction>,
)
    decreases events.len(),
{
    if events.len() == 0 {
        (s, Seq::empty())
    } else {
        let (before, acts) = shutdown_run(s, events.drop_last());
        let (after, act) = shutdown_next(before, events.last());
        (after, acts.push(act))
    }
}

/// How many of `acts` are waits.
pub open spec fn count_waits(acts: Seq<ShutdownAction>) -> nat
    decreases acts.len(),
{
    if acts.len() == 0 {
        0
    } else {
        count_waits(acts.drop_last()) + if acts.last() is WaitAndPoll {
            1nat
        } else {
            0nat
        }
    }
}

/// Shutdown begun, then `n` checks that find the process still running.
pub open spec fn unresponsive(n: nat) -> Seq<ShutdownEvent> {
    seq![ShutdownEvent::Begin] + Seq::new(n, |_i: int| ShutdownEvent::Polled { exited: false })
}

/// Drives the shutdown of an encoder process: a termination request, a
/// bounded number of timed checks, then a forced kill.
pub struct Shutdown {
    state: ShutdownState,
}

impl View for Shutdown {
    type V = ShutdownState;

    closed spec fn view(&self) -> ShutdownState {
        self.state
    }
}

impl Shutdown {
    /// A shutdown not yet begun, allowing `SHUTDOWN_MAX_POLLS` waits.
    pub fn new() -> (r: Self)
        ensures
            r@ == shutdown_initial(SHUTDOWN_MAX_POLLS),
    {
        Shutdown { state: ShutdownState { phase: ShutdownPhase::NotStarted, polls: 0, max_polls: SHUTDOWN_MAX_POLLS } }
    }

    /// Takes one event and returns the action that it calls for.
    pub fn step(&mut self, event: ShutdownEvent) -> (r: ShutdownAction)
        ensures
            (final(self)@, r) == shutdown_next(old(self)@, event),
    {
        let s = self.state;
        match (s.phase, event) {
            (ShutdownPhase::NotStarted, ShutdownEvent::Begin) => {
                self.state = ShutdownState { phase: ShutdownPhase::AwaitingExit, ..s };
                ShutdownAction::CloseAndTerminate
            },
            (ShutdownPhase::AwaitingExit, ShutdownEvent::Polled { exited }) => {
                if exited {
                    self.state = ShutdownState { phase: ShutdownPhase::Done, ..s };
                    ShutdownAction::Finished
                } else if s.polls < s.max_polls {
                    self.state = ShutdownState { polls: s.polls + 1, ..s };
                    ShutdownAction::WaitAndPoll { millis: SHUTDOWN_POLL_INTERVAL_MILLIS }
                } else {
                    self.state = ShutdownState { phase: ShutdownPhase::Killing, ..s };
                    ShutdownAction::ForceKill
                }
            },
            (ShutdownPhase::Killing, ShutdownEvent::Killed) => {
                self.state = ShutdownState { phase: ShutdownPhase::Done, ..s };
                ShutdownAction::Finished
            },
            _ => ShutdownAction::Ignore,
        }
    }

    pub fn phase(&self) -> (r: ShutdownPhase)
        ensures
            r == self@.phase,
    {
        self.state.phase
    }
}

/// Counting waits over one more action.
proof fn lemma_count_waits_push(x: Seq<ShutdownAction>, y: ShutdownAction)
    ensures
        count_waits(x.push(y)) == count_waits(x) + if y is WaitAndPoll {
            1nat
        } else {
            0nat
        },
{
    assert(x.push(y).drop_last() =~= x);
}

/// However the checks turn out, a shutdown never waits more than
/// `max_polls` times: the time it takes is bounded by the poll window plus
/// one forced kill.
pub proof fn lemma_shutdown_bounded(max_polls: u32, events: Seq<ShutdownEvent>)
    ensures
        count_waits(shutdown_run(shutdown_initial(max_polls), events).1)
            == shutdown_run(shutdown_initial(max_polls), events).0.polls,
        shutdown_run(shutdown_initial(max_polls), events).0.polls <= max_polls,
        shutdown_run(shutdown_initial(max_polls), events).0.max_polls == max_polls,
    decreases events.len(),
{
    if events.len() > 0 {
        lemma_shutdown_bounded(max_polls, events.drop_last());
        let (before, acts) = shutdown_run(shutdown_initial(max_polls), events.drop_last());
        lemma_count_waits_push(acts, shutdown_next(before, events.last()).1);
    }
}

/// A process that never exits by itself gets `max_polls` waits, then the
/// check after the last wait asks for the forced kill.
pub proof fn lemma_unresponsive_is_killed(max_polls: u32)
    ensures
        ({
            let (s, acts) = shutdown_run(
                shutdown_initial(max_polls),
                unresponsive(max_polls as nat + 1),
            );
            &&& acts.last() == ShutdownAction::ForceKill
            &&& s.phase == ShutdownPhase::Killing
            &&& count_waits(acts) == max_polls
        }),
{
    lemma_unresponsive_prefix(max_polls, max_polls as nat);
    let n = max_polls as nat + 1;
    assert(unresponsive(n).drop_last() =~= unresponsive(max_polls as nat));
    let (before, acts) = shutdown_run(shutdown_initial(max_polls), unresponsive(max_polls as nat));
    lemma_count_waits_push(acts, ShutdownAction::ForceKill);
}

/// After `k` checks that find the process running, with `k` at most
/// `max_polls`, the shutdown is still waiting and has waited `k` times.
proof fn lemma_unresponsive_prefix(max_polls: u32, k: nat)
    requires
        k <= max_polls,
    ensures
        shutdown_run(shutdown_initial(max_polls), unresponsive(k)).0 == (ShutdownState {
            phase: ShutdownPhase::AwaitingExit,
            polls: k as u32,
            max_polls,
        }),
        count_waits(shutdown_run(shutdown_initial(max_polls), unresponsive(k)).1) == k,
    decreases k,
{
    let s0 = shutdown_initial(max_polls);
    if k == 0 {
        let ev = unresponsive(0);
        assert(ev =~= seq![ShutdownEvent::Begin]);
        assert(ev.drop_last() =~= Seq::<ShutdownEvent>::empty());
        assert(shutdown_run(s0, Seq::<ShutdownEvent>::empty()) == (
            s0,
            Seq::<ShutdownAction>::empty(),
        ));
        lemma_count_waits_push(Seq::empty(), ShutdownAction::CloseAndTerminate);
    } else {
        lemma_unresponsive_prefix(max_polls, (k - 1) as nat);
        assert(unresponsive(k).drop_last() =~= unresponsive((k - 1) as nat));
        let (before, acts) = shutdown_run(s0, unresponsive((k - 1) as nat));
        lemma_count_waits_push(acts, shutdown_next(before, unresponsive(k).last()).1);
    }
}

} // verus!
