use vstd::prelude::*;

verus! {

/// Lifecycle of an encoder sink.
#[derive(Clone, Copy, PartialEq, Eq, Structural, Debug)]
pub enum SinkState {
    NotStarted,
    Running,
    /// End of stream has been signalled; buffered output is being flushed.
    Draining,
    /// The container trailer has been written.
    Finalized,
}

/// State of a sink's lifecycle, with the timestamp of its next frame in
/// encoder time-base units.
#[derive(Clone, Copy, PartialEq, Eq, Structural, Debug)]
pub struct SinkModel {
    pub state: SinkState,
    pub next_pts: i64,
}

/// Guards an encoder sink: which calls are allowed when, and the timestamp
/// that each submitted frame carries.
pub struct SinkLifecycle {
    model: SinkModel,
}

impl View for SinkLifecycle {
    type V = SinkModel;

    closed spec fn view(&self) -> SinkModel {
        self.model
    }
}

/// The sink still owes its output a finalization.
pub open spec fn owes_finalize(m: SinkModel) -> bool {
    m.state == SinkState::Running || m.state == SinkState::Draining
}

/// Stamping one frame: a running sink hands out its next timestamp and
/// moves one tick on; otherwise no frame may be submitted.
pub open spec fn stamp(m: SinkModel) -> (SinkModel, Option<i64>) {
    if m.state == SinkState::Running && m.next_pts < i64::MAX {
        (SinkModel { next_pts: (m.next_pts + 1) as i64, ..m }, Some(m.next_pts))
    } else {
        (m, None)
    }
}

impl SinkLifecycle {
    /// A sink not yet opened, whose first frame will carry timestamp zero.
    pub fn new() -> (r: Self)
        ensures
            r@ == (SinkModel { state: SinkState::NotStarted, next_pts: 0 }),
    {
        SinkLifecycle { model: SinkModel { state: SinkState::NotStarted, next_pts: 0 } }
    }

    /// Records a successful open; only a sink not yet started can open.
    pub fn opened(&mut self) -> (r: bool)
        ensures
            r == (old(self)@.state == SinkState::NotStarted),
            final(self)@ == if r {
                SinkModel { state: SinkState::Running, ..old(self)@ }
            } else {
                old(self)@
            },
    {
        if self.model.state == SinkState::NotStarted {
            self.model.state = SinkState::Running;
            true
        } else {
            false
        }
    }

    /// The timestamp for the next frame, or `None` when no frame may be
    /// submitted.
    pub fn stamp_frame(&mut self) -> (r: Option<i64>)
        ensures
            (final(self)@, r) == stamp(old(self)@),
    {
        if self.model.state == SinkState::Running && self.model.next_pts < i64::MAX {
            let pts = self.model.next_pts;
            self.model.next_pts = pts + 1;
            Some(pts)
        } else {
            None
        }
    }

    /// Records the end-of-stream signal; only a running sink starts to drain.
    pub fn begin_drain(&mut self) -> (r: bool)
        ensures
            r == (old(self)@.state == SinkState::Running),
            final(self)@ == if r {
                SinkModel { state: SinkState::Draining, ..old(self)@ }
            } else {
                old(self)@
            },
    {
        if self.model.state == SinkState::Running {
            self.model.state = SinkState::Draining;
            true
        } else {
            false
        }
    }

    /// Records the written trailer; only a draining sink is finalized.
    pub fn mark_finalized(&mut self) -> (r: bool)
        ensures
            r == (old(self)@.state == SinkState::Draining),
            final(self)@ == if r {
                SinkModel { state: SinkState::Finalized, ..old(self)@ }
            } else {
                old(self)@
            },
    {
        if self.model.state == SinkState::Draining {
            self.model.state = SinkState::Finalized;
            true
        } else {
            false
        }
    }

    /// Whether teardown must still drain and finalize the sink.
    pub fn needs_finalize(&self) -> (r: bool)
        ensures
            r == owes_finalize(self@),
    {
        self.model.state == SinkState::Running || self.model.state == SinkState::Draining
    }

    pub fn state(&self) -> (r: SinkState)
        ensures
            r == self@.state,
    {
        self.model.state
    }
}

/// Timestamps of frames submitted one after another increase by exactly one
/// tick.
pub proof fn lemma_pts_increase(m: SinkModel)
    requires
        stamp(m).1 is Some,
        stamp(stamp(m).0).1 is Some,
    ensures
        stamp(stamp(m).0).1->Some_0 == stamp(m).1->Some_0 + 1,
{
}

/// Once draining has begun, no frame can be stamped, however often it is
/// asked.
pub proof fn lemma_no_frames_after_drain(m: SinkModel)
    requires
        m.state == SinkState::Draining || m.state == SinkState::Finalized,
    ensures
        stamp(m) == (m, Option::<i64>::None),
{
}

} // verus!
