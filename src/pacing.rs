use vstd::prelude::*;

verus! {

/// Microseconds in one second.
pub const MICROS_PER_SECOND: u64 = 1_000_000;

/// Target time between two frame emissions at `fps` frames per second.
pub open spec fn interval_of(fps: nat) -> nat
    recommends
        fps > 0,
{
    1_000_000nat / fps
}

/// Time since `last`, on a clock that is read as microseconds; a reading
/// older than `last` counts as no time at all.
pub open spec fn elapsed_since(last: u64, now: u64) -> nat {
    if now >= last {
        (now - last) as nat
    } else {
        0
    }
}

/// How long to wait at `now` so that an emission follows `last` by at
/// least `interval`.
pub open spec fn delay_of(interval: u64, last: u64, now: u64) -> nat {
    if elapsed_since(last, now) < interval {
        (interval - elapsed_since(last, now)) as nat
    } else {
        0
    }
}

/// The frame interval in microseconds for a positive frame rate.
pub fn frame_interval_micros(fps: u32) -> (r: u64)
    requires
        fps > 0,
    ensures
        r == interval_of(fps as nat),
{
    MICROS_PER_SECOND / (fps as u64)
}

/// Keeps emissions at most one per frame interval. Times are microseconds of
/// a monotonic clock.
#[derive(Clone, Copy, PartialEq, Eq, Structural)]
pub struct Pacer {
    pub interval_micros: u64,
    pub last_emission_micros: u64,
}

impl Pacer {
    /// A pacer for `fps` whose last emission is taken to be `start_micros`.
    pub fn new(fps: u32, start_micros: u64) -> (r: Self)
        requires
            fps > 0,
        ensures
            r.interval_micros == interval_of(fps as nat),
            r.last_emission_micros == start_micros,
    {
        Pacer { interval_micros: frame_interval_micros(fps), last_emission_micros: start_micros }
    }

    /// The wait, at `now_micros`, before the next emission is due.
    pub fn delay_micros(&self, now_micros: u64) -> (r: u64)
        ensures
            r == delay_of(self.interval_micros, self.last_emission_micros, now_micros),
    {
        let elapsed: u64 = if now_micros >= self.last_emission_micros {
            now_micros - self.last_emission_micros
        } else {
            0
        };
        if elapsed < self.interval_micros {
            self.interval_micros - elapsed
        } else {
            0
        }
    }

    /// Records an emission at `now_micros`, whether or not a frame came of it.
    pub fn mark_emission(&mut self, now_micros: u64)
        ensures
            final(self).interval_micros == old(self).interval_micros,
            final(self).last_emission_micros == now_micros,
    {
        self.last_emission_micros = now_micros;
    }
}

/// Emissions are spaced by at least the frame interval: after waiting the
/// delay that the pacer gives at `now`, the next emission at `next` lies a
/// whole interval or more after the last one. When the work since the last
/// emission took less than an interval, the wait ends exactly one interval
/// after it, so no drift accumulates.
pub proof fn lemma_pacing_spacing(interval: u64, last: u64, now: u64, next: u64)
    requires
        now >= last,
        next >= now + delay_of(interval, last, now),
    ensures
        next - last >= interval,
        now - last < interval ==> now + delay_of(interval, last, now) == last + interval,
        now - last >= interval ==> delay_of(interval, last, now) == 0,
{
}

} // verus!
