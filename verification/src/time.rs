//! Simulation frames and the fixed-tick gate.

use std::time::{Duration, Instant};
use vstd::prelude::*;

verus! {

/// The number of a simulation tick.
pub type GameFrame = usize;

/// Nanoseconds in one second.
pub const NANOS_PER_SECOND: u64 = 1_000_000_000;

/// A point in time as the machine's monotonic clock gives it.
#[verifier::external_type_specification]
#[verifier::external_body]
pub struct ExInstant(Instant);

/// Reads the monotonic clock: `Instant::now`. Nothing is claimed of the
/// point in time that comes back.
#[verifier::external_body]
fn clock_now() -> (now: Instant) {
    Instant::now()
}

/// The time from `earlier` to `later`, zero where `later` is the earlier
/// of the two: `Instant::saturating_duration_since`. Nothing is claimed of
/// the length that comes back.
#[verifier::external_body]
fn time_between(later: &Instant, earlier: &Instant) -> (elapsed: Duration) {
    later.saturating_duration_since(*earlier)
}

/// The whole nanoseconds of a length of time: `Duration::as_nanos`.
/// Nothing is claimed of the number that comes back.
#[verifier::external_body]
fn whole_nanos(elapsed: &Duration) -> (nanos: u128) {
    elapsed.as_nanos()
}

/// Length of one tick at `hz` ticks per second, in whole nanoseconds.
pub open spec fn tick_period(hz: u32) -> int
    recommends
        hz > 0,
{
    NANOS_PER_SECOND as int / hz as int
}

/// The time held by a gate after `elapsed` more nanoseconds, saturating.
pub open spec fn gate_filled(accumulated: u64, elapsed: u64) -> int {
    if accumulated + elapsed > u64::MAX {
        u64::MAX as int
    } else {
        accumulated + elapsed
    }
}

/// Whether a gate that runs at `hz` and holds `accumulated` nanoseconds
/// lets a tick through after `elapsed` more: the rate is not zero and the
/// time held reaches one tick.
pub open spec fn gate_due(hz: u32, accumulated: u64, elapsed: u64) -> bool {
    hz > 0 && gate_filled(accumulated, elapsed) >= tick_period(hz)
}

/// The time that such a gate holds afterwards: one tick less where a tick
/// was let through, however many ticks' worth it held.
pub open spec fn gate_left(hz: u32, accumulated: u64, elapsed: u64) -> int {
    if gate_due(hz, accumulated, elapsed) {
        gate_filled(accumulated, elapsed) - tick_period(hz)
    } else {
        gate_filled(accumulated, elapsed)
    }
}

/// The accumulator that turns elapsed time into ticks of a fixed length.
///
/// A gate that runs at zero ticks per second never lets a tick through.
#[derive(Clone, Copy, Debug, PartialEq, Eq, Structural)]
pub struct TickGate {
    pub hz: u32,
    pub accumulated: u64,
}

impl TickGate {
    /// A gate that runs at `hz` ticks per second and holds no time.
    pub fn new(hz: u32) -> (g: TickGate)
        ensures
            g.hz == hz,
            g.accumulated == 0,
    {
        TickGate { hz, accumulated: 0 }
    }

    /// Length of one tick in whole nanoseconds; `None` for a rate of zero.
    pub fn period(&self) -> (p: Option<u64>)
        ensures
            self.hz == 0 ==> p is None,
            self.hz > 0 ==> p == Some(tick_period(self.hz) as u64) && tick_period(self.hz)
                <= NANOS_PER_SECOND,
    {
        if self.hz == 0 {
            None
        } else {
            let hz: u64 = self.hz as u64;
            assert(NANOS_PER_SECOND as int / hz as int <= NANOS_PER_SECOND) by (nonlinear_arith)
                requires
                    hz > 0,
            ;
            Some(NANOS_PER_SECOND / hz)
        }
    }

    /// Adds `elapsed` nanoseconds to the time held and says whether a tick
    /// is due. At most one tick is let through per call; what is left of
    /// the time held stays for the next call.
    pub fn advance(&mut self, elapsed: u64) -> (due: bool)
        ensures
            due == gate_due(old(self).hz, old(self).accumulated, elapsed),
            final(self).accumulated == gate_left(old(self).hz, old(self).accumulated, elapsed),
            final(self).hz == old(self).hz,
    {
        let filled: u64 = self.accumulated.saturating_add(elapsed);
        match self.period() {
            None => {
                self.accumulated = filled;
                false
            },
            Some(period) => {
                if filled >= period {
                    self.accumulated = filled - period;
                    true
                } else {
                    self.accumulated = filled;
                    false
                }
            },
        }
    }
}

/// While less than one tick's worth of time has come together, no tick is
/// due; once a whole tick's worth elapses in one step, one is.
pub proof fn lemma_gate_threshold(hz: u32, accumulated: u64, elapsed: u64)
    requires
        hz > 0,
    ensures
        accumulated + elapsed < tick_period(hz) ==> !gate_due(hz, accumulated, elapsed),
        elapsed >= tick_period(hz) ==> gate_due(hz, accumulated, elapsed),
        0 <= tick_period(hz) <= NANOS_PER_SECOND,
{
    assert(0 <= NANOS_PER_SECOND as int / hz as int <= NANOS_PER_SECOND) by (nonlinear_arith)
        requires
            hz > 0,
    ;
}

/// A tick gate fed by the machine's monotonic clock.
pub struct Timer {
    gate: TickGate,
    last_poll: Instant,
}

impl Timer {
    /// The accumulator of this timer.
    pub closed spec fn gate(&self) -> TickGate {
        self.gate
    }

    /// A timer that runs at `hz` ticks per second, holds no time and
    /// counts from now.
    pub fn new(hz: u32) -> (t: Timer)
        ensures
            t.gate().hz == hz,
            t.gate().accumulated == 0,
    {
        Timer { gate: TickGate::new(hz), last_poll: clock_now() }
    }

    /// The rate of this timer, in ticks per second.
    pub fn hz(&self) -> (hz: u32)
        ensures
            hz == self.gate().hz,
    {
        self.gate.hz
    }

    /// Feeds the accumulator the time since the last call and says whether
    /// a tick is due. Whatever the clock gave, the accumulator moved as
    /// [`TickGate::advance`] moves it for some elapsed time.
    pub fn can_run(&mut self) -> (due: bool)
        ensures
            final(self).gate().hz == old(self).gate().hz,
            exists|elapsed: u64|
                {
                    &&& due == #[trigger] gate_due(old(self).gate().hz, old(self).gate().accumulated, elapsed)
                    &&& final(self).gate().accumulated == gate_left(
                        old(self).gate().hz,
                        old(self).gate().accumulated,
                        elapsed,
                    )
                },
    {
        let now = clock_now();
        let elapsed = time_between(&now, &self.last_poll);
        let nanos: u128 = whole_nanos(&elapsed);
        let capped: u64 = if nanos > u64::MAX as u128 {
            u64::MAX
        } else {
            nanos as u64
        };
        self.last_poll = now;
        self.gate.advance(capped)
    }
}

} // verus!
