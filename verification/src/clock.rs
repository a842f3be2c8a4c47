//! The 60 Hz timer clock: how many ticks are due after some time has passed,
//! and what a run of ticks does to the two timers.

use vstd::prelude::*;
use crate::state::{tick, Cpu, Machine};

verus! {

/// The state after `k` ticks of the timer clock with no write in between.
pub open spec fn after_ticks(s: Machine, k: nat) -> Machine
    decreases k,
{
    if k == 0 {
        s
    } else {
        tick(after_ticks(s, (k - 1) as nat))
    }
}

/// After `k` ticks a timer that stood at N stands at N - k, or at 0 if k is
/// more than N: it reaches 0 with the N-th tick and never goes below. The
/// ticks change nothing but the two timers.
pub proof fn law_timers_run_down(s: Machine, k: nat)
    ensures
        after_ticks(s, k).delay == if k <= s.delay { s.delay - k } else { 0 },
        after_ticks(s, k).sound == if k <= s.sound { s.sound - k } else { 0 },
        after_ticks(s, k) == (Machine {
            delay: after_ticks(s, k).delay,
            sound: after_ticks(s, k).sound,
            ..s
        }),
    decreases k,
{
    if k > 0 {
        law_timers_run_down(s, (k - 1) as nat);
    }
}

/// Applies `n` ticks of the timer clock at once.
pub fn tick_many(cpu: &mut Cpu, n: u32)
    ensures
        final(cpu)@ == after_ticks(old(cpu)@, n as nat),
{
    proof {
        law_timers_run_down(cpu@, n as nat);
    }
    if n >= cpu.delay as u32 {
        cpu.delay = 0;
    } else {
        cpu.delay = cpu.delay - n as u8;
    }
    if n >= cpu.sound as u32 {
        cpu.sound = 0;
    } else {
        cpu.sound = cpu.sound - n as u8;
    }
}

/// Turns elapsed time into ticks of one sixtieth of a second, carrying the rest
/// over so that no time is lost between calls.
#[derive(Debug, Clone, Copy, PartialEq, Eq)]
pub struct TimerClock {
    /// Time not yet turned into a tick, in sixtieths of a microsecond.
    pub pending: u32,
}

impl TimerClock {
    /// The carried time is less than one tick.
    pub open spec fn wf(&self) -> bool {
        self.pending < 1_000_000
    }

    /// A clock with no time carried.
    pub fn new() -> (clock: TimerClock)
        ensures
            clock.wf(),
            clock.pending == 0,
    {
        TimerClock { pending: 0 }
    }

    /// Whether the carried time is less than one tick.
    pub fn is_valid(&self) -> (ok: bool)
        ensures
            ok == self.wf(),
    {
        self.pending < 1_000_000
    }

    /// Accounts for `elapsed_micros` microseconds and returns the ticks that
    /// are now due: the carried time plus the elapsed time, in sixtieths of a
    /// microsecond, is split into whole ticks of one million each and a rest
    /// below one tick, which is carried.
    pub fn advance(&mut self, elapsed_micros: u32) -> (ticks: u32)
        requires
            old(self).wf(),
        ensures
            final(self).wf(),
            ticks * 1_000_000 + final(self).pending == old(self).pending + 60 * elapsed_micros,
    {
        let total: u64 = self.pending as u64 + 60 * (elapsed_micros as u64);
        let ticks: u64 = total / 1_000_000;
        self.pending = (total % 1_000_000) as u32;
        ticks as u32
    }
}

} // verus!
