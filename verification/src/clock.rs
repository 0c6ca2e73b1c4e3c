//! The repeating timer that paces the walk cycle, in whole microseconds.

use vstd::prelude::*;

verus! {

/// Length of one animation period: a twentieth of a second.
pub const PERIOD_US: u64 = 50_000;

/// A repeating timer with a fixed period. Time accrues tick by tick; on the
/// tick that reaches the period the timer reports that it has finished and
/// carries the remainder over into the next period.
#[derive(Clone, Copy, Debug)]
pub struct AnimationClock {
    elapsed_us: u64,
    finished: bool,
}

impl AnimationClock {
    /// Microseconds gone by in the running period.
    pub closed spec fn elapsed(self) -> nat {
        self.elapsed_us as nat
    }

    /// The period was reached on the latest tick and nobody has rearmed the
    /// timer since.
    pub closed spec fn is_finished(self) -> bool {
        self.finished
    }

    /// The running period is never full: a full one has already rolled over.
    pub open spec fn wf(self) -> bool {
        self.elapsed() < PERIOD_US
    }

    /// What is left of the running period after a tick of `delta_us`
    /// microseconds, whole periods taken off.
    pub open spec fn carried_over(elapsed: nat, delta_us: u64) -> nat {
        ((elapsed + delta_us) % (PERIOD_US as int)) as nat
    }

    /// A tick of `delta_us` microseconds reaches the period.
    pub open spec fn fires_after(self, delta_us: u64) -> bool {
        self.elapsed() + delta_us >= PERIOD_US
    }

    /// A timer at the start of its first period.
    pub fn new() -> (clock: AnimationClock)
        ensures
            clock.wf(),
            clock.elapsed() == 0,
            !clock.is_finished(),
    {
        AnimationClock { elapsed_us: 0, finished: false }
    }

    /// Microseconds gone by in the running period.
    pub fn elapsed_us(&self) -> (us: u64)
        ensures
            us == self.elapsed(),
    {
        self.elapsed_us
    }

    /// Whether the latest tick reached the period.
    pub fn finished(&self) -> (fired: bool)
        ensures
            fired == self.is_finished(),
    {
        self.finished
    }

    /// Lets `delta_us` microseconds pass. The timer is finished afterwards
    /// exactly if the period was reached, and then keeps only what went
    /// beyond whole periods.
    pub fn tick(&mut self, delta_us: u64)
        requires
            old(self).wf(),
        ensures
            final(self).wf(),
            final(self).is_finished() == old(self).fires_after(delta_us),
            final(self).elapsed() == AnimationClock::carried_over(old(self).elapsed(), delta_us),
    {
        let room: u64 = PERIOD_US - self.elapsed_us;
        if delta_us >= room {
            self.finished = true;
            self.elapsed_us = (delta_us - room) % PERIOD_US;
        } else {
            self.finished = false;
            self.elapsed_us = self.elapsed_us + delta_us;
        }
    }

    /// Rearms the timer: a new period starts now.
    pub fn reset(&mut self)
        ensures
            final(self).wf(),
            final(self).elapsed() == 0,
            !final(self).is_finished(),
    {
        self.finished = false;
        self.elapsed_us = 0;
    }
}

/// Ticks add up. Two ticks in a row leave the same elapsed time as one tick
/// of their sum would; and if the first does not reach the period, the
/// second reaches it exactly if their sum does.
pub proof fn lemma_ticks_accumulate(elapsed: nat, first_us: u64, second_us: u64)
    requires
        elapsed < PERIOD_US,
    ensures
        AnimationClock::carried_over(AnimationClock::carried_over(elapsed, first_us), second_us)
            == (elapsed + first_us + second_us) % (PERIOD_US as int),
        AnimationClock::carried_over(elapsed, first_us) < PERIOD_US,
        elapsed + first_us < PERIOD_US ==> (AnimationClock::carried_over(elapsed, first_us)
            + second_us >= PERIOD_US) == (elapsed + first_us + second_us >= PERIOD_US),
{
}

} // verus!
