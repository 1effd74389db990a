//! This module provides a [`Backoff`]: exponential back-off for spin loops.
use crate::utils::hints::likely;
use crate::utils::preempt::short_preempt;
use vstd::prelude::*;

verus! {

/// The number of steps after which [`Backoff`] stops spinning and asks for a yield.
pub const SPIN_LIMIT: u32 = 6;

/// What the caller of [`Backoff::snooze`] has to do after it returns.
#[derive(Clone, Copy, Debug, PartialEq, Eq, Structural)]
pub enum PreemptKind {
    /// A short preemption was already performed; nothing more is owed.
    Short,
    /// The wait has lasted long: the caller must give up its time slice
    /// (`long_preempt`), which needs the runtime or the operating system.
    Long,
}

/// Exponential back-off for spin loops.
pub struct Backoff {
    step: u32,
}

impl Backoff {
    /// The current step of the back-off.
    pub closed spec fn step(&self) -> nat {
        self.step as nat
    }

    /// The step never passes [`SPIN_LIMIT`].
    pub closed spec fn wf(&self) -> bool {
        self.step <= SPIN_LIMIT
    }

    /// Creates a new `Backoff` at step 0.
    #[inline]
    pub fn new() -> (b: Self)
        ensures
            b.wf(),
            b.step() == 0,
    {
        Self { step: 0 }
    }

    /// Resets the `Backoff` to step 0.
    #[inline]
    pub fn reset(&mut self)
        ensures
            final(self).wf(),
            final(self).step() == 0,
    {
        self.step = 0;
    }

    /// Spins for a short while and advances the step, which stays at [`SPIN_LIMIT`]
    /// once it has reached it.
    #[inline]
    pub fn spin(&mut self)
        requires
            old(self).wf(),
        ensures
            final(self).wf(),
            final(self).step() == if old(self).step() < SPIN_LIMIT {
                old(self).step() + 1
            } else {
                old(self).step()
            },
    {
        short_preempt();

        if self.step < SPIN_LIMIT {
            self.step = self.step + 1;
        }
    }

    /// Below [`SPIN_LIMIT`] it spins for a short while and advances the step;
    /// at the limit it asks the caller for a long preemption and starts over at step 0.
    #[inline]
    pub fn snooze(&mut self) -> (kind: PreemptKind)
        requires
            old(self).wf(),
        ensures
            final(self).wf(),
            old(self).step() < SPIN_LIMIT ==> kind == PreemptKind::Short && final(self).step()
                == old(self).step() + 1,
            old(self).step() >= SPIN_LIMIT ==> kind == PreemptKind::Long && final(self).step()
                == 0,
    {
        if likely(self.step < SPIN_LIMIT) {
            short_preempt();

            self.step = self.step + 1;

            PreemptKind::Short
        } else {
            self.step = 0;

            PreemptKind::Long
        }
    }

    /// Returns `true` once the step has reached [`SPIN_LIMIT`]: spinning no longer helps.
    #[inline]
    pub fn is_completed(&self) -> (r: bool)
        ensures
            r == (self.step() >= SPIN_LIMIT),
    {
        self.step >= SPIN_LIMIT
    }
}

impl Default for Backoff {
    fn default() -> (b: Self)
        ensures
            b.wf(),
            b.step() == 0,
    {
        Self::new()
    }
}

/// After [`SPIN_LIMIT`] spins from a fresh start the back-off is completed, and
/// a `reset` takes it back to a state that is not completed.
pub proof fn lemma_spins_complete(steps: nat)
    ensures
        steps >= SPIN_LIMIT ==> spins_from(0, steps) == SPIN_LIMIT,
        steps < SPIN_LIMIT ==> spins_from(0, steps) == steps,
    decreases steps,
{
    if steps > 0 {
        lemma_spins_complete((steps - 1) as nat);
    }
}

/// The step that `n` calls of [`Backoff::spin`] reach from step `start`.
pub open spec fn spins_from(start: nat, n: nat) -> nat
    decreases n,
{
    if n == 0 {
        start
    } else {
        let prev = spins_from(start, (n - 1) as nat);
        if prev < SPIN_LIMIT {
            prev + 1
        } else {
            prev
        }
    }
}

} // verus!
