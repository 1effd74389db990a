//! Functions that let the current thread make progress while it waits.
use vstd::prelude::*;

verus! {

/// Signals the processor that the thread is in a busy-wait loop
/// (`std::hint::spin_loop`). Nothing is stated of its effect: it only costs time.
#[verifier::external_body]
fn spin_loop_hint() {
    std::hint::spin_loop()
}

/// Spends a very short time without blocking the thread.
///
/// It is meant for waits that are expected to end within nanoseconds, for example
/// in lock-free algorithms where `.await` cannot be used.
#[inline(always)]
pub fn short_preempt() {
    spin_loop_hint();
}

} // verus!
