//! This module provides the [`Once`].
use crate::sync::onces::state::{once_state_number, CallOnceResult, OnceState};
use std::sync::atomic::AtomicIsize;
use std::sync::atomic::Ordering;
use vstd::prelude::*;

verus! {

/// `Once` calls a function only once, even when it is shared between threads
/// (e.g. [`std::sync::Once`]).
pub struct Once {
    state: AtomicIsize,
}

/// What a claim did, from the outcome of the exchange of
/// [`OnceState::NotCalled`] for [`OnceState::Called`]: the claim that made the
/// exchange calls the function, and any other finds it called (see
/// [`once_claim`](crate::sync::onces::state::once_claim)).
pub fn claim_result(exchanged: Result<isize, isize>) -> (r: CallOnceResult)
    ensures
        exchanged is Ok <==> r == CallOnceResult::Called,
        exchanged is Err <==> r == CallOnceResult::WasAlreadyCompleted,
{
    match exchanged {
        Ok(_) => CallOnceResult::Called,
        Err(_) => CallOnceResult::WasAlreadyCompleted,
    }
}

/// The state that a number read from the cell of a `Once` stands for: the
/// number of [`OnceState::NotCalled`] stands for it, and any other number for
/// [`OnceState::Called`].
pub fn state_of_number(value: isize) -> (s: OnceState)
    ensures
        value == once_state_number(OnceState::NotCalled) <==> s == OnceState::NotCalled,
{
    if value == OnceState::not_called() {
        OnceState::NotCalled
    } else {
        OnceState::Called
    }
}

impl Once {
    /// Creates a new `Once` in the state [`OnceState::NotCalled`].
    pub fn new() -> (o: Self) {
        Self { state: AtomicIsize::new(OnceState::not_called()) }
    }

    /// Calls `f` if no call of this `Once` has claimed it before, and tells which
    /// case it was.
    ///
    /// The claim is an atomic exchange of [`OnceState::NotCalled`] for
    /// [`OnceState::Called`]; only the call that makes it calls `f`.
    pub fn call_once_sync<F: FnOnce()>(&self, f: F) -> (r: CallOnceResult)
        requires
            f.requires(()),
        ensures
            r == CallOnceResult::Called ==> f.ensures((), ()),
    {
        let claim = self.state.compare_exchange(
            OnceState::not_called(),
            OnceState::called(),
            Ordering::Acquire,
            Ordering::Relaxed,
        );
        match claim_result(claim) {
            CallOnceResult::Called => {
                f();
                CallOnceResult::Called
            },
            CallOnceResult::WasAlreadyCompleted => CallOnceResult::WasAlreadyCompleted,
        }
    }

    /// Returns the current state.
    ///
    /// The cell only ever holds the number of [`OnceState::NotCalled`] (from
    /// [`Once::new`]) or that of [`OnceState::Called`] (from the one successful
    /// claim); any number other than the first is read as `Called`.
    pub fn state(&self) -> OnceState {
        let value = self.state.load(Ordering::Acquire);
        state_of_number(value)
    }

    /// Returns `true` once the `Once` has been called.
    pub fn is_completed(&self) -> (r: bool) {
        match self.state() {
            OnceState::Called => true,
            OnceState::NotCalled => false,
        }
    }
}

impl Default for Once {
    fn default() -> (o: Self) {
        Self::new()
    }
}

} // verus!
