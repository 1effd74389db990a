//! This module contains [`OnceState`] and [`CallOnceResult`].
use vstd::prelude::*;

verus! {

/// `OnceState` tells whether a `Once` has been called or not.
#[derive(PartialEq, Eq, Copy, Clone, Debug, Structural)]
pub enum OnceState {
    /// The `Once` has not been called.
    NotCalled,
    /// The `Once` has been called.
    Called,
}

/// What a call of `call_once_sync` did.
#[derive(PartialEq, Eq, Copy, Clone, Debug, Structural)]
pub enum CallOnceResult {
    /// The function was called by this call.
    Called,
    /// The `Once` had already been called, so the function was not called.
    WasAlreadyCompleted,
}

/// The number that stands for a state in the atomic cell of a `Once`.
pub open spec fn once_state_number(state: OnceState) -> isize {
    match state {
        OnceState::NotCalled => 0,
        OnceState::Called => 1,
    }
}

/// The state that a number stands for, if it stands for one.
pub open spec fn once_state_of_number(value: isize) -> Result<OnceState, ()> {
    if value == 0 {
        Ok(OnceState::NotCalled)
    } else if value == 1 {
        Ok(OnceState::Called)
    } else {
        Err(())
    }
}

impl OnceState {
    /// Returns the number of [`OnceState::NotCalled`].
    pub fn not_called() -> (r: isize)
        ensures
            r == once_state_number(OnceState::NotCalled),
    {
        0
    }

    /// Returns the number of [`OnceState::Called`].
    pub fn called() -> (r: isize)
        ensures
            r == once_state_number(OnceState::Called),
    {
        1
    }
}

impl From<OnceState> for isize {
    fn from(state: OnceState) -> (r: isize) {
        match state {
            OnceState::NotCalled => 0,
            OnceState::Called => 1,
        }
    }
}

impl vstd::std_specs::convert::FromSpecImpl<OnceState> for isize {
    open spec fn obeys_from_spec() -> bool {
        true
    }

    open spec fn from_spec(state: OnceState) -> isize {
        once_state_number(state)
    }
}

impl TryFrom<isize> for OnceState {
    type Error = ();

    fn try_from(value: isize) -> (r: Result<OnceState, ()>) {
        if value == 0 {
            Ok(OnceState::NotCalled)
        } else if value == 1 {
            Ok(OnceState::Called)
        } else {
            Err(())
        }
    }
}

impl vstd::std_specs::convert::TryFromSpecImpl<isize> for OnceState {
    open spec fn obeys_try_from_spec() -> bool {
        true
    }

    open spec fn try_from_spec(value: isize) -> Result<OnceState, ()> {
        once_state_of_number(value)
    }
}

/// Turning a state into its number and back gives the state again; the numbers
/// of the two states differ.
pub proof fn lemma_once_state_round_trip(state: OnceState)
    ensures
        once_state_of_number(once_state_number(state)) == Ok::<OnceState, ()>(state),
        once_state_number(OnceState::NotCalled) != once_state_number(OnceState::Called),
{
}

/// What a claim does to a `Once`, in sequence: a claim on a `Once` that was not
/// called calls the function and leaves it called; a claim on a called `Once`
/// does nothing.
pub open spec fn once_claim(state: OnceState) -> (OnceState, CallOnceResult) {
    match state {
        OnceState::NotCalled => (OnceState::Called, CallOnceResult::Called),
        OnceState::Called => (OnceState::Called, CallOnceResult::WasAlreadyCompleted),
    }
}

/// Along any run of claims on a `Once`, the function is called at most once: no
/// claim after the one that called it calls it again, and the first claim on a
/// `Once` that was not called is the one that calls it.
pub proof fn lemma_once_calls_at_most_once(states: Seq<OnceState>, results: Seq<CallOnceResult>)
    requires
        states.len() == results.len() + 1,
        forall|i: int|
            0 <= i < results.len() ==> (states[i + 1], #[trigger] results[i]) == once_claim(states[i]),
    ensures
        forall|i: int, j: int|
            0 <= i < j < results.len() && #[trigger] results[i] == CallOnceResult::Called ==> #[trigger] results[j]
                == CallOnceResult::WasAlreadyCompleted,
        states[0] == OnceState::NotCalled && results.len() > 0 ==> results[0] == CallOnceResult::Called,
{
    assert forall|i: int, j: int|
        0 <= i < j < results.len() && #[trigger] results[i] == CallOnceResult::Called implies #[trigger] results[j]
            == CallOnceResult::WasAlreadyCompleted by {
        lemma_once_stays_called(states, results, i + 1, j);
    }
}

/// Once called, a `Once` stays called along a run of claims.
proof fn lemma_once_stays_called(states: Seq<OnceState>, results: Seq<CallOnceResult>, from: int, to: int)
    requires
        states.len() == results.len() + 1,
        forall|i: int|
            0 <= i < results.len() ==> (states[i + 1], #[trigger] results[i]) == once_claim(states[i]),
        1 <= from <= to < states.len(),
        to < results.len(),
    ensures
        states[to] == OnceState::Called,
        results[to] == CallOnceResult::WasAlreadyCompleted,
    decreases to - from,
{
    let _ = results[from - 1];
    if from < to {
        lemma_once_stays_called(states, results, from + 1, to);
    } else {
        let _ = results[to];
    }
}

} // verus!
