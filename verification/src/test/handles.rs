//! The accounting of the handles of the tasks that a test started on other
//! executors: the test ends only when none runs, and a panic of one is the
//! test's.
use vstd::prelude::*;

verus! {

/// What became of the task behind a handle, as last seen.
#[derive(PartialEq, Eq, Copy, Clone, Debug, Structural)]
pub enum HandleState {
    /// The task still runs.
    Running,
    /// The task finished.
    Finished,
    /// The task panicked.
    Panicked,
}

/// The number of handles whose task still runs.
pub open spec fn running_count(states: Seq<HandleState>) -> nat
    decreases states.len(),
{
    if states.len() == 0 {
        0
    } else {
        running_count(states.drop_last()) + if states.last() == HandleState::Running {
            1nat
        } else {
            0nat
        }
    }
}

/// The position of the last handle whose task panicked, if one did.
pub open spec fn last_panicked(states: Seq<HandleState>) -> Option<int>
    decreases states.len(),
{
    if states.len() == 0 {
        None
    } else if states.last() == HandleState::Panicked {
        Some(states.len() - 1)
    } else {
        last_panicked(states.drop_last())
    }
}

/// Checks the handles of a test: the position of a handle whose task panicked
/// (the last one), whose panic the test resumes, or else the number of handles
/// whose task still runs, which the test waits for. Finished handles are done
/// with either way.
pub fn check_handles(states: &Vec<HandleState>) -> (r: Result<usize, usize>)
    ensures
        last_panicked(states@) matches Some(i) ==> r == Err::<usize, usize>(i as usize),
        last_panicked(states@) is None ==> r == Ok::<usize, usize>(running_count(states@) as usize),
{
    let mut running: usize = 0;
    let mut panicked: Option<usize> = None;
    let mut i: usize = 0;
    while i < states.len()
        invariant
            i <= states@.len(),
            running == running_count(states@.take(i as int)),
            running <= i,
            panicked matches Some(p) ==> last_panicked(states@.take(i as int)) == Some(p as int),
            panicked is None ==> last_panicked(states@.take(i as int)) is None,
        decreases states@.len() - i,
    {
        let ghost before = states@.take(i as int);
        assert(states@.take(i as int + 1).drop_last() =~= before);
        match states[i] {
            HandleState::Running => {
                running = running + 1;
            },
            HandleState::Finished => {},
            HandleState::Panicked => {
                panicked = Some(i);
            },
        }
        i = i + 1;
    }
    assert(states@.take(states@.len() as int) =~= states@);
    match panicked {
        Some(p) => Err(p),
        None => Ok(running),
    }
}

} // verus!
