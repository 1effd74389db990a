//! Moving a batch of tasks to the back of a `VecDeque`.
use crate::runtime::Task;
use std::collections::VecDeque;
use vstd::prelude::*;

verus! {

/// Appends `tasks`, in order, to the back of `vec_deque`.
pub fn extend_vec_deque_by_task_slice(vec_deque: &mut VecDeque<Task>, tasks: Vec<Task>)
    ensures
        final(vec_deque)@ == old(vec_deque)@ + tasks@,
{
    let ghost target = vec_deque@ + tasks@;
    let mut rest = tasks;
    while rest.len() > 0
        invariant
            vec_deque@ + rest@ == target,
        decreases rest@.len(),
    {
        let ghost before = rest@;
        let task = rest.remove(0);
        vec_deque.push_back(task);
        assert(vec_deque@ + rest@ =~= target) by {
            assert(before =~= seq![task] + rest@);
        }
    }
    assert(vec_deque@ =~= target);
}

} // verus!
