use orengine::utils::backoff::SPIN_LIMIT;
use orengine::utils::{assert_hint, likely, shuffle, short_preempt, unlikely, Backoff, PreemptKind, ShuffleRng};
use orengine::utils::{extend_vec_deque_by_task_slice, LockFreeTaskStack, NeverWaitLock, SegTaskQueue};
use orengine::utils::seg_task_queue::SegQueueState;
use orengine::sync_task_queue::{move_all_tasks, move_batch, pop_first_task};
use orengine::utils::lock_free_task_stack::{pop_all_tasks, pop_top_task};
use orengine::{SyncTaskList, Task};
use std::collections::VecDeque;

#[test]
fn backoff_completes_after_the_spin_limit() {
    let mut backoff = Backoff::new();
    for _ in 0..SPIN_LIMIT {
        assert!(!backoff.is_completed());
        backoff.spin();
    }
    assert!(backoff.is_completed());
    backoff.spin();
    assert!(backoff.is_completed());
    backoff.reset();
    assert!(!backoff.is_completed());
}

#[test]
fn backoff_snooze_asks_for_a_long_preemption_at_the_limit() {
    let mut backoff = Backoff::default();
    for _ in 0..SPIN_LIMIT {
        assert_eq!(backoff.snooze(), PreemptKind::Short);
    }
    assert!(backoff.is_completed());
    assert_eq!(backoff.snooze(), PreemptKind::Long);
    assert!(!backoff.is_completed());
    assert_eq!(backoff.snooze(), PreemptKind::Short);
}

#[test]
fn hints_return_their_argument() {
    assert!(likely(true));
    assert!(!likely(false));
    assert!(unlikely(true));
    assert!(!unlikely(false));
    assert_hint(1 + 1 == 2, "arithmetic");
    short_preempt();
}

#[test]
fn shuffle_gives_the_xorshift_permutation() {
    let mut rng = ShuffleRng::new();
    let mut values: Vec<u32> = (0..10).collect();
    shuffle(&mut values, &mut rng);
    assert_eq!(values, vec![3, 4, 8, 7, 0, 6, 1, 9, 2, 5]);

    let mut more: Vec<u32> = (0..5).collect();
    shuffle(&mut more, &mut rng);
    assert_eq!(more, vec![3, 4, 0, 2, 1]);
}

#[test]
fn shuffle_leaves_short_slices_and_the_generator_alone() {
    let mut rng = ShuffleRng::new();
    let mut one = vec![7u8];
    shuffle(&mut one, &mut rng);
    assert_eq!(one, vec![7]);
    let mut empty: Vec<u8> = Vec::new();
    shuffle(&mut empty, &mut rng);
    assert!(empty.is_empty());
    // The generator did not move: a fresh one gives the same permutation.
    let mut values: Vec<u32> = (0..10).collect();
    shuffle(&mut values, &mut rng);
    assert_eq!(values, vec![3, 4, 8, 7, 0, 6, 1, 9, 2, 5]);
}

#[test]
fn shuffle_keeps_the_values() {
    let mut rng = ShuffleRng::new();
    let mut values: Vec<u32> = (0..100).map(|i| i % 7).collect();
    shuffle(&mut values, &mut rng);
    let mut sorted = values.clone();
    sorted.sort();
    let mut expected: Vec<u32> = (0..100).map(|i| i % 7).collect();
    expected.sort();
    assert_eq!(sorted, expected);
}

fn task(id: u64) -> Task {
    Task::new(id, false)
}

#[test]
fn task_handle_keeps_its_fields() {
    let t = Task::new(42, true);
    assert_eq!(t.id(), 42);
    assert!(t.is_local());
    assert!(!task(1).is_local());
}

#[test]
fn sync_task_list_pops_in_push_order() {
    let list = SyncTaskList::new();
    assert_eq!(list.pop(), None);
    list.push(task(1));
    list.push(task(2));
    list.push(task(3));
    assert_eq!(list.pop(), Some(task(1)));
    let mut all = vec![task(9)];
    list.pop_all_in(&mut all);
    assert_eq!(all, vec![task(9), task(2), task(3)]);
    assert_eq!(list.pop(), None);
}

#[test]
fn sync_task_list_take_batch_respects_the_limit() {
    let list = SyncTaskList::default();
    for id in 0..5 {
        list.push(task(id));
    }
    let mut other = VecDeque::new();
    list.take_batch(&mut other, 3);
    assert_eq!(other, VecDeque::from(vec![task(0), task(1), task(2)]));
    list.take_batch(&mut other, 10);
    assert_eq!(other.len(), 5);
    assert_eq!(other[3], task(3));
    assert_eq!(other[4], task(4));
    list.take_batch(&mut other, 10);
    assert_eq!(other.len(), 5);
}

#[test]
fn lock_free_task_stack_is_last_in_first_out() {
    let stack = LockFreeTaskStack::new();
    assert!(stack.is_empty());
    stack.push(task(1));
    stack.push(task(2));
    assert!(!stack.is_empty());
    assert_eq!(stack.try_pop(), Some(task(2)));
    assert_eq!(stack.try_pop(), Some(task(1)));
    assert_eq!(stack.try_pop(), None);
    stack.push(task(3));
    stack.push(task(4));
    stack.clear();
    assert!(stack.is_empty());
}

#[test]
fn seg_task_queue_is_first_in_first_out() {
    let queue = SegTaskQueue::new();
    assert!(queue.is_empty());
    assert_eq!(queue.len(), 0);
    assert_eq!(queue.pop(), None);
    for id in 0..10 {
        queue.push(task(id));
        assert_eq!(queue.len(), id as usize + 1);
    }
    for id in 0..10 {
        assert_eq!(queue.pop(), Some(task(id)));
        assert_eq!(queue.len(), 9 - id as usize);
    }
    assert!(queue.is_empty());
    assert_eq!(queue.pop(), None);
}

#[test]
fn seg_queue_state_counts_across_blocks() {
    let mut state = SegQueueState::new();
    let mut next_in: u64 = 0;
    let mut next_out: u64 = 0;
    for round in 0..30u64 {
        for _ in 0..(round % 5 + 1) {
            state.push(task(next_in));
            next_in += 1;
        }
        assert_eq!(state.len(), (next_in - next_out) as u128);
        for _ in 0..(round % 3 + 1) {
            match state.pop() {
                Some(t) => {
                    assert_eq!(t, task(next_out));
                    next_out += 1;
                }
                None => assert_eq!(next_in, next_out),
            }
        }
        assert_eq!(state.len(), (next_in - next_out) as u128);
        assert_eq!(state.is_empty(), next_in == next_out);
    }
}

#[test]
fn extend_vec_deque_appends_in_order() {
    let mut deque = VecDeque::new();
    deque.push_back(task(1));
    extend_vec_deque_by_task_slice(&mut deque, vec![task(2), task(3), task(4)]);
    assert_eq!(deque, VecDeque::from(vec![task(1), task(2), task(3), task(4)]));
    extend_vec_deque_by_task_slice(&mut deque, Vec::new());
    assert_eq!(deque.len(), 4);
}

#[test]
fn never_wait_lock_is_taken_once_at_a_time() {
    let lock = NeverWaitLock::new(false);
    let mut guard = lock.try_lock_with_preemption().unwrap();
    assert!(std::ptr::eq(guard.never_wait_lock(), &lock));
    assert!(lock.try_lock().is_none());
    assert!(lock.try_lock_with_preemption().is_none());
    assert!(!*guard.value());
    *guard.value_mut() = true;
    guard.unlock();

    let mut guard = lock.try_lock_with_preemption().unwrap();
    assert!(*guard.value());
    assert!(guard.replace(false));
    assert!(!*guard.value());
    guard.unlock();
    assert!(lock.try_lock_with_preemption().is_some());
}

#[test]
fn never_wait_lock_is_taken_when_the_exchange_succeeds() {
    assert!(orengine::utils::never_wait_lock::lock_taken(Ok(false)));
    assert!(!orengine::utils::never_wait_lock::lock_taken(Err(true)));
}

#[test]
fn plain_task_lists_keep_their_order() {
    let t = |id| Task::new(id, false);
    let mut list = vec![t(1), t(2), t(3)];
    assert_eq!(pop_first_task(&mut list), Some(t(1)));
    let mut deque = VecDeque::from(vec![t(9)]);
    move_batch(&mut list, &mut deque, 1);
    assert_eq!(deque, VecDeque::from(vec![t(9), t(2)]));
    assert_eq!(list, vec![t(3)]);
    move_batch(&mut list, &mut deque, 5);
    assert_eq!(deque, VecDeque::from(vec![t(9), t(2), t(3)]));
    assert!(list.is_empty());
    assert_eq!(pop_first_task(&mut list), None);
    let mut from = vec![t(4), t(5)];
    let mut to = vec![t(0)];
    move_all_tasks(&mut from, &mut to);
    assert_eq!(to, vec![t(0), t(4), t(5)]);
    assert!(from.is_empty());
}

#[test]
fn plain_task_stacks_pop_from_the_top() {
    let t = |id| Task::new(id, false);
    let mut stack = vec![t(1), t(2), t(3)];
    assert_eq!(pop_top_task(&mut stack), Some(t(3)));
    assert_eq!(pop_all_tasks(&mut stack), vec![t(2), t(1)]);
    assert!(stack.is_empty());
    assert_eq!(pop_top_task(&mut stack), None);
}
