# orengine

Synchronization primitives and task containers of an asynchronous runtime,
written in Verus: each operation states in its contract what it does to the
state it works on and which tasks it hands back to be woken, and Verus proves it.

## Layout

- `src/runtime.rs`: `Task`, the handle of a suspended task.
- `src/sync/`: the primitives.
  - `channels/`: bounded and unbounded channels. `ChannelInner` is the state of
    a channel (stored values, waiting senders or receivers, closed flag) with
    exact contracts; `LocalChannel` and `Channel` keep it behind a lock.
    `select.rs` holds the select machinery; every acquisition of a select goes
    through `SelectState::take_for_branch`, and `lemma_select_resolved_at_most_once`
    proves over runs of that step that a select's task goes to at most one of
    its branches.
  - `rw_locks/`: `RWLockCore`, the reader-writer protocol over one packed
    state word and the parked tasks; `RWLock` and its guards around it.
  - `wait_groups/`, `onces/`, `cond_vars/`: wait groups, call-once cells and the
    wait lists of condition variables.
- `src/sync_task_queue.rs`, `src/utils/`: task containers (`SyncTaskList`,
  `LockFreeTaskStack`, `SegTaskQueue`), `ArrayDeque`, `Backoff`, the shuffle,
  `NeverWaitLock` and small helpers.
- `src/test/`: runs a test future on the current thread with a time limit
  (`runner.rs`), and checks the handles of the tasks a test started
  (`handles.rs`).
- `app/`: what needs the operating system or per-thread state: yielding the
  thread, the per-thread shuffle generator, and the exclusive test runs on a
  worker thread.
- `tests/`: tests of the library on concrete values.

The laws that span several operations are public proof functions next to the
operations they speak of: values leave a channel in the order they entered it
(`lemma_channel_fifo`, over the terms of the channel's contracts), the deque is
first in first out, the lock protocol's round trips and the exclusion of
readers and writers, the shuffle being a permutation, a select resolved by at
most one branch, and a notification waking each waiting task once.

Some laws are proved over a sequential model of a step whose state the library
keeps in a std atomic, because vstd states nothing of an atomic's value: a
`Once` calls its function at most once along any run of claims
(`lemma_once_calls_at_most_once`, over `once_claim`), and a `NeverWaitLock` is
not taken twice without an unlock (`lemma_never_wait_lock_excludes`). The
contracts of `Once::call_once_sync` and `NeverWaitLock::try_lock` do not
mention these models; what ties them to the calls is the verified decision on
the atomic exchange's result (`claim_result`, `lock_taken`).

