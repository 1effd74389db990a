use orengine::sync::channels::{
    woken_recv_result, woken_send_result,
    CallState, Channel, ChannelInner, LocalChannel, RecvAttempt, RecvErr, SelectNonBlockingBranchResult,
    SendAttempt, SendErr, SendOutcome, TryRecvErr, TrySendErr, WaitingTask,
};
use orengine::sync::cond_vars::CondVarWaitList;
use orengine::sync::rw_locks::protocol::{Arrival, RWLockCore};
use orengine::sync::rw_locks::{LockStatus, RWLock, ReadAttempt, WriteAttempt};
use orengine::sync::wait_groups::{WaitGroup, WaitOutcome};
use orengine::sync::{CallOnceResult, Once, OnceState};
use orengine::Task;

fn task(id: u64) -> Task {
    Task::new(id, false)
}

#[test]
fn once_calls_only_once() {
    let once = Once::new();
    assert_eq!(once.state(), OnceState::NotCalled);
    assert!(!once.is_completed());
    let mut calls = 0;
    assert_eq!(once.call_once_sync(|| calls += 1), CallOnceResult::Called);
    assert_eq!(once.call_once_sync(|| calls += 1), CallOnceResult::WasAlreadyCompleted);
    assert_eq!(calls, 1);
    assert_eq!(once.state(), OnceState::Called);
    assert!(once.is_completed());
}

#[test]
fn once_state_numbers_round_trip() {
    assert_eq!(OnceState::not_called(), 0);
    assert_eq!(OnceState::called(), 1);
    assert_eq!(isize::from(OnceState::NotCalled), 0);
    assert_eq!(isize::from(OnceState::Called), 1);
    assert_eq!(OnceState::try_from(0isize), Ok(OnceState::NotCalled));
    assert_eq!(OnceState::try_from(1isize), Ok(OnceState::Called));
    assert_eq!(OnceState::try_from(2isize), Err(()));
    assert_eq!(OnceState::try_from(-1isize), Err(()));
}

#[test]
fn rw_lock_core_round_trips() {
    let mut core = RWLockCore::new();
    assert_eq!(core.lock_status(), LockStatus::Unlocked);
    assert!(core.try_write());
    assert_eq!(core.lock_status(), LockStatus::WriteLocked);
    assert!(!core.try_read());
    assert!(!core.try_write());
    assert!(core.write_unlock().is_empty());
    assert_eq!(core.lock_status(), LockStatus::Unlocked);
    assert!(core.try_read());
    assert!(core.try_read());
    assert_eq!(core.lock_status(), LockStatus::ReadLocked(2));
    assert!(!core.try_write());
    assert_eq!(core.read_unlock(), None);
    assert_eq!(core.read_unlock(), None);
    assert_eq!(core.lock_status(), LockStatus::Unlocked);
}

#[test]
fn rw_lock_core_hands_over_to_parked_tasks() {
    let mut core = RWLockCore::new();
    assert!(matches!(core.reader_arrives(task(1)), Arrival::Acquired(t) if t == task(1)));
    // A writer waits for the reader.
    assert!(matches!(core.writer_arrives(task(2)), Arrival::Parked));
    // Readers still get in while the lock is in read mode.
    assert!(matches!(core.reader_arrives(task(3)), Arrival::Acquired(_)));
    assert_eq!(core.read_unlock(), None);
    // The last reader hands the lock to the writer.
    assert_eq!(core.read_unlock(), Some(task(2)));
    assert_eq!(core.lock_status(), LockStatus::WriteLocked);
    // Readers and another writer park behind the writer.
    assert!(matches!(core.reader_arrives(task(4)), Arrival::Parked));
    assert!(matches!(core.reader_arrives(task(5)), Arrival::Parked));
    assert!(matches!(core.writer_arrives(task(6)), Arrival::Parked));
    // Writers go first.
    assert_eq!(core.write_unlock(), vec![task(6)]);
    assert_eq!(core.lock_status(), LockStatus::WriteLocked);
    // Then all readers, most recent first.
    assert_eq!(core.write_unlock(), vec![task(5), task(4)]);
    assert_eq!(core.lock_status(), LockStatus::ReadLocked(2));
    assert_eq!(core.read_unlock(), None);
    assert_eq!(core.read_unlock(), None);
    assert_eq!(core.lock_status(), LockStatus::Unlocked);
}

#[test]
fn rw_lock_guards_give_access() {
    let lock = RWLock::new(5u32);
    assert_eq!(lock.get_lock_status(), LockStatus::Unlocked);
    let mut guard = lock.try_write().expect("unlocked");
    assert_eq!(lock.get_lock_status(), LockStatus::WriteLocked);
    assert!(lock.try_read().is_none());
    assert!(lock.try_write().is_none());
    assert_eq!(guard.replace(7), 5);
    assert_eq!(*guard.value(), 7);
    assert!(guard.unlock().is_empty());
    let first = lock.try_read().expect("unlocked");
    let second = lock.try_read().expect("read mode");
    assert_eq!(*first.value(), 7);
    assert_eq!(*second.value(), 7);
    assert_eq!(lock.get_lock_status(), LockStatus::ReadLocked(2));
    assert_eq!(first.unlock(), None);
    assert_eq!(second.unlock(), None);
    assert_eq!(lock.get_lock_status(), LockStatus::Unlocked);
}

#[test]
fn rw_lock_parks_and_wakes_a_writer() {
    let lock = RWLock::new(String::from("a"));
    let reader = match lock.read(task(1)) {
        ReadAttempt::Acquired(guard, t) => {
            assert_eq!(t, task(1));
            guard
        }
        _ => panic!("the lock was free"),
    };
    assert!(matches!(lock.write(task(2)), WriteAttempt::Parked));
    assert_eq!(reader.unlock(), Some(task(2)));
    let mut writer = lock.get_write_locked();
    writer.replace(String::from("b"));
    assert!(writer.unlock().is_empty());
    let check = lock.try_read().expect("free again");
    assert_eq!(check.value().as_str(), "b");
    assert_eq!(check.unlock(), None);
}

#[test]
fn channel_inner_moves_values_in_order() {
    let mut ch: ChannelInner<u32> = ChannelInner::new(2);
    assert!(matches!(ch.try_recv(), Err(TryRecvErr::Empty)));
    assert!(matches!(ch.try_send(1), Ok(SendOutcome::Stored)));
    assert!(matches!(ch.try_send(2), Ok(SendOutcome::Stored)));
    assert!(matches!(ch.try_send(3), Err(TrySendErr::Full(3))));
    ch.park_sender(task(7), 3);
    assert_eq!(ch.fullness_state(), (2, 0, 1));
    let received = ch.try_recv().expect("stored");
    assert_eq!(received.value, 1);
    assert_eq!(received.woken_sender, Some(task(7)));
    assert_eq!(ch.fullness_state(), (2, 0, 0));
    assert_eq!(ch.try_recv().expect("stored").value, 2);
    assert_eq!(ch.try_recv().expect("stored").value, 3);
    assert!(matches!(ch.try_recv(), Err(TryRecvErr::Empty)));
}

#[test]
fn channel_inner_hands_values_to_waiting_receivers() {
    let mut ch: ChannelInner<&'static str> = ChannelInner::new(0);
    ch.park_receiver(task(1));
    ch.park_receiver(task(2));
    match ch.try_send("x") {
        Ok(SendOutcome::HandedTo(t, v)) => {
            assert_eq!(t, task(1));
            assert_eq!(v, "x");
        }
        _ => panic!("a receiver waited"),
    }
    let woken = ch.close();
    assert_eq!(woken.len(), 1);
    assert!(matches!(&woken[0], WaitingTask::Receiver(t) if *t == task(2)));
    assert!(ch.is_closed());
    assert!(matches!(ch.try_send("y"), Err(TrySendErr::Closed("y"))));
    assert!(matches!(ch.try_recv(), Err(TryRecvErr::Closed)));
}

#[test]
fn local_channel_with_zero_capacity_passes_values_directly() {
    let ch = LocalChannel::bounded(0);
    let (sender, receiver) = ch.split();
    assert!(matches!(receiver.recv(task(1)), RecvAttempt::Parked));
    match sender.send(10u32, task(2)) {
        SendAttempt::Done(SendOutcome::HandedTo(t, v), s) => {
            assert_eq!(t, task(1));
            assert_eq!(v, 10);
            assert_eq!(s, task(2));
        }
        _ => panic!("a receiver waited"),
    }
    assert!(matches!(sender.send(11, task(3)), SendAttempt::Parked));
    match receiver.recv(task(4)) {
        RecvAttempt::Done(received, t) => {
            assert_eq!(received.value, 11);
            assert_eq!(received.woken_sender, Some(task(3)));
            assert_eq!(t, task(4));
        }
        _ => panic!("a sender waited"),
    }
    assert!(receiver.receiver_close().is_empty());
    assert!(matches!(sender.send(12, task(5)), SendAttempt::Closed(12, _)));
    assert!(matches!(receiver.recv(task(6)), RecvAttempt::Closed(_)));
}

#[test]
fn local_channel_try() {
    let ch = LocalChannel::bounded(1);
    assert!(matches!(ch.try_recv(), Err(TryRecvErr::Empty)));
    assert!(ch.try_send(1).is_ok());
    assert_eq!(ch.try_recv().expect("should be not empty").value, 1);
    assert!(ch.try_send(2).is_ok());
    match ch.try_send(3) {
        Err(TrySendErr::Full(value)) => assert_eq!(value, 3),
        _ => panic!("should be full"),
    }
    assert!(ch.close().is_empty());
    assert!(matches!(ch.try_recv(), Err(TryRecvErr::Closed)));
    match ch.try_send(4) {
        Err(TrySendErr::Closed(value)) => assert_eq!(value, 4),
        _ => panic!("should be closed"),
    }
}

#[test]
fn shared_channel_unbounded_keeps_order() {
    let ch = Channel::unbounded();
    for i in 0..100u32 {
        assert!(matches!(ch.try_send(i), Ok(SendOutcome::Stored)));
    }
    assert_eq!(ch.fullness_state(), (100, 0, 0));
    for i in 0..100u32 {
        assert_eq!(ch.try_recv().expect("stored").value, i);
    }
    assert!(matches!(ch.recv(task(1)), RecvAttempt::Parked));
    let woken = ch.close();
    assert_eq!(woken.len(), 1);
}

#[test]
fn closing_returns_waiting_senders_with_their_values() {
    let ch = Channel::bounded(1);
    assert!(ch.try_send(1u8).is_ok());
    assert!(matches!(ch.send(2, task(1)), SendAttempt::Parked));
    assert!(matches!(ch.send(3, task(2)), SendAttempt::Parked));
    let woken = ch.close();
    assert_eq!(woken.len(), 2);
    assert!(matches!(&woken[0], WaitingTask::Sender(t, 2) if *t == task(1)));
    assert!(matches!(&woken[1], WaitingTask::Sender(t, 3) if *t == task(2)));
}

#[test]
fn errors_and_states_have_names() {
    assert_eq!(SendErr::Closed(1).name(), "SendErr::Closed");
    assert_eq!(SendErr::Closed(1).into_value(), 1);
    assert_eq!(TrySendErr::Full(1).name(), "TrySendErr::Full");
    assert_eq!(TrySendErr::Locked(2).name(), "TrySendErr::Locked");
    assert_eq!(TrySendErr::Closed(3).name(), "TrySendErr::Closed");
    assert_eq!(TrySendErr::Locked(2).into_value(), 2);
    assert_eq!(RecvErr::Closed.name(), "RecvErr::Closed");
    assert_eq!(TryRecvErr::Empty.name(), "TryRecvErr::Empty");
    assert_eq!(TryRecvErr::Locked.name(), "TryRecvErr::Locked");
    assert_eq!(TryRecvErr::Closed.name(), "TryRecvErr::Closed");
    assert!(CallState::WokenByClose.is_closed());
    assert!(!CallState::FirstCall.is_closed());
    assert!(!CallState::WokenToReturnReady.is_closed());
    assert_ne!(SelectNonBlockingBranchResult::Success, SelectNonBlockingBranchResult::NotReady);
}

#[test]
fn wait_group_wakes_waiters_when_done() {
    let wg = WaitGroup::new();
    assert!(matches!(wg.wait(task(1)), WaitOutcome::Ready(t) if t == task(1)));
    assert!(wg.add(2));
    assert!(wg.inc());
    assert_eq!(wg.count(), 3);
    assert!(matches!(wg.wait(task(2)), WaitOutcome::Parked));
    assert!(matches!(wg.wait(task(3)), WaitOutcome::Parked));
    assert_eq!(wg.done(), (2, vec![]));
    assert_eq!(wg.done(), (1, vec![]));
    assert_eq!(wg.done(), (0, vec![task(2), task(3)]));
    assert_eq!(wg.done(), (0, vec![]));
    assert!(!wg.add(usize::MAX) || wg.count() == usize::MAX);
}

#[test]
fn wait_group_with_count_and_set() {
    let mut wg = WaitGroup::new_with_count(10);
    assert_eq!(wg.count(), 10);
    wg.set_mut(1);
    assert_eq!(wg.count(), 1);
    assert!(wg.add(1));
    assert!(!wg.add(usize::MAX));
    assert_eq!(wg.count(), 2);
}

#[test]
fn cancelled_waiters_leave_the_channel() {
    let ch = Channel::bounded(0);
    assert!(matches!(ch.send(1u32, task(1)), SendAttempt::Parked));
    assert!(matches!(ch.send(2u32, task(2)), SendAttempt::Parked));
    match ch.cancel_waiting(1) {
        Some(WaitingTask::Sender(t, v)) => {
            assert_eq!(t, task(1));
            assert_eq!(v, 1);
        }
        _ => panic!("task 1 waited"),
    }
    assert!(ch.cancel_waiting(1).is_none());
    assert_eq!(ch.fullness_state(), (0, 0, 1));
    let received = ch.try_recv().expect("a sender waits");
    assert_eq!(received.value, 2);
    assert_eq!(received.woken_sender, Some(task(2)));
    assert!(ch.cancel_waiting(2).is_none());

    let local = LocalChannel::<u8>::bounded(1);
    assert!(matches!(local.recv(task(3)), RecvAttempt::Parked));
    assert!(matches!(local.cancel_waiting(3), Some(WaitingTask::Receiver(t)) if t == task(3)));
    assert!(matches!(local.try_send(9), Ok(SendOutcome::Stored)));
}

#[test]
fn cond_var_notify_one_wakes_the_last_waiter() {
    let mut list = CondVarWaitList::new();
    assert_eq!(list.notify_one(), None);
    list.wait(task(1));
    list.wait(task(2));
    assert_eq!(list.len(), 2);
    assert_eq!(list.notify_one(), Some(task(2)));
    assert_eq!(list.notify_one(), Some(task(1)));
    assert_eq!(list.notify_one(), None);
    assert_eq!(list.len(), 0);
}

#[test]
fn cond_var_notify_all_wakes_one_and_subscribes_the_rest() {
    let mut list = CondVarWaitList::default();
    assert!(list.notify_all().is_none());
    for id in 1..=4 {
        list.wait(task(id));
    }
    let notified = list.notify_all().unwrap();
    assert_eq!(notified.woken, task(4));
    assert_eq!(notified.subscribed, vec![task(3), task(2), task(1)]);
    assert_eq!(list.len(), 0);
    assert_eq!(list.notify_one(), None);
}

#[test]
fn once_claims_decide_from_the_exchange() {
    assert_eq!(orengine::sync::onces::shared::claim_result(Ok(0)), CallOnceResult::Called);
    assert_eq!(orengine::sync::onces::shared::claim_result(Err(1)), CallOnceResult::WasAlreadyCompleted);
    assert_eq!(orengine::sync::onces::shared::state_of_number(0), OnceState::NotCalled);
    assert_eq!(orengine::sync::onces::shared::state_of_number(1), OnceState::Called);
    assert_eq!(orengine::sync::onces::shared::state_of_number(7), OnceState::Called);
}

#[test]
fn woken_calls_return_what_their_state_says() {
    assert!(woken_send_result(CallState::FirstCall, 5u32).is_none());
    assert!(matches!(woken_send_result(CallState::WokenToReturnReady, 5u32), Some(Ok(()))));
    assert!(matches!(woken_send_result(CallState::WokenByClose, 5u32), Some(Err(SendErr::Closed(5)))));
    assert_eq!(woken_recv_result(CallState::FirstCall), None);
    assert_eq!(woken_recv_result(CallState::WokenToReturnReady), Some(Ok(())));
    assert_eq!(woken_recv_result(CallState::WokenByClose), Some(Err(RecvErr::Closed)));
}

#[test]
fn a_waiting_future_parks_then_resumes() {
    assert_eq!(orengine::sync::cond_vars::wait_poll_step(false), orengine::sync::cond_vars::WaitPoll::Park);
    assert_eq!(orengine::sync::cond_vars::wait_poll_step(true), orengine::sync::cond_vars::WaitPoll::Resume);
}

#[test]
fn channel_inner_send_and_recv_park_when_they_must() {
    let mut ch: ChannelInner<u32> = ChannelInner::new(1);
    assert!(matches!(ch.recv(task(1)), RecvAttempt::Parked));
    match ch.send(5, task(2)) {
        SendAttempt::Done(SendOutcome::HandedTo(t, v), own) => {
            assert_eq!(t, task(1));
            assert_eq!(v, 5);
            assert_eq!(own, task(2));
        }
        _ => panic!("a receiver waited"),
    }
    assert!(matches!(ch.send(6, task(3)), SendAttempt::Done(SendOutcome::Stored, _)));
    assert!(matches!(ch.send(7, task(4)), SendAttempt::Parked));
    assert_eq!(ch.fullness_state(), (1, 0, 1));
    match ch.recv(task(5)) {
        RecvAttempt::Done(received, own) => {
            assert_eq!(received.value, 6);
            assert_eq!(received.woken_sender, Some(task(4)));
            assert_eq!(own, task(5));
        }
        _ => panic!("a value was stored"),
    }
    assert_eq!(ch.fullness_state(), (1, 0, 0));
    ch.close();
    assert!(matches!(ch.send(8, task(6)), SendAttempt::Closed(8, _)));
    assert!(matches!(ch.recv(task(7)), RecvAttempt::Closed(_)));
}
