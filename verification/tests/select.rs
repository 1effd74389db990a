use orengine::sync::channels::{
    Channel, LocalChannel, RecvAttempt, SelectNonBlockingBranchResult, SelectRecvResult,
    SelectSendResult, SendAttempt, SendOutcome, TaskInSelect, TaskInSelectBranch, TwoAcquisition, WaitingTask,
};
use orengine::Task;

fn task(id: u64) -> Task {
    Task::new(id, false)
}

// A `select` with a `default` branch subscribes its branches in order; when
// none is ready the `default` branch resolves the select, and what its branches
// left in the channels is dropped as a resolved select's.

fn select_recv_or_default(chan: &LocalChannel<u32>, id: u64) -> Result<u32, ()> {
    let select = TaskInSelect::acquire_for_task(task(id));
    match chan.recv_or_subscribe(TaskInSelectBranch::new(select.clone(), 0)) {
        SelectRecvResult::Received(received, _) => Ok(received.value),
        SelectRecvResult::Closed(_) => Err(()),
        SelectRecvResult::NotReady => {
            assert_eq!(TaskInSelectBranch::new(select, 1).acquire_once(), Some(task(id)));
            Ok(1)
        }
        SelectRecvResult::AlreadyAcquired => panic!("nobody else resolves this select"),
    }
}

fn select_send_or_default(chan: &LocalChannel<u32>, value: u32, id: u64, sent: u32) -> u32 {
    let select = TaskInSelect::acquire_for_task(task(id));
    match chan.send_or_subscribe(TaskInSelectBranch::new(select.clone(), 0), value) {
        SelectSendResult::Sent(_, _) | SelectSendResult::Closed(_, _) => sent,
        SelectSendResult::NotReady => {
            assert_eq!(TaskInSelectBranch::new(select, 1).acquire_once(), Some(task(id)));
            1
        }
        SelectSendResult::AlreadyAcquired(_) => panic!("nobody else resolves this select"),
    }
}

#[test]
fn test_select_one_channel_try_recv() {
    let chan = LocalChannel::<u32>::bounded(1);

    let res = select_recv_or_default(&chan, 1);

    assert_eq!(res.unwrap(), 1);

    assert!(chan.try_send(2).is_ok(), "failed to send");

    let res = select_recv_or_default(&chan, 2);

    assert_eq!(res.unwrap(), 2);
}

#[test]
fn test_select_one_channel_try_send() {
    let chan = LocalChannel::<u32>::bounded(0);

    let res = select_send_or_default(&chan, 1, 1, 2);

    assert_eq!(res, 1);

    let chan = LocalChannel::<u32>::bounded(1);

    let res = select_send_or_default(&chan, 1, 2, 3);

    assert_eq!(res, 3);
}

#[test]
fn a_met_plain_waiter_is_queued_again_when_the_select_is_resolved() {
    let ch = LocalChannel::<u32>::bounded(0);
    assert!(matches!(ch.recv(task(3)), RecvAttempt::Parked));
    let select = TaskInSelect::acquire_for_task(task(4));
    assert_eq!(TaskInSelectBranch::new(select.clone(), 0).acquire_once(), Some(task(4)));
    match ch.send_or_subscribe(TaskInSelectBranch::new(select, 1), 7) {
        SelectSendResult::AlreadyAcquired(v) => assert_eq!(v, 7),
        _ => panic!("the select was resolved"),
    }
    match ch.try_send(8) {
        Ok(SendOutcome::HandedTo(t, v)) => {
            assert_eq!(t, task(3));
            assert_eq!(v, 8);
        }
        _ => panic!("the receiver still waits"),
    }
}

#[test]
fn a_select_is_acquired_once() {
    let select = TaskInSelect::acquire_for_task(task(10));
    let first = TaskInSelectBranch::new(select.clone(), 0);
    let second = TaskInSelectBranch::new(select.clone(), 1);
    assert!(!first.is_acquired());
    assert_eq!(second.acquire_once(), Some(task(10)));
    assert_eq!(first.acquire_once(), None);
    assert!(first.is_acquired());
    assert_eq!(select.resolved_branch_id(), Some(1));
}

#[test]
fn two_selects_are_acquired_together_or_not_at_all() {
    let a = TaskInSelectBranch::new(TaskInSelect::acquire_for_task(task(1)), 0);
    let b = TaskInSelectBranch::new(TaskInSelect::acquire_for_task(task(2)), 3);
    let c = TaskInSelectBranch::new(TaskInSelect::acquire_for_task(task(3)), 0);
    assert!(matches!(a.try_acquire_two(&a.clone()), TwoAcquisition::SameSelect));
    match a.try_acquire_two(&b) {
        TwoAcquisition::Acquired(this, other) => {
            assert_eq!(this, task(1));
            assert_eq!(other, task(2));
        }
        _ => panic!("both were free"),
    }
    assert!(matches!(c.try_acquire_two(&b), TwoAcquisition::OtherAcquired));
    assert!(matches!(a.try_acquire_two(&c), TwoAcquisition::ThisAcquired));
    assert!(!c.is_acquired());
    assert_eq!(c.acquire_once(), Some(task(3)));
}

#[test]
fn a_receiving_branch_waits_and_is_served_by_a_sender() {
    let ch = LocalChannel::<u32>::bounded(0);
    let branch = TaskInSelectBranch::new(TaskInSelect::acquire_for_task(task(5)), 2);
    let r = ch.recv_or_subscribe(branch.clone());
    assert_eq!(r.result(), SelectNonBlockingBranchResult::NotReady);
    match ch.try_send(9) {
        Ok(SendOutcome::HandedTo(t, v)) => {
            assert_eq!(t, task(5));
            assert_eq!(v, 9);
        }
        _ => panic!("the branch waited"),
    }
    assert!(branch.is_acquired());
}

#[test]
fn branches_of_resolved_selects_are_skipped() {
    let ch = Channel::<u32>::bounded(0);
    let select = TaskInSelect::acquire_for_task(task(7));
    let recv_branch = TaskInSelectBranch::new(select.clone(), 0);
    let other_branch = TaskInSelectBranch::new(select.clone(), 1);
    assert!(matches!(ch.recv_or_subscribe(recv_branch), SelectRecvResult::NotReady));
    // The select is resolved by another branch.
    assert_eq!(other_branch.acquire_once(), Some(task(7)));
    // A plain receiver waits behind the dead branch.
    assert!(matches!(ch.recv(task(8)), RecvAttempt::Parked));
    match ch.try_send(4) {
        Ok(SendOutcome::HandedTo(t, v)) => {
            assert_eq!(t, task(8));
            assert_eq!(v, 4);
        }
        _ => panic!("a plain receiver waited"),
    }
    assert_eq!(ch.fullness_state(), (0, 0, 0));
}

#[test]
fn a_sending_branch_meets_a_receiving_branch() {
    let ch = LocalChannel::<&'static str>::bounded(0);
    let receiver = TaskInSelectBranch::new(TaskInSelect::acquire_for_task(task(1)), 0);
    let sender = TaskInSelectBranch::new(TaskInSelect::acquire_for_task(task(2)), 1);
    assert!(matches!(ch.recv_or_subscribe(receiver), SelectRecvResult::NotReady));
    match ch.send_or_subscribe(sender, "hi") {
        SelectSendResult::Sent(SendOutcome::HandedTo(t, v), own) => {
            assert_eq!(t, task(1));
            assert_eq!(v, "hi");
            assert_eq!(own, task(2));
        }
        _ => panic!("both selects were free"),
    }
}

#[test]
fn a_sending_branch_stores_waits_or_finds_the_channel_closed() {
    let ch = LocalChannel::<u8>::bounded(1);
    let first = TaskInSelectBranch::new(TaskInSelect::acquire_for_task(task(1)), 0);
    match ch.send_or_subscribe(first, 1) {
        SelectSendResult::Sent(SendOutcome::Stored, own) => assert_eq!(own, task(1)),
        _ => panic!("there was room"),
    }
    let second = TaskInSelectBranch::new(TaskInSelect::acquire_for_task(task(2)), 0);
    let r = ch.send_or_subscribe(second.clone(), 2);
    assert_eq!(r.result(), SelectNonBlockingBranchResult::NotReady);
    // A receiver takes the stored value and moves the branch's value in.
    let received = ch.try_recv().expect("stored");
    assert_eq!(received.value, 1);
    assert_eq!(received.woken_sender, Some(task(2)));
    assert_eq!(ch.try_recv().expect("moved in").value, 2);
    // A resolved select gets its value back.
    match ch.send_or_subscribe(second, 3) {
        SelectSendResult::AlreadyAcquired(v) => assert_eq!(v, 3),
        _ => panic!("the select was resolved"),
    }
    assert!(ch.close().is_empty());
    let third = TaskInSelectBranch::new(TaskInSelect::acquire_for_task(task(3)), 4);
    match ch.send_or_subscribe(third.clone(), 4) {
        SelectSendResult::Closed(own, v) => {
            assert_eq!(own, task(3));
            assert_eq!(v, 4);
        }
        _ => panic!("closed"),
    }
    assert!(matches!(ch.recv_or_subscribe(third), SelectRecvResult::AlreadyAcquired));
}

#[test]
fn closing_wakes_only_unresolved_select_branches() {
    let ch = Channel::<u8>::bounded(0);
    let live = TaskInSelectBranch::new(TaskInSelect::acquire_for_task(task(1)), 0);
    let dead = TaskInSelectBranch::new(TaskInSelect::acquire_for_task(task(2)), 0);
    assert!(matches!(ch.send_or_subscribe(live, 1), SelectSendResult::NotReady));
    assert!(matches!(ch.send_or_subscribe(dead.clone(), 2), SelectSendResult::NotReady));
    assert!(matches!(ch.send(3, task(3)), SendAttempt::Parked));
    assert_eq!(dead.acquire_once(), Some(task(2)));
    let woken = ch.close();
    assert_eq!(woken.len(), 2);
    assert!(matches!(&woken[0], WaitingTask::Sender(t, 1) if *t == task(1)));
    assert!(matches!(&woken[1], WaitingTask::Sender(t, 3) if *t == task(3)));
}

#[test]
fn a_receiving_branch_takes_a_stored_value() {
    let ch = LocalChannel::<u8>::bounded(2);
    assert!(ch.try_send(5).is_ok());
    let branch = TaskInSelectBranch::new(TaskInSelect::acquire_for_task(task(1)), 0);
    match ch.recv_or_subscribe(branch) {
        SelectRecvResult::Received(received, own) => {
            assert_eq!(received.value, 5);
            assert_eq!(received.woken_sender, None);
            assert_eq!(own, task(1));
        }
        _ => panic!("a value was stored"),
    }
}
