use orengine::test::handles::{check_handles, HandleState};
use orengine::test::runner::test_limit_ns;
use orengine::test::{
    run_test_and_block_on_local, run_test_and_block_on_shared, runner_step, test_exclusivity, RunnerStep,
    TestExclusivity,
};
use std::time::Duration;

async fn awesome_fn() {}

#[test]
fn test_test_runner_local_not_timeout() {
    assert!(run_test_and_block_on_local(awesome_fn, None, None).is_ok());
    assert!(run_test_and_block_on_local(awesome_fn, Some(Duration::from_secs(1)), None).is_ok());
}

#[test]
fn test_test_runner_shared_not_timeout() {
    assert!(run_test_and_block_on_shared(awesome_fn, None, None).is_ok());
    assert!(run_test_and_block_on_shared(awesome_fn, Some(Duration::from_secs(1)), None).is_ok());
}

struct NeverReady;

impl std::future::Future for NeverReady {
    type Output = ();

    fn poll(self: std::pin::Pin<&mut Self>, _cx: &mut std::task::Context<'_>) -> std::task::Poll<()> {
        std::task::Poll::Pending
    }
}

#[test]
fn runner_reports_a_future_that_never_finishes() {
    let result = run_test_and_block_on_local(|| NeverReady, Some(Duration::from_millis(1)), None);
    assert!(result.is_err());
    assert!(!result.unwrap_err().was_main_fn_ready);
}

#[test]
fn runner_limits_follow_the_request() {
    assert_eq!(test_limit_ns(None), 100_000_000_000_000);
    assert_eq!(test_limit_ns(Some(1_000_000)), 1_000_000_000);
    assert_eq!(test_limit_ns(Some(2_500_000_000)), 2_500_000_000);
    assert_eq!(test_limit_ns(Some(1_500_000_500)), 1_500_000_500);
}

#[test]
fn runner_step_follows_readiness_then_the_clock() {
    assert_eq!(runner_step(true, false), RunnerStep::Done);
    assert_eq!(runner_step(true, true), RunnerStep::Done);
    assert_eq!(runner_step(false, true), RunnerStep::TimedOut);
    assert_eq!(runner_step(false, false), RunnerStep::Poll);
}

#[test]
fn test_exclusivity_follows_the_requested_name() {
    assert_eq!(test_exclusivity(&None), TestExclusivity::Shared);
    assert_eq!(test_exclusivity(&Some("*".to_string())), TestExclusivity::Full);
    assert_eq!(test_exclusivity(&Some("test_test_part_exclusive".to_string())), TestExclusivity::Group);
    assert_eq!(test_exclusivity(&Some("**".to_string())), TestExclusivity::Group);
}

#[test]
fn handles_are_checked_for_panics_then_counted() {
    assert_eq!(check_handles(&vec![]), Ok(0));
    assert_eq!(
        check_handles(&vec![HandleState::Running, HandleState::Finished, HandleState::Running]),
        Ok(2)
    );
    assert_eq!(
        check_handles(&vec![HandleState::Panicked, HandleState::Running, HandleState::Panicked]),
        Err(2)
    );
}
