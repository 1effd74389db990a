//! The runner of test futures: it drives a future to completion and gives up
//! once the time limit of the test has passed.
use std::future::Future;
use std::pin::Pin;
use std::time::{Duration, Instant};
use vstd::prelude::*;
use vstd::string::StrSliceExecFns;

verus! {

/// Declares `std::time::Instant`, a moment of the monotonic clock.
#[verifier::external_type_specification]
#[verifier::external_body]
pub struct ExInstant(std::time::Instant);

/// Declares `std::pin::Pin`, a pointer whose pointee never moves again.
#[verifier::external_type_specification]
#[verifier::external_body]
#[verifier::reject_recursive_types(P)]
pub struct ExPin<P>(std::pin::Pin<P>);

/// The time limit, in nanoseconds, that a test gets when none is given: 100 000 seconds.
pub const DEFAULT_TEST_LIMIT_NS: u64 = 100_000_000_000_000;

/// The least time limit, in nanoseconds, that a test gets: one second.
pub const MIN_TEST_LIMIT_NS: u64 = 1_000_000_000;

/// The report of a test that did not finish in time.
#[derive(PartialEq, Eq, Copy, Clone, Debug, Structural)]
pub struct TestTimedOut {
    /// Whether the test future had finished (it had not, when this is returned).
    pub was_main_fn_ready: bool,
}

/// The time limit of a test, in nanoseconds, for the requested one: none gives
/// the default, and requests below the minimum get the minimum.
pub open spec fn test_limit_spec(requested_ns: Option<u64>) -> u64 {
    match requested_ns {
        None => DEFAULT_TEST_LIMIT_NS,
        Some(ns) => if ns < MIN_TEST_LIMIT_NS {
            MIN_TEST_LIMIT_NS
        } else {
            ns
        },
    }
}

/// Returns the time limit of a test, in nanoseconds, for the requested one.
pub fn test_limit_ns(requested_ns: Option<u64>) -> (r: u64)
    ensures
        r == test_limit_spec(requested_ns),
{
    match requested_ns {
        None => DEFAULT_TEST_LIMIT_NS,
        Some(ns) => if ns < MIN_TEST_LIMIT_NS {
            MIN_TEST_LIMIT_NS
        } else {
            ns
        },
    }
}

/// What the runner does after a poll of the test future.
#[derive(PartialEq, Eq, Copy, Clone, Debug, Structural)]
pub enum RunnerStep {
    /// The future is ready: the test passed.
    Done,
    /// The future is pending and the time limit has passed: the test timed out.
    TimedOut,
    /// The future is pending within the time limit: poll it again.
    Poll,
}

/// Decides the runner's next step from whether the future was ready at the last
/// poll and whether the time limit has passed since.
pub fn runner_step(ready: bool, expired: bool) -> (s: RunnerStep)
    ensures
        ready ==> s == RunnerStep::Done,
        !ready && expired ==> s == RunnerStep::TimedOut,
        !ready && !expired ==> s == RunnerStep::Poll,
{
    if ready {
        RunnerStep::Done
    } else if expired {
        RunnerStep::TimedOut
    } else {
        RunnerStep::Poll
    }
}

/// Which locks an exclusive test run takes: tests that ask for nothing share
/// the run with each other, `"*"` runs alone, and a group name runs alone among
/// the tests of that group.
#[derive(PartialEq, Eq, Copy, Clone, Debug, Structural)]
pub enum TestExclusivity {
    /// The common lock, shared: no exclusivity asked for.
    Shared,
    /// The common lock, exclusively: the test runs alone.
    Full,
    /// The common lock shared, and the lock of the named group exclusively.
    Group,
}

/// Decides the exclusivity of a test run from the name it asks for.
pub fn test_exclusivity(exclusive_in: &Option<String>) -> (e: TestExclusivity)
    ensures
        exclusive_in is None ==> e == TestExclusivity::Shared,
        exclusive_in matches Some(name) ==> (name@ == seq!['*'] ==> e == TestExclusivity::Full)
            && (name@ != seq!['*'] ==> e == TestExclusivity::Group),
{
    match exclusive_in {
        None => TestExclusivity::Shared,
        Some(name) => {
            let name = name.as_str();
            if name.unicode_len() == 1 && name.get_char(0) == '*' {
                assert(name@ =~= seq!['*']);
                TestExclusivity::Full
            } else {
                TestExclusivity::Group
            }
        },
    }
}

/// The whole nanoseconds of a duration (`Duration::as_nanos`). Nothing is
/// stated of the number: the duration is opaque here.
#[verifier::external_body]
fn duration_nanos(duration: Duration) -> u128 {
    duration.as_nanos()
}

/// The current moment of the monotonic clock (`Instant::now`).
#[verifier::external_body]
fn instant_now() -> Instant {
    Instant::now()
}

/// The moment `nanos` nanoseconds after `start` (`Instant::checked_add`), or
/// `None` when the clock cannot represent it.
#[verifier::external_body]
fn instant_after(start: Instant, nanos: u64) -> Option<Instant> {
    start.checked_add(Duration::from_nanos(nanos))
}

/// Whether moment `a` comes before moment `b` (`<` on `Instant`).
#[verifier::external_body]
fn instant_before(a: &Instant, b: &Instant) -> bool {
    a < b
}

/// Pins a future on the heap (`Box::pin`).
#[verifier::external_body]
fn pin_future<Fut: Future<Output = ()>>(future: Fut) -> Pin<Box<Fut>> {
    Box::pin(future)
}

/// Polls a pinned future once (`Future::poll`) with a waker that does nothing,
/// and returns `true` when it is ready.
#[verifier::external_body]
fn poll_once<Fut: Future<Output = ()>>(future: &mut Pin<Box<Fut>>) -> bool {
    let mut context = std::task::Context::from_waker(std::task::Waker::noop());
    future.as_mut().poll(&mut context).is_ready()
}

/// Drives the future made by `creator` to completion, giving up once the time
/// limit has passed (see [`test_limit_spec`]).
///
/// The future is polled on the calling thread until it is ready. The number of
/// polls is bounded by `u64::MAX`, after which the test counts as timed out too.
fn run_test_and_block_on<Fut: Future<Output = ()>, F: FnOnce() -> Fut>(
    creator: F,
    timeout: Option<Duration>,
) -> (r: Result<(), TestTimedOut>)
    requires
        creator.requires(()),
    ensures
        r matches Err(report) ==> !report.was_main_fn_ready,
{
    let requested = match timeout {
        Some(duration) => {
            let ns = duration_nanos(duration);
            Some(
                if ns > u64::MAX as u128 {
                    u64::MAX
                } else {
                    ns as u64
                },
            )
        },
        None => None,
    };
    let limit = test_limit_ns(requested);
    let start = instant_now();
    let deadline = instant_after(start, limit);
    let mut future = pin_future(creator());
    let mut polls: u64 = 0;
    while polls < u64::MAX
        decreases u64::MAX - polls,
    {
        let ready = poll_once(&mut future);
        let expired = if ready {
            false
        } else {
            match &deadline {
                Some(deadline) => {
                    let now = instant_now();
                    !instant_before(&now, deadline)
                },
                None => false,
            }
        };
        match runner_step(ready, expired) {
            RunnerStep::Done => {
                return Ok(());
            },
            RunnerStep::TimedOut => {
                return Err(TestTimedOut { was_main_fn_ready: false });
            },
            RunnerStep::Poll => {},
        }
        polls = polls + 1;
    }
    Err(TestTimedOut { was_main_fn_ready: false })
}

/// Runs a test future of `local` tasks to completion under its time limit.
///
/// Exclusive runs (`exclusive_in`) are arranged by the caller; the name is not
/// read here.
pub fn run_test_and_block_on_local<Fut: Future<Output = ()>, F: FnOnce() -> Fut>(
    creator: F,
    timeout: Option<Duration>,
    exclusive_in: Option<String>,
) -> (r: Result<(), TestTimedOut>)
    requires
        creator.requires(()),
    ensures
        r matches Err(report) ==> !report.was_main_fn_ready,
{
    run_test_and_block_on(creator, timeout)
}

/// Runs a test future of `shared` tasks to completion under its time limit.
///
/// Exclusive runs (`exclusive_in`) are arranged by the caller; the name is not
/// read here.
pub fn run_test_and_block_on_shared<Fut: Future<Output = ()>, F: FnOnce() -> Fut>(
    creator: F,
    timeout: Option<Duration>,
    exclusive_in: Option<String>,
) -> (r: Result<(), TestTimedOut>)
    requires
        creator.requires(()),
    ensures
        r matches Err(report) ==> !report.was_main_fn_ready,
{
    run_test_and_block_on(creator, timeout)
}

} // verus!
