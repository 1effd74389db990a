//! Running test futures to completion under a time limit.
pub mod handles;
pub mod runner;

pub use runner::{
    run_test_and_block_on_local, run_test_and_block_on_shared, runner_step, test_exclusivity, RunnerStep,
    TestExclusivity, TestTimedOut,
};
