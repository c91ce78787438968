//! Step execution and outcome reporting for a maintenance run: a runner that
//! decides, step by step, whether to run, retry, skip or give up, and an
//! ordered report of each step's outcome.

pub mod interrupt;
pub mod report;
pub mod runner;
