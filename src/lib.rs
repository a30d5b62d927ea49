//! The decisions of a `deploy` command for serverless functions and extensions:
//! which archive to ship and how to obtain it, which tags apply, which remote path
//! runs with which retry policy, and how the result is printed. The outside work
//! of each step is left to the caller, which reports back what came of it.

pub mod deploy;
pub mod output;
pub mod paths;
pub mod retry;
pub mod run;
pub mod tags;
