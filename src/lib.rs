//! Supervision of one child process, restarted after each crash as long as
//! a sliding window of recent crashes stays under a limit.

pub mod policy;
pub mod clock;
pub mod command;
pub mod supervisor;
