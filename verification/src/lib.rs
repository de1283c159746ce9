//! The run pipeline of a mobile build-and-deploy tool, as pure decisions.
//!
//! Nothing here starts a process or touches the disk. The library says which
//! command to run next and what a run has come to; the caller performs the
//! commands and reports their outcomes.

pub mod android;
pub mod apple;
pub mod env;
pub mod opts;
pub mod order;
pub mod process;
pub mod report;
