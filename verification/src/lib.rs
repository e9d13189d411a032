//! Step orchestration and reporting for a personal-machine upgrade run.
//!
//! The library keeps the ordered, platform-conditioned plan of upgrade
//! steps, collects the git repositories to synchronize (deduplicated by
//! canonical root), logs each step's outcome in an append-only report,
//! and reduces the aggregate to a process exit status. Running the
//! external tools themselves, reading configuration and printing the
//! summary are left to the surrounding program.

pub mod orchestrator;
pub mod report;
pub mod repos;
pub mod steps;
