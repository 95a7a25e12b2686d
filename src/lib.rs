//! Bulk upload of media files to a remote archive: choosing the files that
//! qualify, the three-call protocol for each file, the per-file task that
//! drives it, and the bounded pool that runs many tasks at once.

pub mod eligibility;
pub mod executor;
pub mod protocol;
pub mod task;
