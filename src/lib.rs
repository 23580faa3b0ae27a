//! Snapshot configuration for a replicated ledger, and filesystem errors that
//! carry the path and call site of the failed operation.

pub mod fs_wrap_error;
pub mod snapshot_config;
pub mod snapshot_utils;
