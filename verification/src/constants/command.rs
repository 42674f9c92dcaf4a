//! Limits of command execution.

use vstd::prelude::*;

verus! {

/// The largest number of lines that a log is meant to hold.
pub const MAX_LOG_LINES: usize = 10000;

/// The time between two status updates, in milliseconds.
pub const STATUS_UPDATE_INTERVAL_MS: u64 = 1000;

} // verus!
