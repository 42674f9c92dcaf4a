//! Intervals of the system monitor.

use vstd::prelude::*;

verus! {

/// The time between two readings of processor and memory, in milliseconds.
pub const HIGH_FREQUENCY_INTERVAL_MS: u64 = 1000;

/// The time between two readings of the disks, in milliseconds.
pub const LOW_FREQUENCY_INTERVAL_MS: u64 = 60000;

} // verus!
