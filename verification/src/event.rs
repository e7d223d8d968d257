//! Input events and runtime configuration of the synchronizer.

use vstd::prelude::*;

verus! {

/// Versions are 64-bit unsigned integers, totally ordered and unique within a
/// bucket.
pub type ObjectVersion = u64;

/// A queued delete batch never holds more than this many versions.
pub const DELETE_CONCURRENCY: usize = 16;

/// A timed wait armed by the scheduler is clamped to this many seconds.
pub const MAX_TIMEOUT_SECONDS: u64 = 60;

/// A logical object lifecycle event, emitted by the upstream consensus layer.
///
/// All times are whole seconds; `machine` is the authoritative snapshot of
/// versions that are still live.
pub enum Event {
    Putted { version: ObjectVersion, put_content_timeout: u64 },
    Deleted { version: ObjectVersion },
    FullSync { machine: Vec<ObjectVersion>, next_commit: u64 },
}

/// Admission policy for repair work: repairs run only when the node has been
/// idle for at least the threshold, and never when disabled.
pub enum RepairIdleness {
    Threshold(u64),
    Disabled,
}

impl RepairIdleness {
    /// Repair dispatch is considered at all only under a `Threshold`.
    pub open spec fn spec_enabled(self) -> bool {
        self is Threshold
    }
}

} // verus!
