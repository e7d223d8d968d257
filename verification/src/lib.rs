//! Per-node synchronizer for a replicated, segmented object store.
//!
//! A consensus layer emits logical object lifecycle events (put, delete,
//! periodic full sync); this library decides, step by step, which background
//! work the node should run next: repairing a freshly put object, deleting a
//! batch of removed versions, or advancing a full-sync sweep.  All decisions
//! are made over plain values (versions and wall-clock seconds as `u64`), so
//! the whole scheduling logic is verified; the surrounding process performs
//! the actual device and network I/O and feeds the results back in.

pub mod event;
pub mod full_sync;
pub mod item;
pub mod laws;
pub mod synchronizer;

pub use event::Event;
pub use event::RepairIdleness;
pub use event::ObjectVersion;
