//! Verified instrumentation registry for a segmented, append-only storage
//! subsystem.
//!
//! For every (segment kind, operation kind) pair the registry keeps a
//! monotonically increasing call counter and a latency histogram, and for
//! every segment kind a triple of size gauges (byte size, file count, entry
//! count). The dispatch from a pair to its metric slot is total and
//! injective, so no two pairs ever share a metric.

pub mod kinds;
pub mod laws;
pub mod names;
pub mod registry;
