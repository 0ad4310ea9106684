//! Process-wide metrics registration: bucket layouts for histograms, an
//! instrument registry with unique names, a write-once cell for the finished
//! metrics set, and adapters through which subsystems record values.
//!
//! Every measured value is an integer count of ticks, a unit that the caller
//! fixes once (milliseconds, say); bucket boundaries are given in the same
//! unit.

pub mod buckets;
pub mod error;
pub mod instrument;
pub mod registry;
pub mod metrics_set;
pub mod adapter;
pub mod singleton;
pub mod exposition;
