//! A verified core for a periodic metrics service: a background refresher
//! polls a fixed set of remote metrics, caches the latest textual value of
//! each one for concurrent readers, and appends every completed snapshot to
//! an append-only observation log.

pub mod cache;
pub mod fetch;
pub mod metric;
pub mod refresh;
pub mod store;
