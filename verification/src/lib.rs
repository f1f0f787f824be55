//! Cache invalidation and merchant connector account reconciliation.
//!
//! Two components: an invalidator that removes a configuration key from a
//! process-local cache and a remote key-value store, and a reconciler that
//! merges a partial update into a persisted merchant connector account record.

pub mod account;
pub mod encryption;
pub mod invalidation;
pub mod json;
pub mod local_cache;
pub mod masked;
pub mod timestamp;
