//! Query-time chunk assembly and delete reconciliation for one table.
//!
//! Given one consistent catalog snapshot (the persisted parquet files of a
//! table and its tombstones), the library decides which chunks are visible to
//! a query and which delete predicates each chunk must still apply at
//! execution time. It also provides the retry policy used to fetch that
//! snapshot from a transiently failing catalog, and a sound metadata pruner
//! for the resulting chunk list.

pub mod backoff;
pub mod catalog;
pub mod data;
pub mod marks;
pub mod prune;
pub mod reconcile;
pub mod seq_facts;
pub mod table;
