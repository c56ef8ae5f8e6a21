//! Verified core of a vector-index ingestion and query pipeline.
//!
//! Raw tabular records are normalized into `(identifier, text, payload)`
//! triples or rejected, identifiers are resolved to a typed point key,
//! and accepted points are flushed to the store in bounded batches.

use vstd::prelude::*;

pub mod batch;
pub mod ident;
pub mod normalize;
pub mod pipeline;
pub mod query;
pub mod text;

verus! {

/// Capacity at which a pending batch is handed to the store.
pub const DEFAULT_BATCH_CAPACITY: usize = 100;

/// Number of results requested by one similarity search.
pub const DEFAULT_TOP_K: u64 = 10;

} // verus!
