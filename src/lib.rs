//! Symbol-cache fetching on top of a single-flight, persisted, memoizing engine.
//!
//! The library holds the decisions: which request computes and which joins, when
//! persisted bytes are reused, what status a conversion ends in, and what every
//! waiter is handed. Resolving objects, touching the disk and running workers are
//! done by the caller, which feeds the outcomes back in.
mod bridge;
pub mod cache;
pub mod cacher;
pub mod offload;
pub mod symcaches;
pub mod types;

pub use cache::{Cache, CacheKey, CacheStatus, FetchError};


pub use cacher::{Admission, Cacher, ComputeOutcome, Lookup, Phase, Settlement, StoredEntry};
pub use symcaches::{
    ComputeResult, FetchStep, FetchSymCache, FetchSymCacheInternal, LookupStep, ObjectMeta, ParseError,
    SymCacheActor, SymCacheFile,
};
pub use offload::{JobEvent, Submission, ThreadPool};
pub use types::{ObjectFeatures, ObjectId, ObjectType, Scope};
