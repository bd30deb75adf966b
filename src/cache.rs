use crate::types::Scope;
use vstd::prelude::*;

verus! {

/// The outcome of a computation, persisted together with its bytes.
#[derive(Clone, Copy, Debug, PartialEq, Eq, Structural)]
pub enum CacheStatus {
    /// The bytes hold a valid artifact.
    Positive,
    /// The source object could not be found; the bytes are an empty placeholder.
    Negative,
    /// The source object was found but could not be converted.
    Malformed,
}

/// The mathematical value of a cache key: its name and its scope.
pub struct KeyView {
    pub name: Seq<char>,
    pub scope: Option<Seq<char>>,
}

/// Identifies one derived artifact: the object's content identity (which already
/// folds in the derived format's version) and the scope it was requested in.
#[derive(Clone, Debug)]
pub struct CacheKey {
    pub cache_key: String,
    pub scope: Scope,
}

impl CacheKey {
    pub open spec fn view(&self) -> KeyView {
        KeyView { name: self.cache_key@, scope: self.scope.view() }
    }

    pub fn copy_key(&self) -> (r: CacheKey)
        ensures
            r.view() == self.view(),
    {
        CacheKey { cache_key: self.cache_key.clone(), scope: self.scope.copy_scope() }
    }

    /// Whether two keys name the same artifact.
    pub fn same_key(&self, other: &CacheKey) -> (r: bool)
        ensures
            r == (self.view() == other.view()),
    {
        let same_name = self.cache_key == other.cache_key;
        let same_scope = self.scope.same_scope(&other.scope);
        same_name && same_scope
    }
}

/// A persistent store of derived artifacts, named by the kind of artifact it holds.
#[derive(Clone, Debug)]
pub struct Cache {
    pub name: String,
}

} // verus!

verus! {

/// A failure of the infrastructure around a computation. Such failures reach every
/// waiter and are never persisted, so a later request tries afresh.
#[derive(Clone, Copy, Debug, PartialEq, Eq, Structural)]
pub enum FetchError {
    /// The object could not be resolved or downloaded.
    Resolution,
    /// The artifact could not be written or committed.
    Io,
    /// The computation did not finish within its ceiling.
    Timeout,
    /// The computation was dropped before it finished.
    Canceled,
    /// The worker pool refused the job because it is shutting down.
    Rejected,
}

} // verus!
