use crate::bridge::{read_header, symcache_header};
use crate::cache::{Cache, CacheKey, CacheStatus, FetchError};
use crate::cacher::{decide_lookup, lookup_spec, Cacher, Lookup, Phase, StoredEntry};
use crate::offload::ThreadPool;
use crate::types::{ObjectFeatures, ObjectId, ObjectType, Scope};
use vstd::prelude::*;

verus! {

/// Whether bytes hold a SymCache of the latest format revision.
pub open spec fn fresh_spec(data: Seq<u8>) -> bool {
    symcache_header(data) matches Some((latest, _)) && latest
}

/// The architecture code a SymCache's header names; zero (unknown) where the bytes
/// hold no readable header.
pub open spec fn arch_spec(header: Option<(bool, u32)>) -> u32 {
    match header {
        Some((_, arch)) => arch,
        None => 0,
    }
}

/// The status and bytes a conversion ends in, given the fetched object's status and
/// what converting it produced.
pub open spec fn conversion_spec(object_status: CacheStatus, converted: Option<Seq<u8>>) -> (
    CacheStatus,
    Seq<u8>,
) {
    if object_status != CacheStatus::Positive {
        (object_status, Seq::empty())
    } else {
        match converted {
            Some(b) => (CacheStatus::Positive, b),
            None => (CacheStatus::Malformed, Seq::empty()),
        }
    }
}

/// The bytes an optional conversion output holds.
pub open spec fn bytes_of(converted: Option<Vec<u8>>) -> Option<Seq<u8>> {
    match converted {
        Some(b) => Some(b@),
        None => None,
    }
}

/// What the symcache of a stored entry yields when it is opened.
pub open spec fn parse_spec(status: CacheStatus, data: Seq<u8>) -> Result<Option<Seq<u8>>, ParseError> {
    match status {
        CacheStatus::Negative => Ok(None),
        CacheStatus::Malformed => Err(ParseError::MalformedObject),
        CacheStatus::Positive => if symcache_header(data) is Some {
            Ok(Some(data))
        } else {
            Err(ParseError::InvalidSymCache)
        },
    }
}

/// Why a symcache cannot be opened.
#[derive(Clone, Copy, Debug, PartialEq, Eq, Structural)]
pub enum ParseError {
    /// The source object was found but could not be converted.
    MalformedObject,
    /// The stored bytes are not a readable SymCache.
    InvalidSymCache,
}

/// A resolved object file, as the object resolver describes it.
#[derive(Clone, Debug)]
pub struct ObjectMeta {
    pub cache_key: CacheKey,
    pub features: ObjectFeatures,
}

/// A request for the symcache of one object.
#[derive(Clone, Debug)]
pub struct FetchSymCache {
    pub object_type: ObjectType,
    pub identifier: ObjectId,
    /// The candidate sources, in order of priority, by identifier.
    pub sources: Vec<String>,
    pub scope: Scope,
}

/// The result of a conversion: a terminal status and the bytes to persist.
pub struct ComputeResult {
    pub status: CacheStatus,
    pub data: Vec<u8>,
}

/// A symcache as handed to every caller of its key: never changed once built.
#[derive(Clone, Debug)]
pub struct SymCacheFile {
    pub object_type: ObjectType,
    pub identifier: ObjectId,
    pub scope: Scope,
    pub data: Vec<u8>,
    pub features: ObjectFeatures,
    pub status: CacheStatus,
    /// The architecture, by the numeric code that symbolic's `Arch` uses.
    pub arch: u32,
}

impl SymCacheFile {
    /// Opens the symcache: nothing for a negative entry, an error for a malformed
    /// one, and the SymCache bytes for a positive one whose header reads.
    pub fn parse(&self) -> (r: Result<Option<&[u8]>, ParseError>)
        ensures
            r matches Ok(Some(b)) ==> parse_spec(self.status, self.data@) == Ok::<
                Option<Seq<u8>>,
                ParseError,
            >(Some(b@)),
            r matches Ok(None) ==> parse_spec(self.status, self.data@) == Ok::<
                Option<Seq<u8>>,
                ParseError,
            >(None),
            r matches Err(e) ==> parse_spec(self.status, self.data@) == Err::<
                Option<Seq<u8>>,
                ParseError,
            >(e),
    {
        match self.status {
            CacheStatus::Negative => Ok(None),
            CacheStatus::Malformed => Err(ParseError::MalformedObject),
            CacheStatus::Positive => {
                let bytes = self.data.as_slice();
                match read_header(bytes) {
                    Some(_) => Ok(Some(bytes)),
                    None => Err(ParseError::InvalidSymCache),
                }
            },
        }
    }

    /// The architecture of this symcache, by symbolic's numeric code.
    pub fn arch(&self) -> (r: u32)
        ensures
            r == self.arch,
    {
        self.arch
    }

    /// The features of the object file this symcache was built from.
    pub fn features(&self) -> (r: ObjectFeatures)
        ensures
            r == self.features,
    {
        self.features
    }
}

/// A fetch request together with the object that resolving it found.
pub struct FetchSymCacheInternal {
    pub request: FetchSymCache,
    pub object_meta: ObjectMeta,
}

impl FetchSymCacheInternal {
    /// The key is the resolved object's own: resolution may canonicalize the
    /// requested identifier.
    pub fn get_cache_key(&self) -> (r: CacheKey)
        ensures
            r@ == self.object_meta.cache_key@,
    {
        self.object_meta.cache_key.copy_key()
    }

    /// Settles the conversion of the fetched object. An object that was not found
    /// or is malformed keeps its status; one that could not be parsed or converted
    /// (`converted` is `None`) becomes `Malformed`; a converted one is `Positive`,
    /// with the SymCache's bytes. Parsing and converting run on a worker, which
    /// hands the outcome in.
    pub fn compute(&self, object_status: CacheStatus, converted: Option<Vec<u8>>) -> (r: ComputeResult)
        ensures
            (r.status, r.data@) == conversion_spec(object_status, bytes_of(converted)),
    {
        if object_status != CacheStatus::Positive {
            return ComputeResult { status: object_status, data: Vec::new() };
        }
        match converted {
            Some(b) => ComputeResult { status: CacheStatus::Positive, data: b },
            None => ComputeResult { status: CacheStatus::Malformed, data: Vec::new() },
        }
    }

    /// Whether persisted bytes can be used as they are: only a SymCache of the
    /// latest format revision can.
    pub fn should_load(&self, data: &[u8]) -> (r: bool)
        ensures
            r == fresh_spec(data@),
            data@.len() == 0 ==> !r,
    {
        is_fresh(read_header(data))
    }

    /// Builds the shared result from bytes that are known to be current, taking
    /// the architecture from their header and the features from the object.
    pub fn load(&self, scope: Scope, status: CacheStatus, data: Vec<u8>) -> (r: SymCacheFile)
        ensures
            r.object_type == self.request.object_type,
            r.identifier.view() == self.request.identifier.view(),
            r.scope.view() == scope.view(),
            r.data@ == data@,
            r.features == self.object_meta.features,
            r.status == status,
            r.arch == arch_spec(symcache_header(data@)),
    {
        let arch = arch_of(read_header(data.as_slice()));
        SymCacheFile {
            object_type: self.request.object_type,
            identifier: self.request.identifier.copy_id(),
            scope,
            data,
            features: self.object_meta.features,
            status,
            arch,
        }
    }
}

/// Whether a read header names the latest format revision.
pub fn is_fresh(header: Option<(bool, u32)>) -> (r: bool)
    ensures
        r == (header matches Some((latest, _)) && latest),
{
    match header {
        Some((latest, _)) => latest,
        None => false,
    }
}

/// The architecture code of a read header; zero (unknown) where none was read.
pub fn arch_of(header: Option<(bool, u32)>) -> (r: u32)
    ensures
        r == arch_spec(header),
{
    match header {
        Some((_, arch)) => arch,
        None => 0,
    }
}

/// What a fetch does once its object has been looked for.
pub enum FetchStep {
    /// The result is known without the engine.
    Ready(SymCacheFile),
    /// Hand this request to the memoizing engine.
    Memoize(FetchSymCacheInternal),
    /// Resolving the object failed; nothing is cached.
    Failed(FetchError),
}

/// What the engine does with what the persistent store held for a key.
pub enum LookupStep {
    /// The stored bytes are reused: hand this result to this many waiters.
    Publish(SymCacheFile, u64),
    /// Nothing reusable was stored: run the conversion.
    Compute,
}

/// Fetches symcaches: resolves objects, then converts each through the memoizing
/// engine on the bounded worker pool.
pub struct SymCacheActor {
    pub symcaches: Cacher,
    pub threadpool: ThreadPool,
}

impl SymCacheActor {
    pub open spec fn wf(&self) -> bool {
        self.symcaches.wf() && self.threadpool.wf()
    }

    pub fn new(cache: Cache, threadpool: ThreadPool) -> (r: SymCacheActor)
        requires
            threadpool.wf(),
        ensures
            r.wf(),
            r.symcaches@ == Map::<crate::cache::KeyView, (crate::cacher::Phase, nat)>::empty(),
            r.threadpool == threadpool,
            r.symcaches.cache_of() == cache,
    {
        SymCacheActor { symcaches: Cacher::new(cache), threadpool }
    }

    /// Settles the lookup of `internal`'s key in the persistent store: entries that
    /// may be reused are loaded and published, anything else starts a conversion.
    pub fn on_lookup(&mut self, internal: &FetchSymCacheInternal, stored: Option<StoredEntry>) -> (r: LookupStep)
        requires
            old(self).wf(),
            old(self).symcaches@.contains_key(internal.object_meta.cache_key@),
            old(self).symcaches@[internal.object_meta.cache_key@].0 == Phase::Lookup,
        ensures
            final(self).wf(),
            final(self).threadpool == old(self).threadpool,
            ({
                let k = internal.object_meta.cache_key@;
                let st = match stored {
                    Some(e) => Some(e.status),
                    None => None,
                };
                let header = match stored {
                    Some(e) => symcache_header(e.data@),
                    None => None,
                };
                if lookup_spec(st, header) == Lookup::Load {
                    &&& r matches LookupStep::Publish(f, n) && stored matches Some(e)
                        && f.status == e.status && f.data@ == e.data@
                        && f.scope.view() == internal.request.scope.view()
                        && n as nat == old(self).symcaches@[k].1
                    &&& final(self).symcaches@ == old(self).symcaches@.remove(k)
                } else {
                    &&& r matches LookupStep::Compute
                    &&& final(self).symcaches@ == old(self).symcaches@.insert(
                        k,
                        (Phase::Computing, old(self).symcaches@[k].1),
                    )
                }
            }),
    {
        let key = internal.get_cache_key();
        match stored {
            Some(entry) => {
                let header = read_header(entry.data.as_slice());
                match decide_lookup(Some(entry.status), header) {
                    Lookup::Load => {
                        let waiters = self.symcaches.loaded(&key);
                        let file = internal.load(internal.request.scope.copy_scope(), entry.status, entry.data);
                        LookupStep::Publish(file, waiters)
                    },
                    Lookup::Compute => {
                        self.symcaches.start_compute(&key);
                        LookupStep::Compute
                    },
                }
            },
            None => {
                self.symcaches.start_compute(&key);
                LookupStep::Compute
            },
        }
    }

    /// Decides what a fetch does with the outcome of resolving its object: a
    /// resolution error is passed on, an object that was not found yields an empty
    /// negative symcache at once, and a found one goes to the engine.
    pub fn fetch(&self, request: FetchSymCache, found: Result<Option<ObjectMeta>, FetchError>) -> (r: FetchStep)
        ensures
            found matches Err(e) ==> r == FetchStep::Failed(e),
            found matches Ok(None) ==> r matches FetchStep::Ready(f) && f.status == CacheStatus::Negative
                && f.data@.len() == 0 && f.features.is_empty() && f.arch == 0
                && f.arch == arch_spec(symcache_header(f.data@))
                && f.object_type == request.object_type
                && f.identifier.view() == request.identifier.view()
                && f.scope.view() == request.scope.view(),
            found matches Ok(Some(meta)) ==> r matches FetchStep::Memoize(internal)
                && internal.request == request && internal.object_meta == meta,
    {
        match found {
            Err(e) => FetchStep::Failed(e),
            Ok(None) => {
                let data: Vec<u8> = Vec::new();
                let arch = arch_of(read_header(data.as_slice()));
                FetchStep::Ready(
                SymCacheFile {
                    object_type: request.object_type,
                    identifier: request.identifier.copy_id(),
                    scope: request.scope.copy_scope(),
                    data,
                    features: ObjectFeatures::none(),
                    status: CacheStatus::Negative,
                    arch,
                },
            )
            },
            Ok(Some(meta)) => FetchStep::Memoize(
                FetchSymCacheInternal { request, object_meta: meta },
            ),
        }
    }
}

} // verus!

verus! {

/// An object that resolution did not find yields a negative symcache without the
/// engine or a worker, and opening it yields nothing.
pub proof fn lemma_not_found_is_negative(f: SymCacheFile)
    requires
        f.status == CacheStatus::Negative,
    ensures
        parse_spec(f.status, f.data@) == Ok::<Option<Seq<u8>>, ParseError>(None),
{
}

/// An object that is found but cannot be parsed or converted ends as `Malformed`
/// with the empty placeholder; once persisted, that entry, whose bytes hold no
/// header, is reused by a later fetch of the key, so no conversion runs again, and
/// opening it is an error.
pub proof fn lemma_malformed_is_cached()
    ensures
        conversion_spec(CacheStatus::Positive, None) == (CacheStatus::Malformed, Seq::<u8>::empty()),
        lookup_spec(Some(CacheStatus::Malformed), None) == Lookup::Load,
        parse_spec(CacheStatus::Malformed, Seq::<u8>::empty()) == Err::<Option<Seq<u8>>, ParseError>(
            ParseError::MalformedObject,
        ),
{
}

/// Persisted bytes that hold a SymCache of an outdated format revision are computed
/// anew, whatever status is stored beside them; bytes of the latest revision are
/// loaded as they are.
pub proof fn lemma_stale_bytes_recomputed(status: CacheStatus, data: Seq<u8>)
    ensures
        symcache_header(data) matches Some((latest, _)) && !latest ==> lookup_spec(
            Some(status),
            symcache_header(data),
        ) == Lookup::Compute,
        fresh_spec(data) ==> lookup_spec(Some(status), symcache_header(data)) == Lookup::Load,
{
}

/// After a conversion succeeded and its bytes, of the latest format revision, were
/// persisted, a later fetch of the key loads those bytes without converting again,
/// and hands out the same bytes.
pub proof fn lemma_sequential_reuse(converted: Seq<u8>)
    requires
        fresh_spec(converted),
    ensures
        conversion_spec(CacheStatus::Positive, Some(converted)) == (CacheStatus::Positive, converted),
        lookup_spec(Some(CacheStatus::Positive), symcache_header(converted)) == Lookup::Load,
        parse_spec(CacheStatus::Positive, converted) == Ok::<Option<Seq<u8>>, ParseError>(
            Some(converted),
        ),
{
}

} // verus!
