use symcaches::cacher::decide_lookup;
use symcaches::offload::{job_outcome, SYMCACHE_TIMEOUT_SECS};
use symcaches::symcaches::{arch_of, is_fresh};
use symcaches::{
    Admission, Cache, CacheKey, CacheStatus, Cacher, ComputeOutcome, FetchError, FetchStep,
    FetchSymCache, FetchSymCacheInternal, JobEvent, Lookup, LookupStep, ObjectFeatures, ObjectId,
    ObjectMeta, ObjectType, ParseError, Phase, Scope, Settlement, StoredEntry, Submission,
    SymCacheActor, ThreadPool,
};

fn key(name: &str, scope: &str) -> CacheKey {
    CacheKey { cache_key: name.to_string(), scope: Scope::Scoped(scope.to_string()) }
}

fn request(object_type: ObjectType, sources: &[&str]) -> FetchSymCache {
    FetchSymCache {
        object_type,
        identifier: ObjectId {
            code_id: None,
            code_file: None,
            debug_id: Some("X".to_string()),
            debug_file: None,
        },
        sources: sources.iter().map(|s| s.to_string()).collect(),
        scope: Scope::Scoped("S".to_string()),
    }
}

fn features() -> ObjectFeatures {
    ObjectFeatures { has_debug_info: true, has_unwind_info: false, has_symbols: true, has_sources: false }
}

fn internal(object_type: ObjectType, sources: &[&str]) -> FetchSymCacheInternal {
    FetchSymCacheInternal {
        request: request(object_type, sources),
        object_meta: ObjectMeta { cache_key: key("macho/X", "S"), features: features() },
    }
}

/// A SymCache header with the given format revision and architecture code.
fn header(version: u32, arch: u32) -> Vec<u8> {
    let mut b = vec![0u8; 128];
    b[0..4].copy_from_slice(b"SYMC");
    b[4..8].copy_from_slice(&version.to_le_bytes());
    b[40..44].copy_from_slice(&arch.to_le_bytes());
    b
}

/// Parses and converts an object the way a worker does.
fn convert(object: &[u8]) -> Option<Vec<u8>> {
    let object = symbolic::debuginfo::Object::parse(object).ok()?;
    let target = std::io::Cursor::new(Vec::new());
    symbolic::symcache::SymCacheWriter::write_object(&object, target).ok().map(|c| c.into_inner())
}

fn actor() -> SymCacheActor {
    SymCacheActor::new(Cache { name: "symcaches".to_string() }, ThreadPool::new(2))
}

#[test]
fn concurrent_fetches_share_one_computation() {
    let mut cacher = Cacher::new(Cache { name: "symcaches".to_string() });
    let k = key("abc", "S");
    assert_eq!(cacher.begin(&k), Admission::Start);
    assert_eq!(cacher.begin(&k), Admission::Join);
    assert_eq!(cacher.begin(&k), Admission::Join);
    assert_eq!(cacher.phase_of(&k), Some(Phase::Lookup));
    cacher.start_compute(&k);
    assert_eq!(cacher.begin(&k), Admission::Join);
    assert_eq!(cacher.phase_of(&k), Some(Phase::Computing));
    assert_eq!(cacher.finish(&k, ComputeOutcome::Finished(CacheStatus::Positive)), Settlement::Commit);
    assert_eq!(cacher.phase_of(&k), Some(Phase::Committing));
    assert_eq!(cacher.committed(&k, Ok(())), Settlement::Publish(4));
    assert_eq!(cacher.phase_of(&k), None);
    assert_eq!(cacher.begin(&k), Admission::Start);
}

#[test]
fn distinct_keys_and_scopes_compute_separately() {
    let mut cacher = Cacher::new(Cache { name: "symcaches".to_string() });
    assert_eq!(cacher.begin(&key("abc", "S")), Admission::Start);
    assert_eq!(cacher.begin(&key("abc", "T")), Admission::Start);
    assert_eq!(cacher.begin(&key("abd", "S")), Admission::Start);
    let global = CacheKey { cache_key: "abc".to_string(), scope: Scope::Global };
    assert_eq!(cacher.begin(&global), Admission::Start);
    assert_eq!(cacher.begin(&global), Admission::Join);
    assert!(cacher.admits(&global));
    assert_eq!(cacher.loaded(&global), 2);
    assert_eq!(cacher.loaded(&key("abc", "T")), 1);
    assert_eq!(cacher.phase_of(&key("abc", "S")), Some(Phase::Lookup));
}

#[test]
fn timeout_fails_waiters_and_persists_nothing() {
    let mut cacher = Cacher::new(Cache { name: "symcaches".to_string() });
    let k = key("slow", "S");
    cacher.begin(&k);
    cacher.begin(&k);
    cacher.start_compute(&k);
    let outcome = job_outcome(JobEvent::Deadline, SYMCACHE_TIMEOUT_SECS);
    assert_eq!(outcome, ComputeOutcome::Failed(FetchError::Timeout));
    assert_eq!(cacher.finish(&k, outcome), Settlement::Fail(FetchError::Timeout, 2));
    assert_eq!(cacher.phase_of(&k), None);
    assert_eq!(cacher.begin(&k), Admission::Start);
}

#[test]
fn job_outcomes() {
    assert_eq!(SYMCACHE_TIMEOUT_SECS, 1200);
    assert_eq!(
        job_outcome(JobEvent::Done(CacheStatus::Positive, 1200), 1200),
        ComputeOutcome::Finished(CacheStatus::Positive)
    );
    assert_eq!(
        job_outcome(JobEvent::Done(CacheStatus::Positive, 1201), 1200),
        ComputeOutcome::Failed(FetchError::Timeout)
    );
    assert_eq!(job_outcome(JobEvent::Dropped, 1200), ComputeOutcome::Failed(FetchError::Canceled));
    assert_eq!(
        job_outcome(JobEvent::Errored(FetchError::Io), 1200),
        ComputeOutcome::Failed(FetchError::Io)
    );
}

#[test]
fn failed_commit_reaches_every_waiter() {
    let mut cacher = Cacher::new(Cache { name: "symcaches".to_string() });
    let k = key("abc", "S");
    cacher.begin(&k);
    cacher.begin(&k);
    cacher.start_compute(&k);
    assert_eq!(cacher.finish(&k, ComputeOutcome::Finished(CacheStatus::Positive)), Settlement::Commit);
    assert_eq!(cacher.committed(&k, Err(FetchError::Io)), Settlement::Fail(FetchError::Io, 2));
    assert_eq!(cacher.phase_of(&k), None);
}

#[test]
fn not_found_is_negative_without_engine() {
    let a = actor();
    match a.fetch(request(ObjectType::Macho, &["A"]), Ok(None)) {
        FetchStep::Ready(f) => {
            assert_eq!(f.status, CacheStatus::Negative);
            assert!(f.data.is_empty());
            assert_eq!(f.parse(), Ok(None));
            assert_eq!(f.arch(), 0);
            assert_eq!(f.features(), ObjectFeatures::default());
            assert_eq!(f.object_type, ObjectType::Macho);
        }
        _ => panic!("expected a ready negative symcache"),
    }
    assert_eq!(a.threadpool.running(), 0);
}

#[test]
fn resolution_error_is_passed_on() {
    let a = actor();
    assert!(matches!(
        a.fetch(request(ObjectType::Elf, &["A"]), Err(FetchError::Resolution)),
        FetchStep::Failed(FetchError::Resolution)
    ));
}

#[test]
fn found_object_goes_to_engine() {
    let a = actor();
    let meta = ObjectMeta { cache_key: key("elf/X", "S"), features: features() };
    match a.fetch(request(ObjectType::Elf, &["A", "B"]), Ok(Some(meta))) {
        FetchStep::Memoize(i) => {
            assert_eq!(i.get_cache_key().cache_key, "elf/X");
            assert_eq!(i.request.sources.len(), 2);
        }
        _ => panic!("expected the engine"),
    }
}

#[test]
fn corrupt_object_is_malformed_and_cached() {
    let req = internal(ObjectType::Macho, &["A", "B"]);
    let r = req.compute(CacheStatus::Positive, convert(b"not an object file"));
    assert_eq!(r.status, CacheStatus::Malformed);
    assert!(r.data.is_empty());

    let mut a = actor();
    let k = req.get_cache_key();
    assert_eq!(a.symcaches.begin(&k), Admission::Start);
    let stored = StoredEntry { status: CacheStatus::Malformed, data: Vec::new() };
    match a.on_lookup(&req, Some(stored)) {
        LookupStep::Publish(f, n) => {
            assert_eq!(n, 1);
            assert_eq!(f.status, CacheStatus::Malformed);
            assert_eq!(f.parse(), Err(ParseError::MalformedObject));
        }
        LookupStep::Compute => panic!("a malformed entry is reused"),
    }
}

#[test]
fn macho_request_with_missing_and_corrupt_sources() {
    // Source A lacks the object; B serves a corrupt one. Resolution runs once and
    // hands over B's object; converting it fails once.
    let mut a = actor();
    let meta = ObjectMeta { cache_key: key("macho/X", "S"), features: features() };
    let step = a.fetch(request(ObjectType::Macho, &["A", "B"]), Ok(Some(meta)));
    let req = match step {
        FetchStep::Memoize(i) => i,
        _ => panic!("expected the engine"),
    };
    let k = req.get_cache_key();
    assert_eq!(a.symcaches.begin(&k), Admission::Start);
    assert!(matches!(a.on_lookup(&req, None), LookupStep::Compute));
    assert_eq!(a.threadpool.submit(), Submission::Run);
    let r = req.compute(CacheStatus::Positive, convert(&[0xfe, 0xed, 0xfa, 0xcf, 1, 2, 3]));
    assert_eq!(r.status, CacheStatus::Malformed);
    assert!(!a.threadpool.release());
    let outcome = job_outcome(JobEvent::Done(r.status, 3), SYMCACHE_TIMEOUT_SECS);
    assert_eq!(a.symcaches.finish(&k, outcome), Settlement::Commit);
    assert_eq!(a.symcaches.committed(&k, Ok(())), Settlement::Publish(1));
    let f = req.load(Scope::Scoped("S".to_string()), r.status, r.data);
    assert_eq!(f.status, CacheStatus::Malformed);
    assert_eq!(f.parse(), Err(ParseError::MalformedObject));
    assert_eq!(f.features(), features());
}

#[test]
fn unresolved_object_status_is_kept() {
    let req = internal(ObjectType::Elf, &["A"]);
    let r = req.compute(CacheStatus::Negative, Some(vec![1, 2]));
    assert_eq!(r.status, CacheStatus::Negative);
    assert!(r.data.is_empty());
    let r = req.compute(CacheStatus::Malformed, None);
    assert_eq!(r.status, CacheStatus::Malformed);
}

#[test]
fn freshness_follows_format_revision() {
    let req = internal(ObjectType::Elf, &["A"]);
    assert!(req.should_load(&header(5, 201)));
    assert!(!req.should_load(&header(4, 201)));
    assert!(!req.should_load(&header(1, 201)));
    assert!(!req.should_load(b""));
    assert!(!req.should_load(b"XXXX\x05\0\0\0"));
    assert!(!req.should_load(&header(6, 201)));
}

#[test]
fn stale_bytes_recompute_current_bytes_load() {
    let req = internal(ObjectType::Elf, &["A"]);
    let mut a = actor();
    let k = req.get_cache_key();
    a.symcaches.begin(&k);
    let stale = StoredEntry { status: CacheStatus::Positive, data: header(4, 201) };
    assert!(matches!(a.on_lookup(&req, Some(stale)), LookupStep::Compute));
    assert_eq!(a.symcaches.phase_of(&k), Some(Phase::Computing));

    let mut a = actor();
    a.symcaches.begin(&k);
    a.symcaches.begin(&k);
    let current = StoredEntry { status: CacheStatus::Positive, data: header(5, 201) };
    match a.on_lookup(&req, Some(current)) {
        LookupStep::Publish(f, n) => {
            assert_eq!(n, 2);
            assert_eq!(f.data, header(5, 201));
            assert_eq!(f.arch(), 201);
            assert_eq!(f.parse(), Ok(Some(&header(5, 201)[..])));
        }
        LookupStep::Compute => panic!("current bytes are reused"),
    }
    assert_eq!(a.symcaches.phase_of(&k), None);
}

#[test]
fn load_reads_architecture() {
    let req = internal(ObjectType::Elf, &["A"]);
    let f = req.load(Scope::Global, CacheStatus::Positive, header(5, 101));
    assert_eq!(f.arch(), 101);
    assert_eq!(f.features(), features());
    let f = req.load(Scope::Global, CacheStatus::Positive, b"junk".to_vec());
    assert_eq!(f.arch(), 0);
    assert_eq!(f.parse(), Err(ParseError::InvalidSymCache));
}

#[test]
fn lookup_decisions() {
    assert_eq!(decide_lookup(None, Some((true, 1))), Lookup::Compute);
    assert_eq!(decide_lookup(Some(CacheStatus::Negative), None), Lookup::Load);
    assert_eq!(decide_lookup(Some(CacheStatus::Malformed), None), Lookup::Load);
    assert_eq!(decide_lookup(Some(CacheStatus::Malformed), Some((false, 1))), Lookup::Compute);
    assert_eq!(decide_lookup(Some(CacheStatus::Positive), None), Lookup::Compute);
    assert_eq!(decide_lookup(Some(CacheStatus::Positive), Some((false, 1))), Lookup::Compute);
    assert_eq!(decide_lookup(Some(CacheStatus::Positive), Some((true, 1))), Lookup::Load);
    assert_eq!(decide_lookup(Some(CacheStatus::Negative), Some((true, 1))), Lookup::Load);
}

#[test]
fn stale_bytes_recompute_whatever_the_status() {
    let req = internal(ObjectType::Elf, &["A"]);
    let k = req.get_cache_key();
    let mut a = actor();
    a.symcaches.begin(&k);
    let stale = StoredEntry { status: CacheStatus::Malformed, data: header(4, 201) };
    assert!(matches!(a.on_lookup(&req, Some(stale)), LookupStep::Compute));

    let mut a = actor();
    a.symcaches.begin(&k);
    let current = StoredEntry { status: CacheStatus::Negative, data: header(5, 201) };
    match a.on_lookup(&req, Some(current)) {
        LookupStep::Publish(f, n) => {
            assert_eq!(n, 1);
            assert_eq!(f.status, CacheStatus::Negative);
            assert_eq!(f.data, header(5, 201));
        }
        LookupStep::Compute => panic!("current bytes are reused"),
    }
}

#[test]
fn conversion_results() {
    let req = internal(ObjectType::Elf, &["A"]);
    let r = req.compute(CacheStatus::Positive, Some(vec![1, 2, 3]));
    assert_eq!((r.status, r.data), (CacheStatus::Positive, vec![1, 2, 3]));
    let r = req.compute(CacheStatus::Positive, None);
    assert_eq!((r.status, r.data.len()), (CacheStatus::Malformed, 0));
    assert!(is_fresh(Some((true, 7))));
    assert!(!is_fresh(Some((false, 7))));
    assert!(!is_fresh(None));
    assert_eq!(arch_of(Some((false, 305))), 305);
    assert_eq!(arch_of(None), 0);
}

#[test]
fn worker_pool_queues_then_rejects_on_shutdown() {
    let mut pool = ThreadPool::new(1);
    assert_eq!(pool.capacity(), 1);
    assert_eq!(pool.submit(), Submission::Run);
    assert_eq!(pool.submit(), Submission::Queue);
    assert_eq!(pool.submit(), Submission::Queue);
    assert_eq!(pool.queued(), 2);
    assert!(pool.release());
    assert_eq!(pool.queued(), 1);
    assert_eq!(pool.running(), 1);
    pool.shut_down();
    assert_eq!(pool.submit(), Submission::Reject);
    assert!(pool.release());
    assert!(!pool.release());
    assert_eq!(pool.running(), 0);
    assert_eq!(ThreadPool::new(0).capacity(), 1);
}

#[test]
fn keys_compare_by_name_and_scope() {
    assert!(key("a", "S").same_key(&key("a", "S")));
    assert!(!key("a", "S").same_key(&key("a", "T")));
    assert!(!key("a", "S").same_key(&key("b", "S")));
    let g = CacheKey { cache_key: "a".to_string(), scope: Scope::Global };
    assert!(!g.same_key(&key("a", "S")));
    assert!(g.same_key(&g.copy_key()));
}
