use crate::cache::{Cache, CacheKey, CacheStatus, FetchError, KeyView};
use vstd::prelude::*;

verus! {

/// What a request for a key is told to do.
#[derive(Clone, Copy, Debug, PartialEq, Eq, Structural)]
pub enum Admission {
    /// No computation for the key is under way: this request runs it.
    Start,
    /// A computation for the key is under way: wait for its result.
    Join,
}

/// How far the computation of an in-flight key has come.
#[derive(Clone, Copy, Debug, PartialEq, Eq, Structural)]
pub enum Phase {
    /// The persistent store is being read.
    Lookup,
    /// The artifact is being computed.
    Computing,
    /// The artifact is being committed to the persistent store.
    Committing,
}

/// Whether persisted bytes are reused or the artifact is computed.
#[derive(Clone, Copy, Debug, PartialEq, Eq, Structural)]
pub enum Lookup {
    Load,
    Compute,
}

/// How a computation ended.
#[derive(Clone, Copy, Debug, PartialEq, Eq, Structural)]
pub enum ComputeOutcome {
    /// It produced a terminal status (and, for `Positive`, bytes).
    Finished(CacheStatus),
    /// It failed for a reason of the infrastructure.
    Failed(FetchError),
}

/// What the engine asks for once a computation or a commit has ended.
#[derive(Clone, Copy, Debug, PartialEq, Eq, Structural)]
pub enum Settlement {
    /// Commit the bytes to the persistent store, then report back.
    Commit,
    /// Hand the committed result to this many waiters.
    Publish(u64),
    /// Hand this error to this many waiters; nothing is persisted.
    Fail(FetchError, u64),
}

/// Bytes found in the persistent store, with the status stored beside them.
pub struct StoredEntry {
    pub status: CacheStatus,
    pub data: Vec<u8>,
}

/// An in-flight computation: its key, its phase and how many requests wait on it.
pub struct Pending {
    pub key: CacheKey,
    pub phase: Phase,
    pub waiters: u64,
}

/// The in-flight table as a map from key to phase and number of waiters.
pub type InFlight = Map<KeyView, (Phase, nat)>;

pub open spec fn admission_spec(m: InFlight, k: KeyView) -> (InFlight, Admission) {
    if m.contains_key(k) {
        (m.insert(k, (m[k].0, m[k].1 + 1)), Admission::Join)
    } else {
        (m.insert(k, (Phase::Lookup, 1)), Admission::Start)
    }
}

pub open spec fn finish_spec(m: InFlight, k: KeyView, outcome: ComputeOutcome) -> (
    InFlight,
    Settlement,
) {
    match outcome {
        ComputeOutcome::Finished(_) => (
            m.insert(k, (Phase::Committing, m[k].1)),
            Settlement::Commit,
        ),
        ComputeOutcome::Failed(e) => (m.remove(k), Settlement::Fail(e, m[k].1 as u64)),
    }
}

pub open spec fn commit_spec(m: InFlight, k: KeyView, written: Result<(), FetchError>) -> (
    InFlight,
    Settlement,
) {
    match written {
        Ok(()) => (m.remove(k), Settlement::Publish(m[k].1 as u64)),
        Err(e) => (m.remove(k), Settlement::Fail(e, m[k].1 as u64)),
    }
}

/// Persisted bytes are reused when the header read from them names the latest
/// format revision. A negative or malformed entry whose bytes hold no header at all
/// (its placeholder) has no artifact that could go stale, and is reused as well.
/// Anything else is computed anew.
pub open spec fn lookup_spec(stored: Option<CacheStatus>, header: Option<(bool, u32)>) -> Lookup {
    match stored {
        None => Lookup::Compute,
        Some(status) => if (header matches Some((latest, _)) && latest) || (status
            != CacheStatus::Positive && header is None) {
            Lookup::Load
        } else {
            Lookup::Compute
        },
    }
}

/// Decides between reusing persisted bytes and computing, from the status stored
/// beside them and the header read from them.
pub fn decide_lookup(stored: Option<CacheStatus>, header: Option<(bool, u32)>) -> (r: Lookup)
    ensures
        r == lookup_spec(stored, header),
{
    match stored {
        None => Lookup::Compute,
        Some(status) => {
            let latest = match header {
                Some((latest, _)) => latest,
                None => false,
            };
            if latest || (status != CacheStatus::Positive && header.is_none()) {
                Lookup::Load
            } else {
                Lookup::Compute
            }
        },
    }
}

/// The memoizing engine's in-memory state: one entry per key under computation.
pub struct Cacher {
    cache: Cache,
    pending: Vec<Pending>,
    model: Ghost<InFlight>,
}

impl Cacher {
    pub closed spec fn view(&self) -> InFlight {
        self.model@
    }

    /// The persistent store this engine computes for.
    pub closed spec fn cache_of(&self) -> Cache {
        self.cache
    }

    pub fn cache(&self) -> (r: &Cache)
        ensures
            *r == self.cache_of(),
    {
        &self.cache
    }

    /// Every entry of the table stands in the model with its phase and waiters.
    pub closed spec fn entries_modelled(&self) -> bool {
        forall|i: int|
            0 <= i < self.pending@.len() ==> {
                &&& #[trigger] self.model@.contains_key(self.pending@[i].key@)
                &&& self.model@[self.pending@[i].key@] == (
                    self.pending@[i].phase,
                    self.pending@[i].waiters as nat,
                )
            }
    }

    /// Every key of the model has an entry in the table.
    pub closed spec fn model_covered(&self) -> bool {
        forall|k: KeyView|
            #[trigger] self.model@.contains_key(k) ==> exists|i: int|
                0 <= i < self.pending@.len() && #[trigger] self.pending@[i].key@ == k
    }

    /// No key has two entries.
    pub closed spec fn keys_distinct(&self) -> bool {
        forall|i: int, j: int|
            0 <= i < self.pending@.len() && 0 <= j < self.pending@.len() && i != j
                ==> self.pending@[i].key@ != self.pending@[j].key@
    }

    pub closed spec fn wf(&self) -> bool {
        &&& self.entries_modelled()
        &&& self.model_covered()
        &&& self.keys_distinct()
    }

    pub fn new(cache: Cache) -> (r: Cacher)
        ensures
            r.wf(),
            r@ == Map::<KeyView, (Phase, nat)>::empty(),
            r.cache_of() == cache,
    {
        Cacher { cache, pending: Vec::new(), model: Ghost(Map::empty()) }
    }

    fn find(&self, key: &CacheKey) -> (r: Option<usize>)
        requires
            self.wf(),
        ensures
            r is Some <==> self@.contains_key(key@),
            r matches Some(i) ==> i < self.pending@.len() && self.pending@[i as int].key@ == key@,
    {
        let mut i: usize = 0;
        while i < self.pending.len()
            invariant
                self.wf(),
                i <= self.pending@.len(),
                forall|j: int| 0 <= j < i ==> self.pending@[j].key@ != key@,
            decreases self.pending@.len() - i,
        {
            if self.pending[i].key.same_key(key) {
                return Some(i);
            }
            i = i + 1;
        }
        proof {
            if self@.contains_key(key@) {
                let j = choose|j: int| 0 <= j < self.pending@.len() && #[trigger] self.pending@[j].key@ == key@;
                assert(self.pending@[j].key@ == key@);
            }
        }
        None
    }

    /// Whether one more request for `key` can be counted.
    pub fn admits(&self, key: &CacheKey) -> (r: bool)
        requires
            self.wf(),
        ensures
            r == (self@.contains_key(key@) ==> self@[key@].1 < u64::MAX),
    {
        match self.find(key) {
            None => true,
            Some(i) => self.pending[i].waiters < u64::MAX,
        }
    }

    /// The phase of the computation for `key`, if one is under way.
    pub fn phase_of(&self, key: &CacheKey) -> (r: Option<Phase>)
        requires
            self.wf(),
        ensures
            r is Some <==> self@.contains_key(key@),
            r matches Some(p) ==> p == self@[key@].0,
    {
        match self.find(key) {
            None => None,
            Some(i) => Some(self.pending[i].phase),
        }
    }
    /// Replaces the entry at `i`, which holds `key`, by one with `phase` and `waiters`.
    fn replace_at(&mut self, i: usize, key: &CacheKey, phase: Phase, waiters: u64)
        requires
            old(self).wf(),
            i < old(self).pending@.len(),
            old(self).pending@[i as int].key@ == key@,
        ensures
            final(self).wf(),
            final(self).cache_of() == old(self).cache_of(),
            final(self)@ == old(self)@.insert(key@, (phase, waiters as nat)),
    {
        let ghost k = key@;
        let p = Pending { key: key.copy_key(), phase, waiters };
        self.pending.set(i, p);
        self.model = Ghost(self.model@.insert(k, (phase, waiters as nat)));
        proof {
            assert forall|j: int| 0 <= j < self.pending@.len() implies
                self.pending@[j].key@ == old(self).pending@[j].key@ by {}
            assert forall|a: int, b: int|
                0 <= a < self.pending@.len() && 0 <= b < self.pending@.len() && a != b implies
                self.pending@[a].key@ != self.pending@[b].key@ by {
                assert(self.pending@[a].key@ == old(self).pending@[a].key@);
                assert(self.pending@[b].key@ == old(self).pending@[b].key@);
            }
            assert forall|j: int| 0 <= j < self.pending@.len() implies
                #[trigger] self.model@.contains_key(self.pending@[j].key@)
                && self.model@[self.pending@[j].key@] == (self.pending@[j].phase, self.pending@[j].waiters as nat) by {
                if j != i {
                    assert(self.pending@[j] == old(self).pending@[j]);
                    assert(old(self).model@.contains_key(old(self).pending@[j].key@));
                    assert(old(self).pending@[j].key@ != k);
                }
            }
            assert forall|k2: KeyView| #[trigger] self.model@.contains_key(k2) implies exists|j: int|
                0 <= j < self.pending@.len() && #[trigger] self.pending@[j].key@ == k2 by {
                if k2 == k {
                    assert(self.pending@[i as int].key@ == k2);
                } else {
                    assert(old(self).model@.contains_key(k2));
                    let j = choose|j: int| 0 <= j < old(self).pending@.len() && #[trigger] old(self).pending@[j].key@ == k2;
                    assert(self.pending@[j].key@ == k2);
                }
            }
        }
    }

    /// Counts a request for `key`: the first one starts the computation, every
    /// later one while it is under way joins it.
    pub fn begin(&mut self, key: &CacheKey) -> (r: Admission)
        requires
            old(self).wf(),
            old(self)@.contains_key(key@) ==> old(self)@[key@].1 < u64::MAX,
        ensures
            final(self).wf(),
            final(self).cache_of() == old(self).cache_of(),
            (final(self)@, r) == admission_spec(old(self)@, key@),
    {
        match self.find(key) {
            Some(i) => {
                let w = self.pending[i].waiters;
                let ph = self.pending[i].phase;
                self.replace_at(i, key, ph, w + 1);
                Admission::Join
            },
            None => {
                let ghost k = key@;
                let p = Pending { key: key.copy_key(), phase: Phase::Lookup, waiters: 1 };
                self.pending.push(p);
                self.model = Ghost(self.model@.insert(k, (Phase::Lookup, 1)));
                proof {
                    let n = self.pending@.len() - 1;
                    assert forall|j: int| 0 <= j < n implies old(self).pending@[j].key@ != k by {
                        assert(old(self).model@.contains_key(old(self).pending@[j].key@));
                    }
                    assert forall|j: int| 0 <= j < self.pending@.len() implies
                        #[trigger] self.model@.contains_key(self.pending@[j].key@)
                        && self.model@[self.pending@[j].key@] == (self.pending@[j].phase, self.pending@[j].waiters as nat) by {
                        if j < n {
                            assert(self.pending@[j] == old(self).pending@[j]);
                            assert(old(self).model@.contains_key(old(self).pending@[j].key@));
                        }
                    }
                    assert forall|a: int, b: int|
                        0 <= a < self.pending@.len() && 0 <= b < self.pending@.len() && a != b implies
                        self.pending@[a].key@ != self.pending@[b].key@ by {
                        if a < n {
                            assert(self.pending@[a] == old(self).pending@[a]);
                        }
                        if b < n {
                            assert(self.pending@[b] == old(self).pending@[b]);
                        }
                    }
                    assert forall|k2: KeyView| #[trigger] self.model@.contains_key(k2) implies exists|j: int|
                        0 <= j < self.pending@.len() && #[trigger] self.pending@[j].key@ == k2 by {
                        if k2 == k {
                            assert(self.pending@[n].key@ == k2);
                        } else {
                            assert(old(self).model@.contains_key(k2));
                            let j = choose|j: int| 0 <= j < old(self).pending@.len() && #[trigger] old(self).pending@[j].key@ == k2;
                            assert(self.pending@[j].key@ == k2);
                        }
                    }
                }
                Admission::Start
            },
        }
    }

    /// Moves the entry for `key` to `phase`, keeping its waiters.
    fn set_phase(&mut self, key: &CacheKey, phase: Phase)
        requires
            old(self).wf(),
            old(self)@.contains_key(key@),
        ensures
            final(self).wf(),
            final(self).cache_of() == old(self).cache_of(),
            final(self)@ == old(self)@.insert(key@, (phase, old(self)@[key@].1)),
    {
        let i = self.find(key).unwrap();
        let w = self.pending[i].waiters;
        self.replace_at(i, key, phase, w);
    }

    /// Removes the entry for `key` and returns how many requests waited on it.
    fn settle(&mut self, key: &CacheKey) -> (r: u64)
        requires
            old(self).wf(),
            old(self)@.contains_key(key@),
        ensures
            final(self).wf(),
            final(self).cache_of() == old(self).cache_of(),
            final(self)@ == old(self)@.remove(key@),
            r as nat == old(self)@[key@].1,
    {
        let i = self.find(key).unwrap();
        let ghost k = key@;
        let removed = self.pending.remove(i);
        self.model = Ghost(self.model@.remove(k));
        proof {
            assert forall|j: int| 0 <= j < self.pending@.len() implies
                #[trigger] self.model@.contains_key(self.pending@[j].key@)
                && self.model@[self.pending@[j].key@] == (self.pending@[j].phase, self.pending@[j].waiters as nat) by {
                let oj = if j < i { j } else { j + 1 };
                assert(self.pending@[j] == old(self).pending@[oj]);
                assert(oj != i);
                assert(old(self).model@.contains_key(old(self).pending@[oj].key@));
                assert(old(self).pending@[oj].key@ != k);
            }
            assert forall|k2: KeyView| #[trigger] self.model@.contains_key(k2) implies exists|j: int|
                0 <= j < self.pending@.len() && #[trigger] self.pending@[j].key@ == k2 by {
                assert(old(self).model@.contains_key(k2));
                let oj = choose|j: int| 0 <= j < old(self).pending@.len() && #[trigger] old(self).pending@[j].key@ == k2;
                assert(oj != i);
                let j = if oj < i { oj } else { oj - 1 };
                assert(self.pending@[j] == old(self).pending@[oj]);
            }
            assert forall|a: int, b: int|
                0 <= a < self.pending@.len() && 0 <= b < self.pending@.len() && a != b implies
                self.pending@[a].key@ != self.pending@[b].key@ by {
                let oa = if a < i { a } else { a + 1 };
                let ob = if b < i { b } else { b + 1 };
                assert(self.pending@[a] == old(self).pending@[oa]);
                assert(self.pending@[b] == old(self).pending@[ob]);
            }
        }
        removed.waiters
    }

    /// The lookup for `key` found nothing reusable: its computation starts.
    pub fn start_compute(&mut self, key: &CacheKey)
        requires
            old(self).wf(),
            old(self)@.contains_key(key@),
            old(self)@[key@].0 == Phase::Lookup,
        ensures
            final(self).wf(),
            final(self).cache_of() == old(self).cache_of(),
            final(self)@ == old(self)@.insert(key@, (Phase::Computing, old(self)@[key@].1)),
    {
        self.set_phase(key, Phase::Computing);
    }

    /// The lookup for `key` found reusable bytes: the entry is settled and the
    /// loaded result goes to the returned number of waiters.
    pub fn loaded(&mut self, key: &CacheKey) -> (r: u64)
        requires
            old(self).wf(),
            old(self)@.contains_key(key@),
            old(self)@[key@].0 == Phase::Lookup,
        ensures
            final(self).wf(),
            final(self).cache_of() == old(self).cache_of(),
            final(self)@ == old(self)@.remove(key@),
            r as nat == old(self)@[key@].1,
    {
        self.settle(key)
    }

    /// The computation for `key` ended. A terminal status goes on to be committed
    /// before anyone sees it; a failure reaches every waiter and is not persisted.
    pub fn finish(&mut self, key: &CacheKey, outcome: ComputeOutcome) -> (r: Settlement)
        requires
            old(self).wf(),
            old(self)@.contains_key(key@),
            old(self)@[key@].0 == Phase::Computing,
        ensures
            final(self).wf(),
            final(self).cache_of() == old(self).cache_of(),
            (final(self)@, r) == finish_spec(old(self)@, key@, outcome),
    {
        match outcome {
            ComputeOutcome::Finished(_) => {
                self.set_phase(key, Phase::Committing);
                Settlement::Commit
            },
            ComputeOutcome::Failed(e) => {
                let w = self.settle(key);
                Settlement::Fail(e, w)
            },
        }
    }

    /// The commit for `key` ended: on success the result is published to every
    /// waiter, otherwise the write error is.
    pub fn committed(&mut self, key: &CacheKey, written: Result<(), FetchError>) -> (r: Settlement)
        requires
            old(self).wf(),
            old(self)@.contains_key(key@),
            old(self)@[key@].0 == Phase::Committing,
        ensures
            final(self).wf(),
            final(self).cache_of() == old(self).cache_of(),
            (final(self)@, r) == commit_spec(old(self)@, key@, written),
    {
        let w = self.settle(key);
        match written {
            Ok(()) => Settlement::Publish(w),
            Err(e) => Settlement::Fail(e, w),
        }
    }
}

} // verus!

verus! {

/// The in-flight table after `n` requests for `k`, and how many of them started a
/// computation.
pub open spec fn admit_many(m: InFlight, k: KeyView, n: nat) -> (InFlight, nat)
    decreases n,
{
    if n == 0 {
        (m, 0)
    } else {
        let (m1, starts) = admit_many(m, k, (n - 1) as nat);
        let (m2, a) = admission_spec(m1, k);
        (m2, starts + if a == Admission::Start { 1nat } else { 0nat })
    }
}

/// Of any number of requests for one key that arrive while no computation for it is
/// in flight and before one settles, exactly one starts the computation; the others
/// join it, and all of them are counted as waiters of that single computation.
pub proof fn lemma_single_flight(m: InFlight, k: KeyView, n: nat)
    requires
        !m.contains_key(k),
        n >= 1,
    ensures
        admit_many(m, k, n).1 == 1,
        admit_many(m, k, n).0.contains_key(k),
        admit_many(m, k, n).0[k] == (Phase::Lookup, n),
    decreases n,
{
    if n > 1 {
        lemma_single_flight(m, k, (n - 1) as nat);
    } else {
        assert(admit_many(m, k, 0) == (m, 0nat));
    }
}

/// A request for a key whose computation is under way, in whatever phase, joins it
/// and leaves the phase as it was.
pub proof fn lemma_join_in_flight(m: InFlight, k: KeyView)
    requires
        m.contains_key(k),
    ensures
        admission_spec(m, k).1 == Admission::Join,
        admission_spec(m, k).0[k] == (m[k].0, m[k].1 + 1),
{
}

/// A computation that failed, by a timeout among others, commits nothing: every
/// waiter gets the error, and the key is free again, so the next request starts a
/// fresh attempt.
pub proof fn lemma_failure_not_persisted(m: InFlight, k: KeyView, e: FetchError)
    requires
        m.contains_key(k),
        m[k].0 == Phase::Computing,
    ensures
        finish_spec(m, k, ComputeOutcome::Failed(e)).1 == Settlement::Fail(e, m[k].1 as u64),
        !finish_spec(m, k, ComputeOutcome::Failed(e)).0.contains_key(k),
        admission_spec(finish_spec(m, k, ComputeOutcome::Failed(e)).0, k).1 == Admission::Start,
{
}

/// A computation that produced a status is not published when it finishes: the key
/// stays in flight until the commit of its bytes has ended, and only a successful
/// commit publishes it, to every waiter.
pub proof fn lemma_commit_before_publish(
    m: InFlight,
    k: KeyView,
    status: CacheStatus,
    written: Result<(), FetchError>,
)
    requires
        m.contains_key(k),
        m[k].0 == Phase::Computing,
    ensures
        finish_spec(m, k, ComputeOutcome::Finished(status)).1 == Settlement::Commit,
        finish_spec(m, k, ComputeOutcome::Finished(status)).0[k] == (Phase::Committing, m[k].1),
        commit_spec(finish_spec(m, k, ComputeOutcome::Finished(status)).0, k, written).1
            == (match written {
            Ok(()) => Settlement::Publish(m[k].1 as u64),
            Err(e) => Settlement::Fail(e, m[k].1 as u64),
        }),
{
}

/// Stored bytes of the latest format revision are reused whatever status stands
/// beside them, and so is a negative or malformed placeholder; bytes of an outdated
/// revision are computed anew whatever status stands beside them, and so is a
/// positive entry without a readable header and an empty store.
pub proof fn lemma_lookup_reuse(status: CacheStatus, arch: u32)
    ensures
        lookup_spec(Some(status), Some((true, arch))) == Lookup::Load,
        status != CacheStatus::Positive ==> lookup_spec(Some(status), None) == Lookup::Load,
        lookup_spec(Some(status), Some((false, arch))) == Lookup::Compute,
        lookup_spec(Some(CacheStatus::Positive), None) == Lookup::Compute,
        lookup_spec(None, Some((true, arch))) == Lookup::Compute,
{
}

} // verus!
