//! The probe cache's persistable form.
//!
//! A device's probe result is immutable, so it only needs reading once per
//! device; persisting it lets a device keep its identity across restarts.
//! Only Bolt identities are persisted: they are keyed on the device's own
//! unit id, which no re-pairing can reassign. A Unifying slot key names
//! `receiver + slot`, which another device can take over while the agent is
//! down, and a direct key is an OS-runtime node id with no cross-boot
//! stability.

use vstd::prelude::*;

use crate::backend::NodeId;

verus! {

/// Version of the persisted shape; a snapshot of another version is
/// discarded, as re-probing is always correct.
pub const SCHEMA_VERSION: u32 = 3;

/// A probe-cache store could not keep a snapshot; carries only a message.
#[derive(Debug, Clone)]
pub struct ProbeCacheError(pub String);

impl ProbeCacheError {
    /// Report why a store could not keep a snapshot.
    pub fn new(reason: &str) -> (e: Self)
        ensures
            e.0@ == reason@,
    {
        ProbeCacheError(reason.to_string())
    }

    /// The message.
    pub fn to_string(&self) -> (s: String)
        ensures
            s@ == self.0@,
    {
        self.0.clone()
    }
}

/// The key a probe result is cached under.
#[derive(Debug, Clone)]
pub enum CacheKey {
    /// A Bolt device, by its own unit id.
    Bolt { unit_id: [u8; 4] },
    /// A Unifying device, by receiver and pairing slot.
    UnifyingSlot { receiver_uid: String, slot: u8 },
    /// A direct device, by OS node.
    Direct(NodeId),
}

/// The persistable subset of [`CacheKey`]: Bolt only.
#[derive(Debug, Clone, Copy, PartialEq, Eq)]
pub enum PersistedKey {
    /// A Bolt device, by its own unit id.
    Bolt { unit_id: [u8; 4] },
}

/// The persisted form of a cache key, if it has one.
pub open spec fn spec_persistable(key: CacheKey) -> Option<PersistedKey> {
    match key {
        CacheKey::Bolt { unit_id } => Some(PersistedKey::Bolt { unit_id }),
        _ => None,
    }
}

/// The persisted form of a cache key: Bolt keys only.
pub fn persistable(key: &CacheKey) -> (p: Option<PersistedKey>)
    ensures
        p == spec_persistable(*key),
{
    match key {
        CacheKey::Bolt { unit_id } => Some(PersistedKey::Bolt { unit_id: *unit_id }),
        _ => None,
    }
}

/// Whether a cache change under `key` affects the persisted snapshot at all.
pub fn is_persistable(key: &CacheKey) -> (b: bool)
    ensures
        b == spec_persistable(*key) is Some,
{
    persistable(key).is_some()
}

/// The runtime key of a persisted key.
pub open spec fn spec_runtime_key(key: PersistedKey) -> CacheKey {
    match key {
        PersistedKey::Bolt { unit_id } => CacheKey::Bolt { unit_id },
    }
}

/// The runtime key of a persisted key.
pub fn runtime_key(key: PersistedKey) -> (k: CacheKey)
    ensures
        k == spec_runtime_key(key),
{
    match key {
        PersistedKey::Bolt { unit_id } => CacheKey::Bolt { unit_id },
    }
}

/// A cached probe result: the immutable probe data `P` (model, feature
/// indexes, how the battery is read) and the battery reading `R` taken with
/// it, which is volatile and re-read live on every cache hit.
#[derive(Debug, Clone, Copy, PartialEq, Eq)]
pub struct Cached<P, R> {
    /// The immutable probe data.
    pub probe: P,
    /// The battery reading taken at probe time, if any.
    pub battery_reading: Option<R>,
}

/// The persistable subset of a probe cache: its schema version and its
/// entries, each a persisted key with the immutable probe data `P` only.
pub struct ProbeCacheSnapshot<P> {
    /// Schema version the snapshot was written with.
    pub version: u32,
    /// The persisted entries.
    pub entries: Vec<(PersistedKey, P)>,
}

/// The persisted entries of a cache: those under persistable keys, in order,
/// each with its immutable probe data and without its battery reading.
pub open spec fn persisted_entries<P, R>(cache: Seq<(CacheKey, Cached<P, R>)>) -> Seq<(PersistedKey, P)>
    decreases cache.len(),
{
    if cache.len() == 0 {
        Seq::empty()
    } else {
        let rest = persisted_entries(cache.drop_last());
        match spec_persistable(cache.last().0) {
            Some(k) => rest.push((k, cache.last().1.probe)),
            None => rest,
        }
    }
}

/// Whether no key occurs twice in a probe cache, as in the map it models.
pub open spec fn distinct_cache_keys<P, R>(cache: Seq<(CacheKey, Cached<P, R>)>) -> bool {
    forall|i: int, j: int| 0 <= i < j < cache.len() ==> (#[trigger] cache[i]).0 != (#[trigger] cache[j]).0
}

/// Whether no persisted key occurs twice in a snapshot.
pub open spec fn distinct_persisted_keys<P>(entries: Seq<(PersistedKey, P)>) -> bool {
    forall|i: int, j: int| 0 <= i < j < entries.len() ==> (#[trigger] entries[i]).0 != (#[trigger] entries[j]).0
}

/// Every persisted entry's key is the persisted form of some cache key, and
/// keys of distinct caches stay distinct.
proof fn lemma_persisted_keys<P, R>(cache: Seq<(CacheKey, Cached<P, R>)>)
    ensures
        forall|i: int| 0 <= i < persisted_entries(cache).len() ==> exists|j: int| 0 <= j < cache.len()
            && spec_persistable(cache[j].0) == Some(#[trigger] persisted_entries(cache)[i].0),
        distinct_cache_keys(cache) ==> distinct_persisted_keys(persisted_entries(cache)),
    decreases cache.len(),
{
    if cache.len() > 0 {
        let prev = cache.drop_last();
        lemma_persisted_keys(prev);
        let rest = persisted_entries(prev);
        assert forall|i: int| 0 <= i < rest.len() implies exists|j: int| 0 <= j < cache.len()
            && spec_persistable(cache[j].0) == Some(#[trigger] rest[i].0) by {
            let j = choose|j: int| 0 <= j < prev.len() && spec_persistable(prev[j].0) == Some(rest[i].0);
            assert(cache[j] == prev[j]);
        }
        if let Some(k) = spec_persistable(cache.last().0) {
            let all = rest.push((k, cache.last().1.probe));
            assert(spec_persistable(cache[cache.len() - 1].0) == Some(all[rest.len() as int].0));
            if distinct_cache_keys(cache) {
                assert(distinct_cache_keys(prev)) by {
                    assert forall|a: int, b: int| 0 <= a < b < prev.len() implies (#[trigger] prev[a]).0 != (#[trigger] prev[b]).0 by {
                        assert(prev[a] == cache[a] && prev[b] == cache[b]);
                    }
                }
                assert forall|a: int| 0 <= a < rest.len() implies (#[trigger] rest[a]).0 != k by {
                    let j = choose|j: int| 0 <= j < prev.len() && spec_persistable(prev[j].0) == Some(rest[a].0);
                    assert(cache[j] == prev[j]);
                    assert(cache[j].0 != cache[cache.len() - 1].0);
                }
                assert forall|a: int, b: int| 0 <= a < b < all.len() implies (#[trigger] all[a]).0 != (#[trigger] all[b]).0 by {
                    if b < rest.len() {
                        assert(all[a] == rest[a] && all[b] == rest[b]);
                    } else {
                        assert(all[a] == rest[a]);
                    }
                }
            }
        } else if distinct_cache_keys(cache) {
            assert forall|a: int, b: int| 0 <= a < b < prev.len() implies (#[trigger] prev[a]).0 != (#[trigger] prev[b]).0 by {
                assert(prev[a] == cache[a] && prev[b] == cache[b]);
            }
        }
    }
}

/// A cached entry as it comes back from a snapshot: its probe data, with no
/// battery reading.
pub open spec fn restored<P, R>(key: CacheKey, probe: P) -> (CacheKey, Cached<P, R>) {
    (key, Cached { probe, battery_reading: None })
}

/// The runtime entries of persisted ones.
pub open spec fn runtime_entries<P, R>(entries: Seq<(PersistedKey, P)>) -> Seq<(CacheKey, Cached<P, R>)> {
    entries.map_values(|e: (PersistedKey, P)| restored::<P, R>(spec_runtime_key(e.0), e.1))
}

impl<P: Copy> ProbeCacheSnapshot<P> {
    /// A snapshot carrying nothing: a cold start.
    pub fn empty() -> (s: Self)
        ensures
            s.version == SCHEMA_VERSION,
            s.entries@.len() == 0,
    {
        ProbeCacheSnapshot { version: SCHEMA_VERSION, entries: Vec::new() }
    }

    /// Whether this snapshot carries nothing.
    pub fn is_empty(&self) -> (b: bool)
        ensures
            b == (self.entries@.len() == 0),
    {
        self.entries.len() == 0
    }

    /// Everything in `cache` worth keeping across restarts: the entries
    /// under Bolt keys, at the current schema version. The battery reading
    /// is volatile and is dropped (persisting it would resurrect a stale
    /// value after a restart); the immutable probe data is kept.
    pub fn of<R: Copy>(cache: &[(CacheKey, Cached<P, R>)]) -> (s: Self)
        ensures
            s.version == SCHEMA_VERSION,
            s.entries@ == persisted_entries(cache@),
            distinct_cache_keys(cache@) ==> distinct_persisted_keys(s.entries@),
    {
        proof { lemma_persisted_keys(cache@); }
        let mut entries: Vec<(PersistedKey, P)> = Vec::new();
        let mut i: usize = 0;
        while i < cache.len()
            invariant
                i <= cache.len(),
                entries@ == persisted_entries(cache@.take(i as int)),
            decreases cache.len() - i,
        {
            proof {
                assert(cache@.take(i + 1).drop_last() =~= cache@.take(i as int));
                assert(cache@.take(i + 1).last() == cache@[i as int]);
            }
            let (key, value) = &cache[i];
            match persistable(key) {
                Some(k) => entries.push((k, value.probe)),
                None => {},
            }
            i += 1;
        }
        proof {
            assert(cache@.take(cache@.len() as int) =~= cache@);
        }
        ProbeCacheSnapshot { version: SCHEMA_VERSION, entries }
    }

    /// Fold this snapshot back into runtime cache entries, each without a
    /// battery reading; a snapshot of another schema version yields nothing.
    pub fn into_entries<R: Copy>(self) -> (r: Vec<(CacheKey, Cached<P, R>)>)
        ensures
            self.version != SCHEMA_VERSION ==> r@.len() == 0,
            self.version == SCHEMA_VERSION ==> r@ == runtime_entries::<P, R>(self.entries@),
            distinct_persisted_keys(self.entries@) ==> distinct_cache_keys(r@),
    {
        let mut out: Vec<(CacheKey, Cached<P, R>)> = Vec::new();
        if self.version != SCHEMA_VERSION {
            return out;
        }
        let mut i: usize = 0;
        while i < self.entries.len()
            invariant
                i <= self.entries.len(),
                out@ == runtime_entries::<P, R>(self.entries@.take(i as int)),
            decreases self.entries.len() - i,
        {
            let (key, value) = self.entries[i];
            out.push((runtime_key(key), Cached { probe: value, battery_reading: None }));
            proof {
                assert(runtime_entries::<P, R>(self.entries@.take(i + 1)) =~= runtime_entries::<P, R>(self.entries@.take(i as int)).push(restored::<P, R>(spec_runtime_key(key), value)));
            }
            i += 1;
        }
        proof {
            assert(self.entries@.take(self.entries@.len() as int) =~= self.entries@);
            if distinct_persisted_keys(self.entries@) {
                assert forall|a: int, b: int| 0 <= a < b < out@.len() implies (#[trigger] out@[a]).0 != (#[trigger] out@[b]).0 by {
                    assert(out@[a].0 == spec_runtime_key(self.entries@[a].0));
                    assert(out@[b].0 == spec_runtime_key(self.entries@[b].0));
                    assert(self.entries@[a].0 != self.entries@[b].0);
                }
            }
        }
        out
    }
}

/// Saving a cache and loading it back returns exactly its entries under
/// Bolt keys, in order, each under its original key with its probe data and
/// without its battery reading; nothing else comes back.
pub proof fn lemma_snapshot_round_trip<P, R>(cache: Seq<(CacheKey, Cached<P, R>)>)
    ensures
        runtime_entries::<P, R>(persisted_entries(cache))
            == cache.filter(|e: (CacheKey, Cached<P, R>)| e.0 is Bolt)
                .map_values(|e: (CacheKey, Cached<P, R>)| restored::<P, R>(e.0, e.1.probe)),
    decreases cache.len(),
{
    reveal(Seq::filter);
    let f = |e: (CacheKey, Cached<P, R>)| e.0 is Bolt;
    let g = |e: (CacheKey, Cached<P, R>)| restored::<P, R>(e.0, e.1.probe);
    if cache.len() > 0 {
        lemma_snapshot_round_trip(cache.drop_last());
        let rest = persisted_entries(cache.drop_last());
        let filtered = cache.drop_last().filter(f);
        if let Some(k) = spec_persistable(cache.last().0) {
            assert(runtime_entries::<P, R>(rest.push((k, cache.last().1.probe)))
                =~= runtime_entries::<P, R>(rest).push(restored::<P, R>(spec_runtime_key(k), cache.last().1.probe)));
            assert(filtered.push(cache.last()).map_values(g) =~= filtered.map_values(g).push(g(cache.last())));
        }
    } else {
        assert(runtime_entries::<P, R>(persisted_entries(cache)) =~= Seq::<(CacheKey, Cached<P, R>)>::empty());
        assert(cache.filter(f).map_values(g) =~= Seq::<(CacheKey, Cached<P, R>)>::empty());
    }
}

/// Where a probe cache lives between runs: the enumerator decides what is
/// worth keeping and when it changed, the store where it goes.
pub trait ProbeCacheStore<P> {
    /// The last snapshot saved here, or an empty one: an absent, torn or
    /// foreign-schema store is a cold start, not an error.
    fn load(&self) -> ProbeCacheSnapshot<P>;

    /// Persist `snapshot`; a failure is retried on the next change.
    fn save(&self, snapshot: &ProbeCacheSnapshot<P>) -> Result<(), ProbeCacheError>;
}

} // verus!
