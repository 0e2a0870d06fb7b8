//! Per-node probe-health ledger.
//!
//! A HID node the OS still enumerates can stop answering HID++. While a
//! node's probe fails, the ledger replays the node's last completed
//! inventory for a bounded grace, and after a couple of consecutive failures
//! asks for the node's cached channel to be dropped so the next tick reopens
//! it fresh.

use vstd::prelude::*;

use crate::backend::NodeId;
use crate::device::DeviceInventory;

verus! {

/// Ticks a node's last-good inventory keeps being served while its probe
/// fails.
pub const NODE_MISS_GRACE: u8 = 3;

/// Consecutive failed probes after which the node's cached channel should be
/// dropped and reopened.
pub const CHANNEL_EVICT_AFTER: u8 = 2;

/// A key naming one HID node in the ledger.
pub trait NodeKey: View + Sized {
    /// Whether two keys name the same node.
    fn same_node(&self, other: &Self) -> (b: bool)
        ensures
            b == (self@ == other@);

    /// A copy of this key.
    fn copy_key(&self) -> (c: Self)
        ensures
            c@ == self@;
}

impl NodeKey for NodeId {
    fn same_node(&self, other: &Self) -> (b: bool) {
        self.same_as(other)
    }

    fn copy_key(&self) -> (c: Self) {
        self.copy()
    }
}

impl NodeKey for u64 {
    fn same_node(&self, other: &Self) -> (b: bool) {
        *self == *other
    }

    fn copy_key(&self) -> (c: Self) {
        *self
    }
}

impl NodeKey for i32 {
    fn same_node(&self, other: &Self) -> (b: bool) {
        *self == *other
    }

    fn copy_key(&self) -> (c: Self) {
        *self
    }
}

/// What [`NodeLedger::settle`] decided for one node this tick.
#[derive(Debug)]
pub struct SettledNode {
    /// The inventory to report for the node: the live result, or the
    /// replayed last-good snapshot while the failure is within grace.
    pub inventory: Option<DeviceInventory>,
    /// Whether the node's cached channel should be dropped so the next tick
    /// reopens it.
    pub evict_channel: bool,
}

/// The view of an optional inventory.
pub open spec fn inventory_view(inv: Option<DeviceInventory>) -> Option<(crate::device::ReceiverInfo, Seq<crate::device::PairedDevice>)> {
    match inv {
        Some(i) => Some(i@),
        None => None,
    }
}

/// The ledger's state: each node's last completed inventory, and how many
/// consecutive probes of each node have failed since.
#[verifier::reject_recursive_types(V)]
pub struct LedgerState<V> {
    /// Last completed inventory per node.
    pub last_good: Map<V, (crate::device::ReceiverInfo, Seq<crate::device::PairedDevice>)>,
    /// Consecutive failed probes per node.
    pub failures: Map<V, u8>,
}

/// One failure more, saturating.
pub open spec fn bump(count: u8) -> u8 {
    if count == 255 { 255 } else { (count + 1) as u8 }
}

/// The failure count after this tick's failure of `node`.
pub open spec fn failures_after<V>(s: LedgerState<V>, node: V) -> u8 {
    bump(if s.failures.contains_key(node) { s.failures[node] } else { 0 })
}

/// Whether this failed tick replays `node`'s last-good inventory.
pub open spec fn replays<V>(s: LedgerState<V>, node: V) -> bool {
    s.last_good.contains_key(node) && failures_after(s, node) <= NODE_MISS_GRACE
}

/// The state after one tick of `node`.
pub open spec fn settle_state<V>(
    s: LedgerState<V>,
    node: V,
    healthy: bool,
    live: Option<(crate::device::ReceiverInfo, Seq<crate::device::PairedDevice>)>,
) -> LedgerState<V> {
    if healthy {
        LedgerState {
            last_good: match live {
                Some(inv) => s.last_good.insert(node, inv),
                None => s.last_good.remove(node),
            },
            failures: s.failures.remove(node),
        }
    } else {
        LedgerState {
            last_good: if replays(s, node) { s.last_good } else { s.last_good.remove(node) },
            failures: s.failures.insert(node, failures_after(s, node)),
        }
    }
}

/// What one tick of `node` reports: the inventory, and whether to evict the
/// node's channel.
pub open spec fn settle_report<V>(
    s: LedgerState<V>,
    node: V,
    healthy: bool,
    live: Option<(crate::device::ReceiverInfo, Seq<crate::device::PairedDevice>)>,
) -> (Option<(crate::device::ReceiverInfo, Seq<crate::device::PairedDevice>)>, bool) {
    if healthy {
        (live, false)
    } else {
        (
            if replays(s, node) { Some(s.last_good[node]) } else { live },
            failures_after(s, node) >= CHANNEL_EVICT_AFTER,
        )
    }
}

/// Tracks, per HID node, the last completed inventory and how many
/// consecutive probes have failed since.
pub struct NodeLedger<K: NodeKey> {
    last_good: Vec<(K, DeviceInventory)>,
    failures: Vec<(K, u8)>,
}

/// Whether no key occurs twice among the first components of `entries`.
pub open spec fn distinct_keys<K: View, T>(entries: Seq<(K, T)>) -> bool {
    forall|i: int, j: int| 0 <= i < j < entries.len() ==> entries[i].0@ != entries[j].0@
}

/// The map from each key's view to the projection of its entry's value.
pub open spec fn entry_map<K: View, T, W>(entries: Seq<(K, T)>, f: spec_fn(T) -> W) -> Map<K::V, W> {
    Map::new(
        |v: K::V| exists|i: int| 0 <= i < entries.len() && entries[i].0@ == v,
        |v: K::V| f(entries[choose|i: int| 0 <= i < entries.len() && entries[i].0@ == v].1),
    )
}

/// The view projection of inventories.
pub open spec fn inventory_proj() -> spec_fn(DeviceInventory) -> (crate::device::ReceiverInfo, Seq<crate::device::PairedDevice>) {
    |inv: DeviceInventory| inv@
}

/// The identity projection of failure counts.
pub open spec fn count_proj() -> spec_fn(u8) -> u8 {
    |c: u8| c
}

/// The key views among `seen`.
pub open spec fn seen_set<K: View>(seen: Seq<K>) -> Set<K::V> {
    Set::new(|v: K::V| exists|i: int| 0 <= i < seen.len() && seen[i]@ == v)
}

proof fn lemma_entry_at<K: View, T, W>(entries: Seq<(K, T)>, f: spec_fn(T) -> W, i: int)
    requires
        distinct_keys(entries),
        0 <= i < entries.len(),
    ensures
        entry_map(entries, f).contains_key(entries[i].0@),
        entry_map(entries, f)[entries[i].0@] == f(entries[i].1),
{
    let v = entries[i].0@;
    assert(exists|j: int| 0 <= j < entries.len() && entries[j].0@ == v);
    let j = choose|j: int| 0 <= j < entries.len() && entries[j].0@ == v;
    assert(j == i) by {
        if j < i {
            assert(entries[j].0@ != entries[i].0@);
        } else if j > i {
            assert(entries[i].0@ != entries[j].0@);
        }
    }
}

proof fn lemma_entry_map_push<K: View, T, W>(entries: Seq<(K, T)>, f: spec_fn(T) -> W, k: K, x: T)
    requires
        distinct_keys(entries),
        !entry_map(entries, f).contains_key(k@),
    ensures
        distinct_keys(entries.push((k, x))),
        entry_map(entries.push((k, x)), f) == entry_map(entries, f).insert(k@, f(x)),
{
    let n = entries.push((k, x));
    assert forall|i: int| 0 <= i < entries.len() implies entries[i].0@ != k@ by {
        if entries[i].0@ == k@ {
            lemma_entry_at(entries, f, i);
        }
    }
    assert(distinct_keys(n));
    assert forall|v: K::V| #[trigger] entry_map(n, f).contains_key(v) == entry_map(entries, f).insert(k@, f(x)).contains_key(v) by {
        if entry_map(entries, f).contains_key(v) {
            let i = choose|i: int| 0 <= i < entries.len() && entries[i].0@ == v;
            assert(n[i].0@ == v);
        }
        if v == k@ {
            assert(n[entries.len() as int].0@ == v);
        }
        if entry_map(n, f).contains_key(v) {
            let i = choose|i: int| 0 <= i < n.len() && n[i].0@ == v;
            if i < entries.len() {
                assert(entries[i].0@ == v);
            }
        }
    }
    assert forall|v: K::V| entry_map(n, f).contains_key(v) implies #[trigger] entry_map(n, f)[v] == entry_map(entries, f).insert(k@, f(x))[v] by {
        let i = choose|i: int| 0 <= i < n.len() && n[i].0@ == v;
        lemma_entry_at(n, f, i);
        if i < entries.len() {
            lemma_entry_at(entries, f, i);
        }
    }
    assert(entry_map(n, f) =~= entry_map(entries, f).insert(k@, f(x)));
}

proof fn lemma_entry_map_update<K: View, T, W>(entries: Seq<(K, T)>, f: spec_fn(T) -> W, i: int, k: K, x: T)
    requires
        distinct_keys(entries),
        0 <= i < entries.len(),
        entries[i].0@ == k@,
    ensures
        distinct_keys(entries.update(i, (k, x))),
        entry_map(entries.update(i, (k, x)), f) == entry_map(entries, f).insert(k@, f(x)),
{
    let n = entries.update(i, (k, x));
    assert(distinct_keys(n)) by {
        assert forall|a: int, b: int| 0 <= a < b < n.len() implies n[a].0@ != n[b].0@ by {
            assert(entries[a].0@ != entries[b].0@);
        }
    }
    assert forall|v: K::V| #[trigger] entry_map(n, f).contains_key(v) == entry_map(entries, f).insert(k@, f(x)).contains_key(v) by {
        if entry_map(entries, f).contains_key(v) {
            let j = choose|j: int| 0 <= j < entries.len() && entries[j].0@ == v;
            assert(n[j].0@ == v);
        }
        if v == k@ {
            assert(n[i].0@ == v);
        }
        if entry_map(n, f).contains_key(v) {
            let j = choose|j: int| 0 <= j < n.len() && n[j].0@ == v;
            if j != i {
                assert(entries[j].0@ == v);
            }
        }
    }
    assert forall|v: K::V| entry_map(n, f).contains_key(v) implies #[trigger] entry_map(n, f)[v] == entry_map(entries, f).insert(k@, f(x))[v] by {
        let j = choose|j: int| 0 <= j < n.len() && n[j].0@ == v;
        lemma_entry_at(n, f, j);
        if j != i {
            lemma_entry_at(entries, f, j);
        }
    }
    assert(entry_map(n, f) =~= entry_map(entries, f).insert(k@, f(x)));
}

proof fn lemma_entry_map_remove<K: View, T, W>(entries: Seq<(K, T)>, f: spec_fn(T) -> W, i: int)
    requires
        distinct_keys(entries),
        0 <= i < entries.len(),
    ensures
        distinct_keys(entries.remove(i)),
        entry_map(entries.remove(i), f) == entry_map(entries, f).remove(entries[i].0@),
{
    let n = entries.remove(i);
    let k = entries[i].0@;
    assert(distinct_keys(n)) by {
        assert forall|a: int, b: int| 0 <= a < b < n.len() implies n[a].0@ != n[b].0@ by {
            let a0 = if a < i { a } else { a + 1 };
            let b0 = if b < i { b } else { b + 1 };
            assert(n[a] == entries[a0]);
            assert(n[b] == entries[b0]);
            assert(entries[a0].0@ != entries[b0].0@);
        }
    }
    assert forall|v: K::V| #[trigger] entry_map(n, f).contains_key(v) == entry_map(entries, f).remove(k).contains_key(v) by {
        if entry_map(entries, f).contains_key(v) && v != k {
            let j = choose|j: int| 0 <= j < entries.len() && entries[j].0@ == v;
            if j < i {
                assert(n[j].0@ == v);
            } else {
                assert(j != i);
                assert(n[j - 1].0@ == v);
            }
        }
        if entry_map(n, f).contains_key(v) {
            let j = choose|j: int| 0 <= j < n.len() && n[j].0@ == v;
            let j0 = if j < i { j } else { j + 1 };
            assert(n[j] == entries[j0]);
            assert(entries[i].0@ != entries[j0].0@ || i == j0) by {
                if i < j0 {
                    assert(entries[i].0@ != entries[j0].0@);
                } else if j0 < i {
                    assert(entries[j0].0@ != entries[i].0@);
                }
            }
        }
    }
    assert forall|v: K::V| entry_map(n, f).contains_key(v) implies #[trigger] entry_map(n, f)[v] == entry_map(entries, f).remove(k)[v] by {
        let j = choose|j: int| 0 <= j < n.len() && n[j].0@ == v;
        lemma_entry_at(n, f, j);
        let j0 = if j < i { j } else { j + 1 };
        assert(n[j] == entries[j0]);
        lemma_entry_at(entries, f, j0);
    }
    assert(entry_map(n, f) =~= entry_map(entries, f).remove(k));
}

impl<K: NodeKey> NodeLedger<K> {
    /// Keys are distinct in both tables.
    #[verifier::type_invariant]
    closed spec fn inv(self) -> bool {
        distinct_keys(self.last_good@) && distinct_keys(self.failures@)
    }

    /// The ledger's state.
    pub closed spec fn state(self) -> LedgerState<K::V> {
        LedgerState {
            last_good: entry_map(self.last_good@, inventory_proj()),
            failures: entry_map(self.failures@, count_proj()),
        }
    }

    /// An empty ledger.
    pub fn new() -> (l: Self)
        ensures
            l.state().last_good == Map::<K::V, (crate::device::ReceiverInfo, Seq<crate::device::PairedDevice>)>::empty(),
            l.state().failures == Map::<K::V, u8>::empty(),
    {
        let l = NodeLedger { last_good: Vec::new(), failures: Vec::new() };
        assert(l.state().last_good =~= Map::empty());
        assert(l.state().failures =~= Map::empty());
        l
    }
}

impl<K: NodeKey> NodeLedger<K> {
    fn find_inventory(&self, node: &K) -> (r: Option<usize>)
        ensures
            r matches Some(i) ==> i < self.last_good@.len() && self.last_good@[i as int].0@ == node@,
            r is None ==> !self.state().last_good.contains_key(node@),
    {
        let mut i: usize = 0;
        while i < self.last_good.len()
            invariant
                i <= self.last_good@.len(),
                forall|j: int| 0 <= j < i ==> self.last_good@[j].0@ != node@,
            decreases self.last_good@.len() - i,
        {
            if self.last_good[i].0.same_node(node) {
                return Some(i);
            }
            i = i + 1;
        }
        None
    }

    fn find_failure(&self, node: &K) -> (r: Option<usize>)
        ensures
            r matches Some(i) ==> i < self.failures@.len() && self.failures@[i as int].0@ == node@,
            r is None ==> !self.state().failures.contains_key(node@),
    {
        let mut i: usize = 0;
        while i < self.failures.len()
            invariant
                i <= self.failures@.len(),
                forall|j: int| 0 <= j < i ==> self.failures@[j].0@ != node@,
            decreases self.failures@.len() - i,
        {
            if self.failures[i].0.same_node(node) {
                return Some(i);
            }
            i = i + 1;
        }
        None
    }

    fn put_inventory(&mut self, node: &K, inv: DeviceInventory)
        ensures
            final(self).state().last_good == old(self).state().last_good.insert(node@, inv@),
            final(self).state().failures == old(self).state().failures,
    {
        proof { use_type_invariant(&*self); }
        let key = node.copy_key();
        match self.find_inventory(node) {
            Some(i) => {
                proof { lemma_entry_map_update(self.last_good@, inventory_proj(), i as int, key, inv); }
                let mut entries: Vec<(K, DeviceInventory)> = Vec::new();
                std::mem::swap(&mut entries, &mut self.last_good);
                entries.set(i, (key, inv));
                self.last_good = entries;
            },
            None => {
                proof { lemma_entry_map_push(self.last_good@, inventory_proj(), key, inv); }
                let mut entries: Vec<(K, DeviceInventory)> = Vec::new();
                std::mem::swap(&mut entries, &mut self.last_good);
                entries.push((key, inv));
                self.last_good = entries;
            },
        }
    }

    fn remove_inventory(&mut self, node: &K)
        ensures
            final(self).state().last_good == old(self).state().last_good.remove(node@),
            final(self).state().failures == old(self).state().failures,
    {
        proof { use_type_invariant(&*self); }
        match self.find_inventory(node) {
            Some(i) => {
                proof { lemma_entry_map_remove(self.last_good@, inventory_proj(), i as int); }
                let mut entries: Vec<(K, DeviceInventory)> = Vec::new();
                std::mem::swap(&mut entries, &mut self.last_good);
                let _removed = entries.remove(i);
                self.last_good = entries;
            },
            None => {
                assert(self.state().last_good.remove(node@) =~= self.state().last_good);
            },
        }
    }

    fn set_failures(&mut self, node: &K, count: u8)
        ensures
            final(self).state().failures == old(self).state().failures.insert(node@, count),
            final(self).state().last_good == old(self).state().last_good,
    {
        proof { use_type_invariant(&*self); }
        let key = node.copy_key();
        match self.find_failure(node) {
            Some(i) => {
                proof { lemma_entry_map_update(self.failures@, count_proj(), i as int, key, count); }
                let mut entries: Vec<(K, u8)> = Vec::new();
                std::mem::swap(&mut entries, &mut self.failures);
                entries.set(i, (key, count));
                self.failures = entries;
            },
            None => {
                proof { lemma_entry_map_push(self.failures@, count_proj(), key, count); }
                let mut entries: Vec<(K, u8)> = Vec::new();
                std::mem::swap(&mut entries, &mut self.failures);
                entries.push((key, count));
                self.failures = entries;
            },
        }
    }

    fn clear_failures(&mut self, node: &K)
        ensures
            final(self).state().failures == old(self).state().failures.remove(node@),
            final(self).state().last_good == old(self).state().last_good,
    {
        proof { use_type_invariant(&*self); }
        match self.find_failure(node) {
            Some(i) => {
                proof { lemma_entry_map_remove(self.failures@, count_proj(), i as int); }
                let mut entries: Vec<(K, u8)> = Vec::new();
                std::mem::swap(&mut entries, &mut self.failures);
                let _removed = entries.remove(i);
                self.failures = entries;
            },
            None => {
                assert(self.state().failures.remove(node@) =~= self.state().failures);
            },
        }
    }
}

impl<K: NodeKey> NodeLedger<K> {
    fn failure_count(&self, node: &K) -> (c: u8)
        ensures
            c == (if self.state().failures.contains_key(node@) { self.state().failures[node@] } else { 0 }),
    {
        proof { use_type_invariant(self); }
        match self.find_failure(node) {
            Some(i) => {
                proof { lemma_entry_at(self.failures@, count_proj(), i as int); }
                self.failures[i].1
            },
            None => 0,
        }
    }

    fn last_good_of(&self, node: &K) -> (r: Option<&DeviceInventory>)
        ensures
            r matches Some(inv) ==> self.state().last_good.contains_key(node@) && inv@ == self.state().last_good[node@],
            r is None ==> !self.state().last_good.contains_key(node@),
    {
        proof { use_type_invariant(self); }
        match self.find_inventory(node) {
            Some(i) => {
                proof { lemma_entry_at(self.last_good@, inventory_proj(), i as int); }
                Some(&self.last_good[i].1)
            },
            None => None,
        }
    }

    /// Fold one node's probe result into the ledger and decide what to
    /// report.
    ///
    /// `healthy` means the node answered this tick, so `live` is
    /// authoritative (including `None` for "not one of ours"). An unhealthy
    /// tick means "couldn't check": the last-good inventory is replayed for
    /// up to [`NODE_MISS_GRACE`] consecutive failures, after which the live
    /// (partial or empty) result is surfaced; from [`CHANNEL_EVICT_AFTER`]
    /// failures on, every failed tick asks for the channel to be reopened.
    pub fn settle(&mut self, node: &K, healthy: bool, live: Option<DeviceInventory>) -> (r: SettledNode)
        ensures
            final(self).state() == settle_state(old(self).state(), node@, healthy, inventory_view(live)),
            (inventory_view(r.inventory), r.evict_channel)
                == settle_report(old(self).state(), node@, healthy, inventory_view(live)),
    {
        let ghost s0 = self.state();
        if healthy {
            self.clear_failures(node);
            match live {
                Some(inv) => {
                    let copy = inv.clone();
                    self.put_inventory(node, copy);
                    SettledNode { inventory: Some(inv), evict_channel: false }
                },
                None => {
                    self.remove_inventory(node);
                    SettledNode { inventory: None, evict_channel: false }
                },
            }
        } else {
            let previous = self.failure_count(node);
            let failures: u8 = if previous == 255 { 255 } else { previous + 1 };
            self.set_failures(node, failures);
            let replayed = match self.last_good_of(node) {
                Some(prev) => if failures <= NODE_MISS_GRACE { Some(prev.clone()) } else { None },
                None => None,
            };
            let inventory = match replayed {
                Some(inv) => Some(inv),
                None => {
                    self.remove_inventory(node);
                    live
                },
            };
            proof {
                assert(failures == failures_after(s0, node@));
                if !replays(s0, node@) {
                    assert(self.state().last_good == s0.last_good.remove(node@));
                }
            }
            SettledNode { inventory, evict_channel: failures >= CHANNEL_EVICT_AFTER }
        }
    }
}

proof fn lemma_entry_map_retain<K: View, T, W>(entries: Seq<(K, T)>, r: Seq<(K, T)>, f: spec_fn(T) -> W, seen: Set<K::V>)
    requires
        distinct_keys(entries),
        distinct_keys(r),
        forall|k: int| 0 <= k < r.len() ==> entries.contains(#[trigger] r[k]) && seen.contains(r[k].0@),
        forall|j: int| 0 <= j < entries.len() && seen.contains(#[trigger] entries[j].0@) ==> r.contains(entries[j]),
    ensures
        entry_map(r, f) == entry_map(entries, f).restrict(seen),
{
    assert forall|v: K::V| #[trigger] entry_map(r, f).contains_key(v) == entry_map(entries, f).restrict(seen).contains_key(v) by {
        if entry_map(r, f).contains_key(v) {
            let k = choose|k: int| 0 <= k < r.len() && r[k].0@ == v;
            assert(entries.contains(r[k]));
            let j = choose|j: int| 0 <= j < entries.len() && entries[j] == r[k];
            assert(entries[j].0@ == v);
        }
        if entry_map(entries, f).contains_key(v) && seen.contains(v) {
            let j = choose|j: int| 0 <= j < entries.len() && entries[j].0@ == v;
            assert(r.contains(entries[j]));
            let k = choose|k: int| 0 <= k < r.len() && r[k] == entries[j];
            assert(r[k].0@ == v);
        }
    }
    assert forall|v: K::V| entry_map(r, f).contains_key(v) implies #[trigger] entry_map(r, f)[v] == entry_map(entries, f).restrict(seen)[v] by {
        let k = choose|k: int| 0 <= k < r.len() && r[k].0@ == v;
        lemma_entry_at(r, f, k);
        assert(entries.contains(r[k]));
        let j = choose|j: int| 0 <= j < entries.len() && entries[j] == r[k];
        lemma_entry_at(entries, f, j);
    }
    assert(entry_map(r, f) =~= entry_map(entries, f).restrict(seen));
}

fn is_seen<K: NodeKey>(key: &K, seen: &[K]) -> (b: bool)
    ensures
        b == seen_set(seen@).contains(key@),
{
    let mut i: usize = 0;
    while i < seen.len()
        invariant
            i <= seen@.len(),
            forall|j: int| 0 <= j < i ==> seen@[j]@ != key@,
        decreases seen@.len() - i,
    {
        if seen[i].same_node(key) {
            return true;
        }
        i = i + 1;
    }
    false
}

fn retain_seen<K: NodeKey, T>(entries: Vec<(K, T)>, seen: &[K]) -> (r: Vec<(K, T)>)
    requires
        distinct_keys(entries@),
    ensures
        distinct_keys(r@),
        forall|k: int| 0 <= k < r@.len() ==> entries@.contains(#[trigger] r@[k]) && seen_set(seen@).contains(r@[k].0@),
        forall|j: int| 0 <= j < entries@.len() && seen_set(seen@).contains(#[trigger] entries@[j].0@) ==> r@.contains(entries@[j]),
{
    let ghost all = entries@;
    let mut rest = entries;
    let mut kept: Vec<(K, T)> = Vec::new();
    while rest.len() > 0
        invariant
            distinct_keys(all),
            rest@.len() <= all.len(),
            rest@ == all.subrange(0, rest@.len() as int),
            distinct_keys(kept@),
            forall|k: int| 0 <= k < kept@.len() ==> exists|j: int| rest@.len() <= j < all.len() && all[j] == #[trigger] kept@[k],
            forall|k: int| 0 <= k < kept@.len() ==> seen_set(seen@).contains((#[trigger] kept@[k]).0@),
            forall|j: int| rest@.len() <= j < all.len() && seen_set(seen@).contains(#[trigger] all[j].0@) ==> kept@.contains(all[j]),
        decreases rest@.len(),
    {
        let ghost m = (rest@.len() - 1) as int;
        let entry = match rest.pop() {
            Some(e) => e,
            None => vstd::pervasive::unreached(),
        };
        assert(entry == all[m]);
        assert(rest@ =~= all.subrange(0, m));
        if is_seen(&entry.0, seen) {
            let ghost before = kept@;
            proof {
                assert forall|k: int| 0 <= k < before.len() implies before[k].0@ != entry.0@ by {
                    let j = choose|j: int| m + 1 <= j < all.len() && all[j] == before[k];
                    assert(all[m].0@ != all[j].0@);
                }
            }
            kept.push(entry);
            proof {
                assert(kept@[before.len() as int] == all[m]);
                assert forall|k: int| 0 <= k < kept@.len() implies exists|j: int| m <= j < all.len() && all[j] == #[trigger] kept@[k] by {
                    if k < before.len() {
                        let j = choose|j: int| m + 1 <= j < all.len() && all[j] == before[k];
                        assert(all[j] == kept@[k]);
                    } else {
                        assert(all[m] == kept@[k]);
                    }
                }
                assert forall|j: int| m <= j < all.len() && seen_set(seen@).contains(#[trigger] all[j].0@) implies kept@.contains(all[j]) by {
                    if j == m {
                        assert(kept@[before.len() as int] == all[j]);
                    } else {
                        assert(before.contains(all[j]));
                        let k = choose|k: int| 0 <= k < before.len() && before[k] == all[j];
                        assert(kept@[k] == all[j]);
                    }
                }
            }
        } else {
            proof {
                assert forall|k: int| 0 <= k < kept@.len() implies exists|j: int| m <= j < all.len() && all[j] == #[trigger] kept@[k] by {
                    let j = choose|j: int| m + 1 <= j < all.len() && all[j] == kept@[k];
                    assert(all[j] == kept@[k]);
                }
            }
        }
    }
    proof {
        assert forall|k: int| 0 <= k < kept@.len() implies all.contains(#[trigger] kept@[k]) by {
            let j = choose|j: int| 0 <= j < all.len() && all[j] == kept@[k];
        }
    }
    kept
}

impl<K: NodeKey> NodeLedger<K> {
    /// Drop ledger state for nodes the OS no longer enumerates: a vanished
    /// node is a real disconnect, so there is nothing to replay or heal.
    pub fn retain_nodes(&mut self, seen: &[K])
        ensures
            final(self).state().last_good == old(self).state().last_good.restrict(seen_set(seen@)),
            final(self).state().failures == old(self).state().failures.restrict(seen_set(seen@)),
    {
        proof { use_type_invariant(&*self); }
        let mut good: Vec<(K, DeviceInventory)> = Vec::new();
        std::mem::swap(&mut good, &mut self.last_good);
        let ghost good0 = good@;
        let kept_good = retain_seen(good, seen);
        proof { lemma_entry_map_retain(good0, kept_good@, inventory_proj(), seen_set(seen@)); }
        self.last_good = kept_good;
        let mut counts: Vec<(K, u8)> = Vec::new();
        std::mem::swap(&mut counts, &mut self.failures);
        let ghost counts0 = counts@;
        let kept_counts = retain_seen(counts, seen);
        proof { lemma_entry_map_retain(counts0, kept_counts@, count_proj(), seen_set(seen@)); }
        self.failures = kept_counts;
    }
}

impl<K: NodeKey> Default for NodeLedger<K> {
    fn default() -> (l: Self)
        ensures
            l.state().last_good == Map::<K::V, (crate::device::ReceiverInfo, Seq<crate::device::PairedDevice>)>::empty(),
            l.state().failures == Map::<K::V, u8>::empty(),
    {
        NodeLedger::new()
    }
}

/// The state after failed ticks of `node` that reported `lives`, in order.
pub open spec fn after_failures<V>(
    s: LedgerState<V>,
    node: V,
    lives: Seq<Option<(crate::device::ReceiverInfo, Seq<crate::device::PairedDevice>)>>,
) -> LedgerState<V>
    decreases lives.len(),
{
    if lives.len() == 0 {
        s
    } else {
        settle_state(after_failures(s, node, lives.drop_last()), node, false, lives.last())
    }
}

proof fn lemma_failures_within_grace<V>(
    s: LedgerState<V>,
    node: V,
    inv: (crate::device::ReceiverInfo, Seq<crate::device::PairedDevice>),
    lives: Seq<Option<(crate::device::ReceiverInfo, Seq<crate::device::PairedDevice>)>>,
)
    requires
        s.last_good.contains_key(node),
        s.last_good[node] == inv,
        !s.failures.contains_key(node),
        lives.len() <= NODE_MISS_GRACE,
    ensures
        after_failures(s, node, lives).last_good.contains_key(node),
        after_failures(s, node, lives).last_good[node] == inv,
        lives.len() == 0 ==> !after_failures(s, node, lives).failures.contains_key(node),
        lives.len() > 0 ==> after_failures(s, node, lives).failures.contains_key(node)
            && after_failures(s, node, lives).failures[node] == lives.len(),
    decreases lives.len(),
{
    if lives.len() > 0 {
        lemma_failures_within_grace(s, node, inv, lives.drop_last());
    }
}

/// After a healthy tick reports an inventory for a node, each of the next
/// [`NODE_MISS_GRACE`] failed ticks replays that inventory, whatever they
/// saw, and the channel is evicted from the [`CHANNEL_EVICT_AFTER`]th of
/// them on; the failed tick after that surfaces its own live result.
pub proof fn lemma_replay_grace<V>(
    s: LedgerState<V>,
    node: V,
    inv: (crate::device::ReceiverInfo, Seq<crate::device::PairedDevice>),
    lives: Seq<Option<(crate::device::ReceiverInfo, Seq<crate::device::PairedDevice>)>>,
)
    requires
        lives.len() == NODE_MISS_GRACE + 1,
    ensures
        forall|k: int| 0 <= k < NODE_MISS_GRACE ==> #[trigger] settle_report(
            after_failures(settle_state(s, node, true, Some(inv)), node, lives.take(k)),
            node,
            false,
            lives[k],
        ) == (Some(inv), k + 1 >= CHANNEL_EVICT_AFTER),
        settle_report(
            after_failures(settle_state(s, node, true, Some(inv)), node, lives.take(NODE_MISS_GRACE as int)),
            node,
            false,
            lives[NODE_MISS_GRACE as int],
        ).0 == lives[NODE_MISS_GRACE as int],
{
    let s1 = settle_state(s, node, true, Some(inv));
    assert forall|k: int| 0 <= k < NODE_MISS_GRACE implies #[trigger] settle_report(
        after_failures(s1, node, lives.take(k)),
        node,
        false,
        lives[k],
    ) == (Some(inv), k + 1 >= CHANNEL_EVICT_AFTER) by {
        lemma_failures_within_grace(s1, node, inv, lives.take(k));
    }
    lemma_failures_within_grace(s1, node, inv, lives.take(NODE_MISS_GRACE as int));
}

/// A healthy tick forgets a node's failures, so a later failed tick of a
/// node with a last-good inventory replays it again, with the full grace.
pub proof fn lemma_healthy_tick_rearms_grace<V>(
    s: LedgerState<V>,
    node: V,
    inv: (crate::device::ReceiverInfo, Seq<crate::device::PairedDevice>),
    live: Option<(crate::device::ReceiverInfo, Seq<crate::device::PairedDevice>)>,
)
    ensures
        settle_report(settle_state(s, node, true, Some(inv)), node, false, live) == (Some(inv), false),
{
}

/// The failure count after `n` failed ticks in a row, saturating.
pub open spec fn saturated(n: nat) -> u8 {
    if n >= 255 { 255u8 } else { n as u8 }
}

/// After a healthy tick that reported `healthy_live` for `node`, and then
/// `lives.len()` failed ticks: the node's failure count is that many
/// (saturating); its last-good inventory is still held while at most
/// [`NODE_MISS_GRACE`] ticks failed and only if the healthy tick reported
/// one; and no other node's state has changed since before the healthy
/// tick.
proof fn lemma_after_failures_state<V>(
    s: LedgerState<V>,
    node: V,
    healthy_live: Option<(crate::device::ReceiverInfo, Seq<crate::device::PairedDevice>)>,
    lives: Seq<Option<(crate::device::ReceiverInfo, Seq<crate::device::PairedDevice>)>>,
)
    ensures
        ({
            let t = after_failures(settle_state(s, node, true, healthy_live), node, lives);
            &&& lives.len() == 0 ==> !t.failures.contains_key(node)
            &&& lives.len() > 0 ==> t.failures.contains_key(node) && t.failures[node] == saturated(lives.len())
            &&& (healthy_live is Some && lives.len() <= NODE_MISS_GRACE)
                ==> t.last_good.contains_key(node) && Some(t.last_good[node]) == healthy_live
            &&& !(healthy_live is Some && lives.len() <= NODE_MISS_GRACE) ==> !t.last_good.contains_key(node)
            &&& t.last_good.remove(node) == s.last_good.remove(node)
            &&& t.failures.remove(node) == s.failures.remove(node)
        }),
    decreases lives.len(),
{
    let s0 = settle_state(s, node, true, healthy_live);
    if lives.len() == 0 {
        assert(s0.last_good.remove(node) =~= s.last_good.remove(node));
        assert(s0.failures.remove(node) =~= s.failures.remove(node));
    } else {
        lemma_after_failures_state(s, node, healthy_live, lives.drop_last());
        let p = after_failures(s0, node, lives.drop_last());
        let t = after_failures(s0, node, lives);
        assert(t == settle_state(p, node, false, lives.last()));
        assert(t.last_good.remove(node) =~= p.last_good.remove(node));
        assert(t.failures.remove(node) =~= p.failures.remove(node));
    }
}

/// A node's failed ticks after a healthy one, for any number of them: the
/// `k`th failed tick in a row (counting from one) replays the inventory the
/// healthy tick reported while `k` is at most [`NODE_MISS_GRACE`], and
/// reports its own live result (which may be nothing) from then on; the
/// channel is evicted from the [`CHANNEL_EVICT_AFTER`]th failure on, never
/// before; and no other node's ledger state changes along the way.
pub proof fn lemma_failure_streak<V>(
    s: LedgerState<V>,
    node: V,
    healthy_live: Option<(crate::device::ReceiverInfo, Seq<crate::device::PairedDevice>)>,
    lives: Seq<Option<(crate::device::ReceiverInfo, Seq<crate::device::PairedDevice>)>>,
    live: Option<(crate::device::ReceiverInfo, Seq<crate::device::PairedDevice>)>,
)
    ensures
        ({
            let before = after_failures(settle_state(s, node, true, healthy_live), node, lives);
            let k = lives.len() + 1;
            &&& settle_report(before, node, false, live).0
                == (if healthy_live is Some && k <= NODE_MISS_GRACE { healthy_live } else { live })
            &&& settle_report(before, node, false, live).1 == (k >= CHANNEL_EVICT_AFTER)
            &&& settle_state(before, node, false, live).last_good.remove(node) == s.last_good.remove(node)
            &&& settle_state(before, node, false, live).failures.remove(node) == s.failures.remove(node)
        }),
{
    lemma_after_failures_state(s, node, healthy_live, lives);
    let before = after_failures(settle_state(s, node, true, healthy_live), node, lives);
    let after = settle_state(before, node, false, live);
    assert(after.last_good.remove(node) =~= before.last_good.remove(node));
    assert(after.failures.remove(node) =~= before.failures.remove(node));
}

/// Dropping the nodes the OS no longer enumerates forgets everything about
/// them: a later failed tick of a dropped node reports only its live
/// result and never evicts, while a node still enumerated ticks exactly as
/// it would have.
pub proof fn lemma_retained_nodes<V>(
    s: LedgerState<V>,
    seen: Set<V>,
    node: V,
    healthy: bool,
    live: Option<(crate::device::ReceiverInfo, Seq<crate::device::PairedDevice>)>,
)
    ensures
        ({
            let kept = LedgerState { last_good: s.last_good.restrict(seen), failures: s.failures.restrict(seen) };
            &&& !seen.contains(node) ==> settle_report(kept, node, false, live) == (live, false)
            &&& seen.contains(node) ==> settle_report(kept, node, healthy, live) == settle_report(s, node, healthy, live)
        }),
{
}

} // verus!
