//! A time-bounded cache of market snapshots.
//!
//! The store keeps, per market address, the most recently inserted snapshot
//! together with its insertion time, and serves it only while its fixed
//! time-to-live has not elapsed. Expiry is checked lazily on read; `put`
//! replaces any existing entry unconditionally. Rust's borrow rules make
//! every update exclusive, so a reader observes the old or the new entry of
//! a key, never a torn one; callers that share a store across threads wrap
//! it in a lock of their choosing.

use vstd::prelude::*;
use vstd::map::*;
use vstd::pervasive::VecAdditionalExecFns;

use crate::models::{Address, Market, MarketModel};

verus! {

/// Time-to-live of a cached snapshot, in seconds.
pub const SNAPSHOT_TTL_SECONDS: i64 = 60;

/// One cached snapshot with its insertion time.
pub struct CacheEntry {
    /// Market address the snapshot belongs to.
    pub key: Address,
    /// The cached snapshot.
    pub snapshot: Market,
    /// Unix time, in seconds, at which the snapshot was inserted.
    pub inserted_at: i64,
}

/// Whether index `i` holds an entry for `key`.
pub open spec fn entry_keyed(entries: Seq<CacheEntry>, key: Address, i: int) -> bool {
    0 <= i < entries.len() && entries[i].key == key
}

/// Whether some entry holds `key`.
pub open spec fn has_key(entries: Seq<CacheEntry>, key: Address) -> bool {
    exists|i: int| entry_keyed(entries, key, i)
}

/// The index of the entry holding `key`.
pub open spec fn keyed_index(entries: Seq<CacheEntry>, key: Address) -> int {
    choose|i: int| entry_keyed(entries, key, i)
}

/// A cache mapping a market address to its last-fetched snapshot.
pub struct MarketSnapshotStore {
    /// Time-to-live of an entry, in seconds.
    pub ttl_seconds: i64,
    /// The cached entries, with pairwise distinct keys.
    pub entries: Vec<CacheEntry>,
}

impl MarketSnapshotStore {
    /// Well-formedness: keys are pairwise distinct, the time-to-live is
    /// positive, every stored snapshot is well-formed, and every insertion
    /// time is a non-negative Unix time.
    pub open spec fn wf(self) -> bool {
        &&& self.ttl_seconds >= 1
        &&& forall|i: int, j: int|
            0 <= i < j < self.entries@.len() ==> (#[trigger] self.entries@[i]).key != (
            #[trigger] self.entries@[j]).key
        &&& forall|i: int|
            0 <= i < self.entries@.len() ==> (#[trigger] self.entries@[i]).snapshot@.wf()
        &&& forall|i: int|
            0 <= i < self.entries@.len() ==> (#[trigger] self.entries@[i]).inserted_at >= 0
    }

    /// The stored snapshots and insertion times, as a map from market
    /// address to snapshot model and time.
    pub open spec fn contents(self) -> Map<Address, (MarketModel, int)> {
        Map::new(
            |k: Address| has_key(self.entries@, k),
            |k: Address|
                {
                    let i = keyed_index(self.entries@, k);
                    (self.entries@[i].snapshot@, self.entries@[i].inserted_at as int)
                },
        )
    }

    /// What `get` returns at time `now`: the stored snapshot exactly when
    /// one is stored and its time-to-live has not elapsed.
    pub open spec fn get_spec(self, key: Address, now: int) -> Option<MarketModel> {
        if self.contents().contains_key(key) {
            let (snapshot, inserted_at) = self.contents()[key];
            if inserted_at <= now < inserted_at + self.ttl_seconds {
                Some(snapshot)
            } else {
                None
            }
        } else {
            None
        }
    }

    /// An empty store with the fixed snapshot time-to-live.
    pub fn new() -> (store: MarketSnapshotStore)
        ensures
            store.wf(),
            store.ttl_seconds == SNAPSHOT_TTL_SECONDS,
            store.contents() == Map::<Address, (MarketModel, int)>::empty(),
    {
        let store = MarketSnapshotStore { ttl_seconds: SNAPSHOT_TTL_SECONDS, entries: Vec::new() };
        proof {
            assert(store.contents() =~= Map::<Address, (MarketModel, int)>::empty());
        }
        store
    }

    /// Returns the snapshot cached for `key`, if one was inserted less than
    /// the time-to-live before `now`.
    pub fn get(&self, key: Address, now: i64) -> (r: Option<Market>)
        requires
            self.wf(),
            now >= 0,
        ensures
            match r {
                Some(m) => self.get_spec(key, now as int) == Some(m@) && m.wf(),
                None => self.get_spec(key, now as int) is None,
            },
    {
        let n = self.entries.len();
        let mut i: usize = 0;
        while i < n
            invariant
                self.wf(),
                now >= 0,
                n == self.entries@.len(),
                i <= n,
                forall|j: int| 0 <= j < i ==> (#[trigger] self.entries@[j]).key != key,
            decreases n - i,
        {
            let entry = &self.entries[i];
            if entry.key.hi == key.hi && entry.key.lo == key.lo {
                proof {
                    assert(entry_keyed(self.entries@, key, i as int));
                    let w = keyed_index(self.entries@, key);
                    assert(entry_keyed(self.entries@, key, w));
                    assert(w == i as int);
                }
                if entry.inserted_at <= now && now - entry.inserted_at < self.ttl_seconds {
                    return Some(entry.snapshot.clone());
                } else {
                    return None;
                }
            }
            i = i + 1;
        }
        proof {
            assert(!has_key(self.entries@, key));
        }
        None
    }

    /// Stores a snapshot for `key` at time `now`, replacing any existing
    /// entry.
    pub fn put(&mut self, key: Address, snapshot: Market, now: i64)
        requires
            old(self).wf(),
            snapshot@.wf(),
            now >= 0,
        ensures
            final(self).wf(),
            final(self).ttl_seconds == old(self).ttl_seconds,
            final(self).contents() == old(self).contents().insert(
                key,
                (snapshot@, now as int),
            ),
    {
        let n = self.entries.len();
        let mut i: usize = 0;
        while i < n
            invariant
                self == old(self),
                old(self).wf(),
                snapshot@.wf(),
                now >= 0,
                n == self.entries@.len(),
                i <= n,
                forall|j: int| 0 <= j < i ==> (#[trigger] self.entries@[j]).key != key,
            decreases n - i,
        {
            let found = {
                let entry = &self.entries[i];
                entry.key.hi == key.hi && entry.key.lo == key.lo
            };
            if found {
                self.entries.set(i, CacheEntry { key, snapshot, inserted_at: now });
                proof {
                    lemma_contents_after_write(
                        old(self).entries@,
                        self.entries@,
                        *old(self),
                        *self,
                        key,
                        i as int,
                    );
                }
                return ;
            }
            i = i + 1;
        }
        self.entries.push(CacheEntry { key, snapshot, inserted_at: now });
        proof {
            lemma_contents_after_write(
                old(self).entries@,
                self.entries@,
                *old(self),
                *self,
                key,
                n as int,
            );
        }
    }
}

/// After writing an entry for `key` at index `i` — over an old entry for
/// the same key, or appended at the end — the contents are the old contents
/// with `key` bound to the new snapshot and time.
proof fn lemma_contents_after_write(
    pre: Seq<CacheEntry>,
    post: Seq<CacheEntry>,
    pre_store: MarketSnapshotStore,
    post_store: MarketSnapshotStore,
    key: Address,
    i: int,
)
    requires
        pre_store.wf(),
        pre_store.entries@ == pre,
        post_store.entries@ == post,
        post_store.ttl_seconds == pre_store.ttl_seconds,
        0 <= i <= pre.len(),
        post.len() == if i == pre.len() {
            pre.len() + 1
        } else {
            pre.len()
        },
        forall|j: int| 0 <= j < pre.len() && j != i ==> post[j] == pre[j],
        post[i].key == key,
        post[i].snapshot@.wf(),
        post[i].inserted_at >= 0,
        i < pre.len() ==> pre[i].key == key,
        forall|j: int| 0 <= j < i ==> (#[trigger] pre[j]).key != key,
    ensures
        post_store.wf(),
        post_store.contents() == pre_store.contents().insert(
            key,
            (post[i].snapshot@, post[i].inserted_at as int),
        ),
{
    assert forall|a: int, b: int| 0 <= a < b < post.len() implies (#[trigger] post[a]).key != (
    #[trigger] post[b]).key by {
        if a != i && b != i {
            assert(post[a] == pre[a] && post[b] == pre[b]);
        } else if a == i {
            assert(post[b] == pre[b]);
            if i < pre.len() {
                assert(pre[i].key == key);
            } else {
                assert(false);
            }
        } else {
            assert(post[a] == pre[a]);
            if i < pre.len() {
                assert(pre[i].key == key);
            }
        }
    }
    assert(post_store.wf());
    let expected = pre_store.contents().insert(key, (post[i].snapshot@, post[i].inserted_at as int));
    assert_maps_equal!(post_store.contents(), expected, k => {
        if k == key {
            assert(entry_keyed(post, key, i));
            assert(has_key(post, key));
            let w = keyed_index(post, key);
            assert(entry_keyed(post, key, w));
            assert(w == i);
        } else {
            if has_key(post, k) {
                let w = keyed_index(post, k);
                assert(entry_keyed(post, k, w));
                assert(w != i);
                assert(post[w] == pre[w]);
                assert(entry_keyed(pre, k, w));
                assert(has_key(pre, k));
                let v = keyed_index(pre, k);
                assert(entry_keyed(pre, k, v));
                assert(v == w);
            }
            if has_key(pre, k) {
                let v = keyed_index(pre, k);
                assert(entry_keyed(pre, k, v));
                if v == i {
                    assert(pre[i].key == key);
                    assert(false);
                }
                assert(post[v] == pre[v]);
                assert(entry_keyed(post, k, v));
                assert(has_key(post, k));
            }
        }
    });
}

/// Time-to-live law: a snapshot stored for `key` at time `t` is still
/// served one second before its time-to-live elapses, and no longer served
/// one second after.
pub proof fn lemma_cache_ttl(store: MarketSnapshotStore, key: Address, m: MarketModel, t: int)
    requires
        store.wf(),
        store.contents().contains_key(key),
        store.contents()[key] == (m, t),
    ensures
        store.get_spec(key, t + store.ttl_seconds - 1) == Some(m),
        store.get_spec(key, t + store.ttl_seconds + 1) is None,
{
}

} // verus!
