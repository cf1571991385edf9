//! TTL-based entity caches.
//!
//! Two shapes store remote values together with the time they were fetched:
//! [`Cached`] holds at most one value, [`CachedMap`] holds one value per key.
//! A read is answered from the cache exactly when the entry is fresh, that is
//! when `now - fetched_at < ttl`; otherwise the caller must fetch from the
//! remote source and commit the result.  The caches never perform remote
//! calls themselves: a caller asks with `lookup` (or `plan_batch`), performs
//! the remote fetch for whatever was stale, and hands the result back through
//! `commit` (or `commit_batch` / `commit_all`).  A fetch failure is simply
//! never committed, so the stored entries are untouched by it.
//!
//! Concurrent identical reads are not coalesced: two callers that both see a
//! stale answer may both fetch, and the commit that lands later wins.  That
//! costs a duplicate remote call at worst and keeps every commit a plain
//! overwrite.

use vstd::prelude::*;
use std::collections::HashMap;
use std::sync::Arc;

use crate::fresh_at;
use crate::is_fresh_at;
use crate::share;

verus! {

broadcast use vstd::std_specs::hash::group_hash_axioms;

/// Answer of a cache read: either a fresh value or the demand to fetch.
pub enum Freshness<T> {
    /// The cache answers; no remote call is needed.
    Fresh(T),
    /// The entry is missing or expired; the caller must fetch and commit.
    Stale,
}

/// One stored entry: the fetched value and the time it was fetched.
///
/// `val` is `None` when the remote source reported that the entity does not
/// exist; that absence is remembered with its own timestamp, so it is never
/// confused with "not yet fetched".
pub struct CacheEntry<V> {
    pub val: Option<Arc<V>>,
    pub at: u64,
}

/// Keyed cache: each key is independently timestamped and invalidated.
pub struct CachedMap<V> {
    map: HashMap<i64, CacheEntry<V>>,
    ttl: u64,
}

impl<V> CachedMap<V> {
    /// The stored entries, keyed by entity id.
    pub closed spec fn entries(&self) -> Map<i64, CacheEntry<V>> {
        self.map@
    }

    /// The time-to-live applied by reads.
    pub closed spec fn ttl(&self) -> u64 {
        self.ttl
    }

    /// The entry for `key` exists and is fresh at `now`.
    pub open spec fn fresh_entry(&self, key: i64, now: u64) -> bool {
        self.entries().contains_key(key) && fresh_at(self.entries()[key].at, now, self.ttl())
    }

    /// The entry for `key` is fresh and holds a present value.
    pub open spec fn fresh_present(&self, key: i64, now: u64) -> bool {
        self.fresh_entry(key, now) && self.entries()[key].val is Some
    }

    /// The keys of `s` whose entries must be fetched again at `now`, in order.
    pub open spec fn stale_keys_of(&self, s: Seq<i64>, now: u64) -> Seq<i64>
        decreases s.len(),
    {
        if s.len() == 0 {
            Seq::empty()
        } else {
            let rest = self.stale_keys_of(s.drop_last(), now);
            if !self.fresh_entry(s.last(), now) {
                rest.push(s.last())
            } else {
                rest
            }
        }
    }

    /// The `(key, value)` pairs of `s` answerable from the cache at `now`, in order.
    pub open spec fn fresh_pairs_of(&self, s: Seq<i64>, now: u64) -> Seq<(i64, Arc<V>)>
        decreases s.len(),
    {
        if s.len() == 0 {
            Seq::empty()
        } else {
            let rest = self.fresh_pairs_of(s.drop_last(), now);
            if self.fresh_present(s.last(), now) {
                rest.push((s.last(), self.entries()[s.last()].val->Some_0))
            } else {
                rest
            }
        }
    }

    /// Creates an empty cache whose reads use `ttl`.
    pub fn new(ttl: u64) -> (r: Self)
        ensures
            r.entries() == Map::<i64, CacheEntry<V>>::empty(),
            r.ttl() == ttl,
    {
        CachedMap { map: HashMap::new(), ttl }
    }

    /// Changes the TTL used by subsequent reads; existing entries are kept
    /// and re-judged against the new TTL only when they are next read.
    pub fn set_cache_time(&mut self, ttl: u64)
        ensures
            final(self).entries() == old(self).entries(),
            final(self).ttl() == ttl,
    {
        self.ttl = ttl;
    }

    /// Answers from the cache when the entry for `key` is fresh at `now`;
    /// otherwise demands a fetch.  The cache is not changed.
    pub fn lookup(&self, key: i64, now: u64) -> (r: Freshness<Option<Arc<V>>>)
        ensures
            r == if self.fresh_entry(key, now) {
                Freshness::Fresh(self.entries()[key].val)
            } else {
                Freshness::<Option<Arc<V>>>::Stale
            },
    {
        match self.map.get(&key) {
            Some(e) => {
                if is_fresh_at(e.at, now, self.ttl) {
                    match &e.val {
                        Some(a) => Freshness::Fresh(Some(share(a))),
                        None => Freshness::Fresh(None),
                    }
                } else {
                    Freshness::Stale
                }
            },
            None => Freshness::Stale,
        }
    }

    /// Stores the outcome of a remote fetch for `key`, stamped `now`,
    /// overwriting whatever was there.  `fetched` is `None` when the remote
    /// source reported the entity absent.  Hands the stored value back.
    pub fn commit(&mut self, key: i64, fetched: Option<Arc<V>>, now: u64) -> (r: Option<Arc<V>>)
        ensures
            final(self).entries() == old(self).entries().insert(
                key,
                (CacheEntry { val: fetched, at: now }),
            ),
            final(self).ttl() == old(self).ttl(),
            r == fetched,
    {
        let r = match &fetched {
            Some(a) => Some(share(a)),
            None => None,
        };
        self.map.insert(key, CacheEntry { val: fetched, at: now });
        r
    }

    /// Drops the entry for `key`, so the next read must fetch.
    pub fn make_dirty(&mut self, key: i64)
        ensures
            final(self).entries() == old(self).entries().remove(key),
            final(self).ttl() == old(self).ttl(),
    {
        self.map.remove(&key);
    }

    /// Drops the entries of every key in `keys`.
    pub fn make_dirty_batch(&mut self, keys: &Vec<i64>)
        ensures
            final(self).entries() == old(self).entries().remove_keys(keys@.to_set()),
            final(self).ttl() == old(self).ttl(),
    {
        let ghost orig = self.entries();
        let mut i: usize = 0;
        while i < keys.len()
            invariant
                i <= keys.len(),
                self.entries() == orig.remove_keys(keys@.take(i as int).to_set()),
                self.ttl() == old(self).ttl(),
            decreases keys.len() - i,
        {
            let k = keys[i];
            self.map.remove(&k);
            proof {
                assert(keys@.take(i + 1 as int).to_set() =~= keys@.take(i as int).to_set().insert(
                    keys@[i as int],
                )) by {
                    assert forall|e: i64| keys@.take(i + 1 as int).to_set().contains(e) implies keys@.take(
                        i as int,
                    ).to_set().contains(e) || e == keys@[i as int] by {
                        let j = choose|j: int|
                            0 <= j < i + 1 && #[trigger] keys@.take(i + 1 as int)[j] == e;
                        if j < i {
                            assert(keys@.take(i as int)[j] == e);
                        }
                    }
                    assert forall|e: i64| keys@.take(i as int).to_set().contains(e) implies keys@.take(
                        i + 1 as int,
                    ).to_set().contains(e) by {
                        let j = choose|j: int| 0 <= j < i && keys@.take(i as int)[j] == e;
                        assert(keys@.take(i + 1 as int)[j] == e);
                    }
                    assert(keys@.take(i + 1 as int)[i as int] == keys@[i as int]);
                }
                assert(orig.remove_keys(keys@.take(i as int).to_set()).remove(keys@[i as int])
                    =~= orig.remove_keys(keys@.take(i + 1 as int).to_set()));
            }
            i = i + 1;
        }
        proof {
            assert(keys@.take(keys@.len() as int) =~= keys@);
        }
    }

    /// Drops every entry.
    pub fn make_dirty_all(&mut self)
        ensures
            final(self).entries() == Map::<i64, CacheEntry<V>>::empty(),
            final(self).ttl() == old(self).ttl(),
    {
        self.map.clear();
    }

    /// Partitions the requested keys at `now`: the pairs answerable from the
    /// cache, and the keys that one batched remote call must cover.
    pub fn plan_batch(&self, keys: &Vec<i64>, now: u64) -> (r: (Vec<(i64, Arc<V>)>, Vec<i64>))
        ensures
            r.0@ == self.fresh_pairs_of(keys@, now),
            r.1@ == self.stale_keys_of(keys@, now),
    {
        let mut fresh: Vec<(i64, Arc<V>)> = Vec::new();
        let mut stale: Vec<i64> = Vec::new();
        let mut i: usize = 0;
        while i < keys.len()
            invariant
                i <= keys.len(),
                fresh@ == self.fresh_pairs_of(keys@.take(i as int), now),
                stale@ == self.stale_keys_of(keys@.take(i as int), now),
            decreases keys.len() - i,
        {
            let k = keys[i];
            proof {
                assert(keys@.take(i + 1 as int).drop_last() =~= keys@.take(i as int));
                assert(keys@.take(i + 1 as int).last() == keys@[i as int]);
            }
            match self.lookup(k, now) {
                Freshness::Fresh(Some(a)) => fresh.push((k, a)),
                Freshness::Fresh(None) => (),
                Freshness::Stale => stale.push(k),
            }
            i = i + 1;
        }
        proof {
            assert(keys@.take(keys@.len() as int) =~= keys@);
        }
        (fresh, stale)
    }

    /// Stores the outcome of a batched remote fetch, each pair stamped `now`.
    /// Entries for keys that the batch does not mention are kept as they are;
    /// when the batch names a key twice, the later pair wins.
    pub fn commit_batch(&mut self, fetched: &Vec<(i64, Arc<V>)>, now: u64)
        ensures
            final(self).entries() == committed(old(self).entries(), fetched@, now),
            final(self).ttl() == old(self).ttl(),
    {
        let ghost orig = self.entries();
        let mut i: usize = 0;
        while i < fetched.len()
            invariant
                i <= fetched.len(),
                self.entries() == committed(orig, fetched@.take(i as int), now),
                self.ttl() == old(self).ttl(),
            decreases fetched.len() - i,
        {
            let k = fetched[i].0;
            let a = share(&fetched[i].1);
            proof {
                assert(fetched@.take(i + 1 as int).drop_last() =~= fetched@.take(i as int));
                assert(fetched@.take(i + 1 as int).last() == fetched@[i as int]);
            }
            self.map.insert(k, CacheEntry { val: Some(a), at: now });
            i = i + 1;
        }
        proof {
            assert(fetched@.take(fetched@.len() as int) =~= fetched@);
        }
    }

    /// Replaces the whole map with the outcome of a fetch-all remote call:
    /// entries absent from `fetched` are dropped, remote truth is the full
    /// set.  When the batch names a key twice, the later pair wins.
    pub fn commit_all(&mut self, fetched: &Vec<(i64, Arc<V>)>, now: u64)
        ensures
            final(self).entries() == committed(
                Map::<i64, CacheEntry<V>>::empty(),
                fetched@,
                now,
            ),
            final(self).ttl() == old(self).ttl(),
    {
        self.map.clear();
        self.commit_batch(fetched, now);
    }

    /// Reads back every requested key that is fresh and present at `now`,
    /// in request order; used to assemble the merged result of a batched get.
    pub fn collect_fresh(&self, keys: &Vec<i64>, now: u64) -> (r: Vec<(i64, Arc<V>)>)
        ensures
            r@ == self.fresh_pairs_of(keys@, now),
    {
        let mut out: Vec<(i64, Arc<V>)> = Vec::new();
        let mut i: usize = 0;
        while i < keys.len()
            invariant
                i <= keys.len(),
                out@ == self.fresh_pairs_of(keys@.take(i as int), now),
            decreases keys.len() - i,
        {
            let k = keys[i];
            proof {
                assert(keys@.take(i + 1 as int).drop_last() =~= keys@.take(i as int));
                assert(keys@.take(i + 1 as int).last() == keys@[i as int]);
            }
            match self.lookup(k, now) {
                Freshness::Fresh(Some(a)) => out.push((k, a)),
                _ => (),
            }
            i = i + 1;
        }
        proof {
            assert(keys@.take(keys@.len() as int) =~= keys@);
        }
        out
    }
}

/// The map `m` after storing every pair of `s` with timestamp `now`,
/// in order, so that a later pair for the same key wins.
pub open spec fn committed<V>(
    m: Map<i64, CacheEntry<V>>,
    s: Seq<(i64, Arc<V>)>,
    now: u64,
) -> Map<i64, CacheEntry<V>>
    decreases s.len(),
{
    if s.len() == 0 {
        m
    } else {
        committed(m, s.drop_last(), now).insert(
            s.last().0,
            CacheEntry { val: Some(s.last().1), at: now },
        )
    }
}

/// Whether some pair of `s` carries the key `k`.
pub open spec fn batch_has_key<V>(s: Seq<(i64, Arc<V>)>, k: i64) -> bool {
    exists|j: int| 0 <= j < s.len() && s[j].0 == k
}

/// The value of the last pair of `s` that carries the key `k`.
pub open spec fn batch_last_value<V>(s: Seq<(i64, Arc<V>)>, k: i64) -> Arc<V>
    recommends
        batch_has_key(s, k),
    decreases s.len(),
    when s.len() > 0
{
    if s.last().0 == k {
        s.last().1
    } else {
        batch_last_value(s.drop_last(), k)
    }
}

/// What one committed batch does to each key: keys the batch names hold its
/// last value with timestamp `now`; every other key is untouched.
pub proof fn lemma_committed_lookup<V>(
    m: Map<i64, CacheEntry<V>>,
    s: Seq<(i64, Arc<V>)>,
    now: u64,
    k: i64,
)
    ensures
        committed(m, s, now).contains_key(k) <==> (m.contains_key(k) || batch_has_key(s, k)),
        batch_has_key(s, k) ==> committed(m, s, now)[k] == (CacheEntry {
            val: Some(batch_last_value(s, k)),
            at: now,
        }),
        !batch_has_key(s, k) && m.contains_key(k) ==> committed(m, s, now)[k] == m[k],
    decreases s.len(),
{
    if s.len() == 0 {
        assert(!batch_has_key(s, k));
    } else {
        lemma_committed_lookup(m, s.drop_last(), now, k);
        if s.last().0 == k {
            assert(batch_has_key(s, k));
        } else {
            assert(batch_has_key(s, k) <==> batch_has_key(s.drop_last(), k)) by {
                if batch_has_key(s, k) {
                    let j = choose|j: int| 0 <= j < s.len() && s[j].0 == k;
                    assert(s.drop_last()[j] == s[j]);
                }
                if batch_has_key(s.drop_last(), k) {
                    let j = choose|j: int| 0 <= j < s.len() - 1 && s.drop_last()[j].0 == k;
                    assert(s[j].0 == k);
                }
            }
        }
    }
}

/// The keys that a batch plan marks stale are exactly the requested keys
/// whose entries are missing or expired, and the fresh pairs are exactly the
/// requested keys with fresh present entries, carrying the stored values.
pub proof fn lemma_plan_batch_exact<V>(c: &CachedMap<V>, s: Seq<i64>, now: u64)
    ensures
        forall|k: i64|
            c.stale_keys_of(s, now).contains(k) <==> (s.contains(k) && !c.fresh_entry(k, now)),
        forall|j: int|
            0 <= j < c.fresh_pairs_of(s, now).len() ==> {
                let p = #[trigger] c.fresh_pairs_of(s, now)[j];
                &&& s.contains(p.0)
                &&& c.fresh_present(p.0, now)
                &&& c.entries()[p.0].val == Some(p.1)
            },
        forall|k: i64|
            s.contains(k) && c.fresh_present(k, now) ==> exists|j: int|
                0 <= j < c.fresh_pairs_of(s, now).len() && #[trigger] c.fresh_pairs_of(
                    s,
                    now,
                )[j].0 == k,
    decreases s.len(),
{
    if s.len() == 0 {
    } else {
        lemma_plan_batch_exact(c, s.drop_last(), now);
        assert forall|k: i64| s.contains(k) implies s.drop_last().contains(k) || k == s.last() by {
            let j = choose|j: int| 0 <= j < s.len() && s[j] == k;
            if j < s.len() - 1 {
                assert(s.drop_last()[j] == k);
            }
        }
        assert forall|k: i64| s.drop_last().contains(k) implies s.contains(k) by {
            let j = choose|j: int| 0 <= j < s.len() - 1 && s.drop_last()[j] == k;
            assert(s[j] == k);
        }
        assert(s.contains(s.last())) by {
            assert(s[s.len() - 1] == s.last());
        }
        let st = c.stale_keys_of(s, now);
        let strest = c.stale_keys_of(s.drop_last(), now);
        assert forall|k: i64| st.contains(k) implies (strest.contains(k) || (k == s.last()
            && !c.fresh_entry(k, now))) by {
            let j = choose|j: int| 0 <= j < st.len() && st[j] == k;
            if j < strest.len() {
                assert(strest[j] == k);
            }
        }
        assert forall|k: i64| strest.contains(k) implies st.contains(k) by {
            let j = choose|j: int| 0 <= j < strest.len() && strest[j] == k;
            assert(st[j] == k);
        }
        if !c.fresh_entry(s.last(), now) {
            assert(st[strest.len() as int] == s.last());
            assert(st.contains(s.last()));
        }
        let rest = c.fresh_pairs_of(s.drop_last(), now);
        if c.fresh_present(s.last(), now) {
            assert forall|k: i64|
                s.contains(k) && c.fresh_present(k, now) implies exists|j: int|
                0 <= j < c.fresh_pairs_of(s, now).len() && #[trigger] c.fresh_pairs_of(
                    s,
                    now,
                )[j].0 == k by {
                if k == s.last() {
                    assert(c.fresh_pairs_of(s, now)[rest.len() as int].0 == k);
                } else {
                    let j = choose|j: int| 0 <= j < rest.len() && #[trigger] rest[j].0 == k;
                    assert(c.fresh_pairs_of(s, now)[j].0 == k);
                }
            }
        } else {
            assert forall|k: i64|
                s.contains(k) && c.fresh_present(k, now) implies exists|j: int|
                0 <= j < c.fresh_pairs_of(s, now).len() && #[trigger] c.fresh_pairs_of(
                    s,
                    now,
                )[j].0 == k by {
                let j = choose|j: int| 0 <= j < rest.len() && #[trigger] rest[j].0 == k;
                assert(c.fresh_pairs_of(s, now)[j].0 == k);
            }
        }
    }
}

/// After a value is committed for `key` at time `t`, every read within the
/// TTL window is answered from the cache with exactly that value: no second
/// remote call happens while the entry is fresh.
pub proof fn law_map_get_after_refresh<V>(
    pre: CachedMap<V>,
    post: CachedMap<V>,
    key: i64,
    v: Arc<V>,
    t: u64,
    now: u64,
)
    requires
        post.entries() == pre.entries().insert(key, (CacheEntry { val: Some(v), at: t })),
        post.ttl() == pre.ttl(),
        t <= now,
        now - t < post.ttl(),
    ensures
        post.fresh_entry(key, now),
        post.entries()[key].val == Some(v),
{
}

/// After `make_dirty(key)` the very next read demands a fetch even inside
/// the TTL window, and one single commit makes the key fresh again: the
/// dirty key costs exactly one remote call.
pub proof fn law_map_dirty_then_one_fetch<V>(
    pre: CachedMap<V>,
    dirtied: CachedMap<V>,
    committed_c: CachedMap<V>,
    key: i64,
    v: Arc<V>,
    t: u64,
    now: u64,
)
    requires
        dirtied.entries() == pre.entries().remove(key),
        dirtied.ttl() == pre.ttl(),
        committed_c.entries() == dirtied.entries().insert(key, (CacheEntry { val: Some(v), at: t })),
        committed_c.ttl() == dirtied.ttl(),
        t <= now,
        now - t < committed_c.ttl(),
    ensures
        !dirtied.fresh_entry(key, t),
        committed_c.fresh_entry(key, now),
        committed_c.entries()[key].val == Some(v),
{
}

/// One batched get touches the remote source only for the stale half, and
/// its merged answer covers every requested key the remote knows: a key the
/// batch fetched carries the fetched value, and a key that was fresh before
/// (and not refetched) still carries its old value.
pub proof fn law_batch_merge_covers<V>(
    pre: CachedMap<V>,
    post: CachedMap<V>,
    keys: Seq<i64>,
    fetched: Seq<(i64, Arc<V>)>,
    now: u64,
)
    requires
        post.entries() == committed(pre.entries(), fetched, now),
        post.ttl() == pre.ttl(),
        post.ttl() > 0,
        forall|j: int| 0 <= j < fetched.len() ==> !pre.fresh_entry(#[trigger] fetched[j].0, now),
    ensures
        forall|k: i64|
            pre.stale_keys_of(keys, now).contains(k) <==> (keys.contains(k) && !pre.fresh_entry(
                k,
                now,
            )),
        forall|k: i64| #[trigger]
            batch_has_key(fetched, k) ==> post.fresh_present(k, now) && post.entries()[k].val
                == Some(batch_last_value(fetched, k)),
        forall|k: i64|
            keys.contains(k) && pre.fresh_present(k, now) && !batch_has_key(fetched, k)
                ==> post.fresh_present(k, now) && post.entries()[k].val == pre.entries()[k].val,
{
    lemma_plan_batch_exact(&pre, keys, now);
    assert forall|k: i64| #[trigger] batch_has_key(fetched, k) implies post.fresh_present(k, now)
        && post.entries()[k].val == Some(batch_last_value(fetched, k)) by {
        lemma_committed_lookup(pre.entries(), fetched, now, k);
    }
    assert forall|k: i64|
        keys.contains(k) && pre.fresh_present(k, now) && !batch_has_key(
            fetched,
            k,
        ) implies post.fresh_present(k, now) && post.entries()[k].val == pre.entries()[k].val by {
        lemma_committed_lookup(pre.entries(), fetched, now, k);
    }
}

/// After a fetch-all commit, a key absent from the new remote result is not
/// found, even when it was present and fresh before: the replacement drops it.
pub proof fn law_refresh_all_drops<V>(
    pre: CachedMap<V>,
    post: CachedMap<V>,
    fetched: Seq<(i64, Arc<V>)>,
    now: u64,
    key: i64,
)
    requires
        post.entries() == committed(Map::<i64, CacheEntry<V>>::empty(), fetched, now),
        !batch_has_key(fetched, key),
    ensures
        !post.entries().contains_key(key),
        forall|t: u64| !post.fresh_entry(key, t),
{
    lemma_committed_lookup(Map::<i64, CacheEntry<V>>::empty(), fetched, now, key);
}

/// Single-value cache: at most one entry, no key.
pub struct Cached<V> {
    slot: Option<(Arc<V>, u64)>,
    ttl: u64,
}

impl<V> Cached<V> {
    /// The stored value with its fetch time, if any.
    pub closed spec fn entry(&self) -> Option<(Arc<V>, u64)> {
        self.slot
    }

    /// The time-to-live applied by reads.
    pub closed spec fn ttl(&self) -> u64 {
        self.ttl
    }

    /// The stored value exists and is fresh at `now`.
    pub open spec fn fresh(&self, now: u64) -> bool {
        self.entry() is Some && fresh_at(self.entry()->Some_0.1, now, self.ttl())
    }

    /// Creates an empty cache whose reads use `ttl`.
    pub fn new(ttl: u64) -> (r: Self)
        ensures
            r.entry() is None,
            r.ttl() == ttl,
    {
        Cached { slot: None, ttl }
    }

    /// Changes the TTL used by subsequent reads; the stored entry is kept
    /// and re-judged against the new TTL only when it is next read.
    pub fn set_cache_time(&mut self, ttl: u64)
        ensures
            final(self).entry() == old(self).entry(),
            final(self).ttl() == ttl,
    {
        self.ttl = ttl;
    }

    /// Answers from the cache when the stored value is fresh at `now`;
    /// otherwise demands a fetch.  The cache is not changed.
    pub fn lookup(&self, now: u64) -> (r: Freshness<Arc<V>>)
        ensures
            r == if self.fresh(now) {
                Freshness::Fresh(self.entry()->Some_0.0)
            } else {
                Freshness::<Arc<V>>::Stale
            },
    {
        match &self.slot {
            Some((a, at)) => {
                if is_fresh_at(*at, now, self.ttl) {
                    Freshness::Fresh(share(a))
                } else {
                    Freshness::Stale
                }
            },
            None => Freshness::Stale,
        }
    }

    /// Stores the result of a remote fetch, stamped `now`, overwriting any
    /// existing entry regardless of freshness.  Hands the stored value back.
    pub fn commit(&mut self, fetched: Arc<V>, now: u64) -> (r: Arc<V>)
        ensures
            final(self).entry() == Some((fetched, now)),
            final(self).ttl() == old(self).ttl(),
            r == fetched,
    {
        let r = share(&fetched);
        self.slot = Some((fetched, now));
        r
    }

    /// Clears the stored value; no fetch is triggered.
    pub fn make_dirty(&mut self)
        ensures
            final(self).entry() is None,
            final(self).ttl() == old(self).ttl(),
    {
        self.slot = None;
    }
}

/// After a value is committed at time `t`, every read within the TTL window
/// is answered from the cache with exactly that value.
pub proof fn law_single_get_after_refresh<V>(
    pre: Cached<V>,
    post: Cached<V>,
    v: Arc<V>,
    t: u64,
    now: u64,
)
    requires
        post.entry() == Some((v, t)),
        post.ttl() == pre.ttl(),
        t <= now,
        now - t < post.ttl(),
    ensures
        post.fresh(now),
        post.entry()->Some_0.0 == v,
{
}

/// After `make_dirty` the very next read demands a fetch even inside the
/// TTL window, and one single commit makes the cache fresh again.
pub proof fn law_single_dirty_then_one_fetch<V>(
    dirtied: Cached<V>,
    committed_c: Cached<V>,
    v: Arc<V>,
    t: u64,
    now: u64,
)
    requires
        dirtied.entry() is None,
        committed_c.entry() == Some((v, t)),
        t <= now,
        now - t < committed_c.ttl(),
    ensures
        !dirtied.fresh(t),
        committed_c.fresh(now),
        committed_c.entry()->Some_0.0 == v,
{
}

} // verus!
