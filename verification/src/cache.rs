use std::collections::HashMap;
use std::hash::Hash;

use vstd::prelude::*;
use vstd::std_specs::hash::obeys_key_model;

verus! {

broadcast use vstd::std_specs::hash::group_hash_axioms;

/// What the cache keeps per key: the value, its weight in bytes, and the
/// tick of its last use.
pub type Entry<V> = (V, usize, u64);

/// Key types the cache can reason about: hashing and equality agree with
/// identity, and a clone is the same key.
pub open spec fn faithful_key<K: Clone>() -> bool {
    &&& obeys_key_model::<K>()
    &&& forall|a: K, b: K| #[trigger] vstd::pervasive::strictly_cloned(a, b) ==> a == b
}

/// Sum of the weights held in `m`.
pub open spec fn total_weight<K, V>(m: Map<K, Entry<V>>) -> int
    decreases m.len(),
    when m.dom().finite()
{
    if m.len() == 0 {
        0
    } else {
        let k = m.dom().choose();
        if m.contains_key(k) {
            m[k].1 + total_weight(m.remove(k))
        } else {
            0
        }
    }
}

/// The key used longest ago.
pub open spec fn least_recent<K, V>(m: Map<K, Entry<V>>) -> K {
    choose|k: K| m.contains_key(k) && forall|j: K| #[trigger] m.contains_key(j) ==> m[k].2 <= m[j].2
}

/// Whether a value of `incoming` bytes still lacks room in `m`.
pub open spec fn crowded<K, V>(m: Map<K, Entry<V>>, incoming: int, budget: int, limit: int) -> bool {
    m.len() != 0 && (total_weight(m) + incoming > budget || m.len() >= limit)
}

/// What is left of `m` once the least recently used entries have been dropped
/// until a value of `incoming` bytes fits.
pub open spec fn evict<K, V>(m: Map<K, Entry<V>>, incoming: int, budget: int, limit: int) -> Map<
    K,
    Entry<V>,
>
    decreases m.len(),
    when m.dom().finite()
{
    if crowded(m, incoming, budget, limit) && m.contains_key(least_recent(m)) {
        evict(m.remove(least_recent(m)), incoming, budget, limit)
    } else {
        m
    }
}

pub proof fn lemma_total_remove<K, V>(m: Map<K, Entry<V>>, k: K)
    requires
        m.dom().finite(),
        m.contains_key(k),
    ensures
        total_weight(m) == m[k].1 + total_weight(m.remove(k)),
    decreases m.len(),
{
    let c = m.dom().choose();
    assert(m.dom().contains(c));
    if c != k {
        lemma_total_remove(m.remove(c), k);
        lemma_total_remove(m.remove(k), c);
        assert(m.remove(c).remove(k) =~= m.remove(k).remove(c));
    }
}

pub proof fn lemma_total_nonnegative<K, V>(m: Map<K, Entry<V>>)
    requires
        m.dom().finite(),
    ensures
        total_weight(m) >= 0,
    decreases m.len(),
{
    if m.len() != 0 {
        let c = m.dom().choose();
        assert(m.dom().contains(c));
        lemma_total_nonnegative(m.remove(c));
    }
}

pub proof fn lemma_total_empty<K, V>(m: Map<K, Entry<V>>)
    requires
        m.len() == 0,
        m.dom().finite(),
    ensures
        total_weight(m) == 0,
{
}

pub proof fn lemma_least_recent_exists<K, V>(m: Map<K, Entry<V>>)
    requires
        m.dom().finite(),
        m.len() != 0,
    ensures
        m.contains_key(least_recent(m)),
        forall|j: K| #[trigger] m.contains_key(j) ==> m[least_recent(m)].2 <= m[j].2,
    decreases m.len(),
{
    let c = m.dom().choose();
    assert(m.dom().contains(c));
    let rest = m.remove(c);
    if rest.len() == 0 {
        assert forall|j: K| #[trigger] m.contains_key(j) implies m[c].2 <= m[j].2 by {
            if j != c {
                assert(rest.contains_key(j));
            }
        }
    } else {
        lemma_least_recent_exists(rest);
        let r = least_recent(rest);
        if m[c].2 <= m[r].2 {
            assert forall|j: K| #[trigger] m.contains_key(j) implies m[c].2 <= m[j].2 by {
                if j != c {
                    assert(rest.contains_key(j));
                }
            }
        } else {
            assert forall|j: K| #[trigger] m.contains_key(j) implies m[r].2 <= m[j].2 by {
                if j != c {
                    assert(rest.contains_key(j));
                }
            }
        }
    }
}

/// A cache bounded both by total weight and by number of entries, which makes
/// room by dropping the entries used longest ago.
pub struct BudgetCache<K, V> {
    entries: HashMap<K, Entry<V>>,
    bytes: usize,
    budget: usize,
    limit: usize,
    clock: u64,
}

impl<K: Eq + Hash + Clone, V> BudgetCache<K, V> {
    /// The entries held, by key.
    pub closed spec fn entries(self) -> Map<K, Entry<V>> {
        self.entries@
    }

    /// Bytes currently accounted to the entries.
    pub closed spec fn used(self) -> nat {
        self.bytes as nat
    }

    /// The most bytes the cache may hold.
    pub closed spec fn budget(self) -> nat {
        self.budget as nat
    }

    /// The most entries the cache may hold.
    pub closed spec fn limit(self) -> nat {
        self.limit as nat
    }

    /// The tick of the latest use.
    pub closed spec fn clock(self) -> nat {
        self.clock as nat
    }

    /// The cache's invariant: the accounting is exact, both bounds hold, and
    /// every entry carries its own tick, none later than the clock.
    pub open spec fn wf(self) -> bool {
        &&& faithful_key::<K>()
        &&& self.entries().dom().finite()
        &&& self.used() == total_weight(self.entries())
        &&& self.used() <= self.budget()
        &&& self.entries().len() <= self.limit()
        &&& forall|k: K| #[trigger] self.entries().contains_key(k) ==> self.entries()[k].2 <= self.clock()
        &&& forall|a: K, b: K|
            #![trigger self.entries()[a], self.entries()[b]]
            self.entries().contains_key(a) && self.entries().contains_key(b) && a != b
                ==> self.entries()[a].2 != self.entries()[b].2
    }

    pub fn new(budget: usize, limit: usize) -> (cache: Self)
        requires
            faithful_key::<K>(),
        ensures
            cache.wf(),
            cache.entries() == Map::<K, Entry<V>>::empty(),
            cache.used() == 0,
            cache.budget() == budget,
            cache.limit() == limit,
            cache.clock() == 0,
    {
        let cache = Self { entries: HashMap::new(), bytes: 0, budget, limit, clock: 0 };
        proof {
            lemma_total_empty(cache.entries@);
        }
        cache
    }

    pub fn clear(&mut self)
        requires
            old(self).wf(),
        ensures
            final(self).wf(),
            final(self).entries() == Map::<K, Entry<V>>::empty(),
            final(self).used() == 0,
            final(self).budget() == old(self).budget(),
            final(self).limit() == old(self).limit(),
            final(self).clock() == old(self).clock(),
    {
        self.entries.clear();
        self.bytes = 0;
        proof {
            lemma_total_empty(self.entries@);
        }
    }

    /// Looks `key` up; a hit becomes the most recently used entry.
    pub fn get(&mut self, key: &K) -> (found: Option<&V>)
        requires
            old(self).wf(),
            old(self).clock() < u64::MAX,
        ensures
            final(self).wf(),
            final(self).clock() == old(self).clock() + 1,
            final(self).budget() == old(self).budget(),
            final(self).limit() == old(self).limit(),
            final(self).used() == old(self).used(),
            old(self).entries().contains_key(*key) ==> {
                let (value, weight, _) = old(self).entries()[*key];
                &&& final(self).entries() == old(self).entries().insert(
                    *key,
                    (value, weight, (old(self).clock() + 1) as u64),
                )
                &&& found == Some(&value)
            },
            !old(self).entries().contains_key(*key) ==> {
                &&& final(self).entries() == old(self).entries()
                &&& found == None::<&V>
            },
    {
        self.clock = self.clock + 1;
        let ghost before = self.entries@;
        match self.entries.remove(key) {
            Some((value, weight, _)) => {
                let stored = key.clone();
                proof {
                    assert(vstd::pervasive::strictly_cloned(*key, stored));
                }
                self.entries.insert(stored, (value, weight, self.clock));
                proof {
                    let after = before.insert(*key, (value, weight, self.clock));
                    assert(self.entries@ =~= after);
                    lemma_total_remove(before, *key);
                    lemma_total_remove(after, *key);
                    assert(after.remove(*key) =~= before.remove(*key));
                }
                match self.entries.get(key) {
                    Some(entry) => Some(&entry.0),
                    None => None,
                }
            },
            None => {
                proof {
                    assert(self.entries@ =~= before);
                }
                None
            },
        }
    }

    /// The key used longest ago, found by a scan of the entries.
    fn least_recent_key(&self) -> (oldest: K)
        requires
            self.wf(),
            self.entries().len() != 0,
        ensures
            oldest == least_recent(self.entries()),
    {
        let ghost m = self.entries@;
        let mut best: Option<(&K, u64)> = None;
        for (k, entry) in it: self.entries.iter()
            invariant
                m == self.entries@,
                self.wf(),
                it.seq().len() == m.dom().len(),
                forall|i: int| #![trigger it.seq()[i]] 0 <= i < it.seq().len() ==> m.contains_key(*it.seq()[i].0) && m[*it.seq()[i].0] == *it.seq()[i].1,
                forall|k: K| #[trigger] m.contains_key(k) ==> it.seq().contains((&k, &m[k])),
                it.index() == 0 <==> best is None,
                best matches Some((bk, bs)) ==> {
                    &&& m.contains_key(*bk)
                    &&& m[*bk].2 == bs
                    &&& forall|i: int| #![trigger it.seq()[i]] 0 <= i < it.index() ==> bs <= it.seq()[i].1.2
                },
            ensures
                m.len() != 0 ==> best is Some,
                best matches Some((bk, bs)) ==> {
                    &&& m.contains_key(*bk)
                    &&& m[*bk].2 == bs
                    &&& forall|k: K| #[trigger] m.contains_key(k) ==> bs <= m[k].2
                },
        {
            let replace = match best {
                Some((_, stamp)) => entry.2 < stamp,
                None => true,
            };
            if replace {
                best = Some((k, entry.2));
            }
        }
        proof {
            lemma_least_recent_exists(m);
        }
        let (k, _) = best.unwrap();
        proof {
            let spec_oldest = least_recent(m);
            assert(m[*k].2 <= m[spec_oldest].2);
            assert(m[spec_oldest].2 <= m[*k].2);
        }
        let oldest = k.clone();
        proof {
            assert(vstd::pervasive::strictly_cloned(*k, oldest));
        }
        oldest
    }

    /// Drops `key`'s entry, if there is one.
    fn forget(&mut self, key: &K)
        requires
            old(self).wf(),
        ensures
            final(self).wf(),
            final(self).entries() == old(self).entries().remove(*key),
            final(self).budget() == old(self).budget(),
            final(self).limit() == old(self).limit(),
            final(self).clock() == old(self).clock(),
    {
        let ghost start = self.entries@;
        match self.entries.remove(key) {
            Some((_, weight, _)) => {
                proof {
                    lemma_total_remove(start, *key);
                    lemma_total_nonnegative(start.remove(*key));
                }
                self.bytes = self.bytes - weight;
            },
            None => {
                proof {
                    assert(start.remove(*key) =~= start);
                }
            },
        }
        proof {
            assert(self.entries@ =~= start.remove(*key));
        }
    }

    /// Drops least recently used entries until a value of `incoming` bytes fits
    /// both bounds.
    fn make_room(&mut self, incoming: usize)
        requires
            old(self).wf(),
            incoming <= old(self).budget(),
            old(self).limit() > 0,
        ensures
            final(self).wf(),
            final(self).entries() == evict(
                old(self).entries(),
                incoming as int,
                old(self).budget() as int,
                old(self).limit() as int,
            ),
            final(self).used() + incoming <= final(self).budget(),
            final(self).entries().len() < final(self).limit(),
            final(self).budget() == old(self).budget(),
            final(self).limit() == old(self).limit(),
            final(self).clock() == old(self).clock(),
    {
        let ghost base = self.entries@;
        let ghost budget = self.budget;
        let ghost limit = self.limit;
        let ghost clock = self.clock;
        while !self.entries.is_empty() && (incoming > self.budget - self.bytes
            || self.entries.len() >= self.limit)
            invariant
                self.wf(),
                self.budget == budget,
                self.limit == limit,
                self.clock == clock,
                incoming <= budget,
                limit > 0,
                evict(self.entries@, incoming as int, budget as int, limit as int) == evict(
                    base,
                    incoming as int,
                    budget as int,
                    limit as int,
                ),
            decreases self.entries@.len(),
        {
            let oldest = self.least_recent_key();
            let ghost current = self.entries@;
            proof {
                lemma_least_recent_exists(current);
                assert(crowded(current, incoming as int, budget as int, limit as int));
            }
            self.forget(&oldest);
        }
        proof {
            lemma_total_nonnegative(self.entries@);
        }
    }

    /// Stores a key that is not held yet, as the most recently used entry.
    fn add_fresh(&mut self, key: K, value: V, bytes: usize)
        requires
            old(self).wf(),
            !old(self).entries().contains_key(key),
            old(self).used() + bytes <= old(self).budget(),
            old(self).entries().len() < old(self).limit(),
            old(self).clock() < u64::MAX,
        ensures
            final(self).wf(),
            final(self).entries() == old(self).entries().insert(
                key,
                (value, bytes, (old(self).clock() + 1) as u64),
            ),
            final(self).budget() == old(self).budget(),
            final(self).limit() == old(self).limit(),
            final(self).clock() == old(self).clock() + 1,
    {
        let ghost room = self.entries@;
        let ghost stamp = (self.clock + 1) as u64;
        proof {
            let added = room.insert(key, (value, bytes, stamp));
            lemma_total_remove(added, key);
            assert(added.remove(key) =~= room);
        }
        self.clock = self.clock + 1;
        self.bytes = self.bytes + bytes;
        self.entries.insert(key, (value, bytes, self.clock));
        proof {
            assert(self.entries@ =~= room.insert(key, (value, bytes, stamp)));
        }
    }

    /// Stores `value` under `key` with a weight of `bytes`, first dropping the
    /// least recently used entries until it fits. A value heavier than the
    /// whole budget, or any value when the cache may hold no entry, is not
    /// stored and the cache is left as it was.
    #[verifier::rlimit(40)]
    pub fn insert(&mut self, key: K, value: V, bytes: usize)
        requires
            old(self).wf(),
            old(self).clock() < u64::MAX,
        ensures
            final(self).wf(),
            final(self).budget() == old(self).budget(),
            final(self).limit() == old(self).limit(),
            bytes > old(self).budget() || old(self).limit() == 0 ==> {
                &&& final(self).entries() == old(self).entries()
                &&& final(self).used() == old(self).used()
                &&& final(self).clock() == old(self).clock()
            },
            final(self).used() == total_weight(final(self).entries()),
            final(self).used() <= final(self).budget(),
            final(self).entries().len() <= final(self).limit(),
            !(bytes > old(self).budget() || old(self).limit() == 0) ==> {
                &&& final(self).entries().contains_key(key)
                &&& final(self).entries()[key] == (value, bytes, (old(self).clock() + 1) as u64)
                &&& final(self).clock() == old(self).clock() + 1
                &&& final(self).entries() == evict(
                    old(self).entries().remove(key),
                    bytes as int,
                    old(self).budget() as int,
                    old(self).limit() as int,
                ).insert(key, (value, bytes, (old(self).clock() + 1) as u64))
            },
    {
        if bytes > self.budget || self.limit == 0 {
            return;
        }
        self.forget(&key);
        let ghost without = self.entries@;
        self.make_room(bytes);
        proof {
            lemma_evict_shrinks(without, bytes as int, self.budget as int, self.limit as int);
        }
        self.add_fresh(key, value, bytes);
    }
}

/// What eviction keeps is part of what it started from.
pub proof fn lemma_evict_shrinks<K, V>(m: Map<K, Entry<V>>, incoming: int, budget: int, limit: int)
    requires
        m.dom().finite(),
    ensures
        evict(m, incoming, budget, limit).dom().subset_of(m.dom()),
        forall|k: K| #[trigger] evict(m, incoming, budget, limit).contains_key(k) ==> evict(m, incoming, budget, limit)[k] == m[k],
    decreases m.len(),
{
    if crowded(m, incoming, budget, limit) && m.contains_key(least_recent(m)) {
        lemma_evict_shrinks(m.remove(least_recent(m)), incoming, budget, limit);
    }
}

/// Eviction only drops entries that were used less recently than every entry
/// it keeps.
pub proof fn eviction_drops_least_recent<K, V>(
    m: Map<K, Entry<V>>,
    incoming: int,
    budget: int,
    limit: int,
    dropped: K,
    kept: K,
)
    requires
        m.dom().finite(),
        forall|a: K, b: K|
            #![trigger m[a], m[b]]
            m.contains_key(a) && m.contains_key(b) && a != b ==> m[a].2 != m[b].2,
        m.contains_key(dropped),
        !evict(m, incoming, budget, limit).contains_key(dropped),
        evict(m, incoming, budget, limit).contains_key(kept),
    ensures
        m[dropped].2 < m[kept].2,
    decreases m.len(),
{
    let oldest = least_recent(m);
    lemma_least_recent_exists(m);
    let rest = m.remove(oldest);
    lemma_evict_shrinks(rest, incoming, budget, limit);
    assert(rest.contains_key(kept));
    if dropped == oldest {
        assert(m[oldest].2 <= m[kept].2);
        assert(kept != oldest);
    } else {
        assert(rest.contains_key(dropped));
        eviction_drops_least_recent(rest, incoming, budget, limit, dropped, kept);
    }
}

/// Once eviction is done, a value of `incoming` bytes fits: the weights left
/// plus the newcomer stay within the budget and the entries within the limit.
pub proof fn eviction_makes_room<K, V>(m: Map<K, Entry<V>>, incoming: int, budget: int, limit: int)
    requires
        m.dom().finite(),
        0 <= incoming <= budget,
        limit > 0,
    ensures
        total_weight(evict(m, incoming, budget, limit)) + incoming <= budget,
        evict(m, incoming, budget, limit).len() < limit,
    decreases m.len(),
{
    if crowded(m, incoming, budget, limit) {
        lemma_least_recent_exists(m);
        eviction_makes_room(m.remove(least_recent(m)), incoming, budget, limit);
    } else if m.len() == 0 {
        lemma_total_empty(m);
    }
}

/// A value that was stored is what a lookup of its key finds, and it holds
/// the newest tick.
pub proof fn stored_value_is_found<K, V>(
    m: Map<K, Entry<V>>,
    key: K,
    value: V,
    bytes: usize,
    stamp: u64,
    incoming: int,
    budget: int,
    limit: int,
)
    ensures
        evict(m.remove(key), incoming, budget, limit).insert(key, (value, bytes, stamp)).contains_key(
            key,
        ),
        evict(m.remove(key), incoming, budget, limit).insert(key, (value, bytes, stamp))[key] == (
            value,
            bytes,
            stamp,
        ),
{
}

/// When the oldest entry is the most recently used of those eviction drops,
/// it is the only one dropped, and without it the value fits.
proof fn lemma_stop_at_oldest<K, V>(m: Map<K, Entry<V>>, incoming: int, budget: int, limit: int)
    requires
        m.dom().finite(),
        crowded(m, incoming, budget, limit),
        forall|a: K, b: K|
            #![trigger m[a], m[b]]
            m.contains_key(a) && m.contains_key(b) && a != b ==> m[a].2 != m[b].2,
        forall|k: K|
            #![trigger m[k]]
            m.contains_key(k) && !evict(m, incoming, budget, limit).contains_key(k) ==> m[k].2
                <= m[least_recent(m)].2,
    ensures
        crowded(evict(m, incoming, budget, limit).insert(least_recent(m), m[least_recent(m)]), incoming, budget, limit),
{
    lemma_evict_unfolds(m, incoming, budget, limit);
    lemma_least_recent_exists(m);
    let oldest = least_recent(m);
    let rest = m.remove(oldest);
    if crowded(rest, incoming, budget, limit) {
        lemma_evict_unfolds(rest, incoming, budget, limit);
        let next = least_recent(rest);
        lemma_evict_shrinks(rest.remove(next), incoming, budget, limit);
        assert(m.contains_key(next));
        assert(m[next].2 <= m[oldest].2);
        assert(m[oldest].2 <= m[next].2);
        assert(false);
    }
    assert(evict(rest, incoming, budget, limit) == rest);
    assert(rest.insert(oldest, m[oldest]) =~= m);
}

/// Eviction stops as soon as the value fits: putting back the most recently
/// used of the dropped entries would leave the value without room again. So
/// the dropped entries are the shortest run, oldest first, that makes room.
/// Once the oldest entry is dropped, a map that was crowded has a new oldest
/// entry, and eviction goes on from there.
proof fn lemma_evict_unfolds<K, V>(m: Map<K, Entry<V>>, incoming: int, budget: int, limit: int)
    requires
        m.dom().finite(),
        crowded(m, incoming, budget, limit),
    ensures
        m.contains_key(least_recent(m)),
        evict(m, incoming, budget, limit) == evict(m.remove(least_recent(m)), incoming, budget, limit),
{
    lemma_least_recent_exists(m);
}

/// Eviction stops as soon as the value fits: putting back the most recently
/// used of the dropped entries would leave the value without room again. So
/// the dropped entries are the shortest run, oldest first, that makes room.
pub proof fn eviction_stops_once_it_fits<K, V>(
    m: Map<K, Entry<V>>,
    incoming: int,
    budget: int,
    limit: int,
    last: K,
)
    requires
        m.dom().finite(),
        forall|a: K, b: K|
            #![trigger m[a], m[b]]
            m.contains_key(a) && m.contains_key(b) && a != b ==> m[a].2 != m[b].2,
        m.contains_key(last),
        !evict(m, incoming, budget, limit).contains_key(last),
        forall|k: K|
            #![trigger m[k]]
            m.contains_key(k) && !evict(m, incoming, budget, limit).contains_key(k) ==> m[k].2 <= m[last].2,
    ensures
        crowded(evict(m, incoming, budget, limit).insert(last, m[last]), incoming, budget, limit),
    decreases m.len(),
{
    let e = evict(m, incoming, budget, limit);
    if !crowded(m, incoming, budget, limit) {
        assert(e == m);
        return;
    }
    lemma_evict_unfolds(m, incoming, budget, limit);
    lemma_least_recent_exists(m);
    let oldest = least_recent(m);
    let rest = m.remove(oldest);
    let er = evict(rest, incoming, budget, limit);
    assert(e == er);
    lemma_evict_shrinks(rest, incoming, budget, limit);
    if last == oldest {
        lemma_stop_at_oldest(m, incoming, budget, limit);
    } else {
        assert(rest.contains_key(last));
        assert forall|a: K, b: K|
            rest.contains_key(a) && rest.contains_key(b) && a != b implies #[trigger] rest[a].2 != #[trigger] rest[b].2 by {
            assert(m[a] == rest[a] && m[b] == rest[b]);
        }
        assert forall|k: K|
            rest.contains_key(k) && !er.contains_key(k) implies #[trigger] rest[k].2 <= rest[last].2 by {
            assert(m.contains_key(k) && m[k] == rest[k]);
        }
        eviction_stops_once_it_fits(rest, incoming, budget, limit, last);
        assert(rest[last] == m[last]);
    }
}

} // verus!
