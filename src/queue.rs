use vstd::prelude::*;
use std::collections::VecDeque;

use crate::config::AsyncTtlConfig;
use crate::entry::EntryExpire;
use crate::map::CacheMap;

verus! {

broadcast use vstd::std_specs::vecdeque::group_vec_dequeue_axioms;

/// How many records at the front of `s` are due at `now`, counted until the
/// first one that is not.
pub open spec fn due_prefix<K>(s: Seq<EntryExpire<K>>, now: u64) -> nat
    decreases s.len(),
{
    if s.len() == 0 || !s[0].spec_is_due(now) {
        0
    } else {
        1 + due_prefix(s.drop_first(), now)
    }
}

/// The keys that the records of `s` name.
pub open spec fn keys_of<K>(s: Seq<EntryExpire<K>>) -> Set<K> {
    Set::new(|k: K| exists|j: int| 0 <= j < s.len() && s[j].key == k)
}

/// The queue left by one eviction pass at `now`: the due front is gone.
pub open spec fn evicted_queue<K>(s: Seq<EntryExpire<K>>, now: u64) -> Seq<EntryExpire<K>> {
    s.skip(due_prefix(s, now) as int)
}

/// The store left by one eviction pass at `now`: each key of a due front
/// record is gone.
pub open spec fn evicted_store<K, V>(m: Map<K, V>, s: Seq<EntryExpire<K>>, now: u64) -> Map<K, V> {
    m.remove_keys(keys_of(s.take(due_prefix(s, now) as int)))
}

/// How long the eviction loop sleeps at `now`: the time left to the front
/// record plus the grace delay, or the empty-queue pause when there is none.
/// A sum past the largest `u64` stays at the largest `u64`.
pub open spec fn spec_next_delay<K>(s: Seq<EntryExpire<K>>, now: u64, config: AsyncTtlConfig) -> u64 {
    if s.len() == 0 {
        config.empty_delay
    } else if s[0].spec_expires_in(now) + config.delta_delay > u64::MAX {
        u64::MAX
    } else {
        (s[0].spec_expires_in(now) + config.delta_delay) as u64
    }
}

/// The expiration queue: records appended at the back as keys are inserted
/// and consumed from the front as they fall due.
pub struct ExpireQueue<K> {
    entries: VecDeque<EntryExpire<K>>,
}

impl<K> View for ExpireQueue<K> {
    type V = Seq<EntryExpire<K>>;

    closed spec fn view(&self) -> Seq<EntryExpire<K>> {
        self.entries@
    }
}

proof fn lemma_due_prefix_bound<K>(s: Seq<EntryExpire<K>>, now: u64)
    ensures
        due_prefix(s, now) <= s.len(),
    decreases s.len(),
{
    if s.len() > 0 && s[0].spec_is_due(now) {
        lemma_due_prefix_bound(s.drop_first(), now);
    }
}

proof fn lemma_keys_of_take_step<K>(s: Seq<EntryExpire<K>>, n: int)
    requires
        0 <= n < s.len(),
    ensures
        keys_of(s.take(n + 1)) == keys_of(s.take(n)).insert(s[n].key),
{
    let a = keys_of(s.take(n + 1));
    let b = keys_of(s.take(n)).insert(s[n].key);
    assert forall|k: K| a.contains(k) <==> b.contains(k) by {
        if a.contains(k) {
            let j = choose|j: int| 0 <= j < s.take(n + 1).len() && (#[trigger] s.take(n + 1)[j]).key == k;
            if j < n {
                assert(s.take(n)[j].key == k);
            }
        }
        if b.contains(k) && k != s[n].key {
            let j = choose|j: int| 0 <= j < s.take(n).len() && (#[trigger] s.take(n)[j]).key == k;
            assert(s.take(n + 1)[j].key == k);
        }
        if k == s[n].key {
            assert(s.take(n + 1)[n].key == k);
        }
    }
    assert(a =~= b);
}

impl<K> ExpireQueue<K> {
    /// An empty queue.
    pub fn new() -> (r: Self)
        ensures
            r@ == Seq::<EntryExpire<K>>::empty(),
    {
        ExpireQueue { entries: VecDeque::new() }
    }

    /// Number of pending records.
    pub fn len(&self) -> (r: usize)
        ensures
            r == self@.len(),
    {
        self.entries.len()
    }

    /// Appends a record at the back.
    pub fn push(&mut self, key: K, created_at: u64, expires_after: u64)
        ensures
            final(self)@ == old(self)@.push(
                (EntryExpire { key, created_at, expires_after }),
            ),
    {
        self.entries.push_back(EntryExpire::new(key, created_at, expires_after));
    }

    /// How long the eviction loop should sleep at `now` before its next pass.
    pub fn next_delay(&self, now: u64, config: &AsyncTtlConfig) -> (r: u64)
        ensures
            r == spec_next_delay(self@, now, *config),
    {
        if self.entries.len() == 0 {
            config.empty_delay
        } else {
            let left = self.entries[0].expires_in(now);
            if left > u64::MAX - config.delta_delay {
                u64::MAX
            } else {
                left + config.delta_delay
            }
        }
    }

    /// One eviction pass at `now`: pops every due record at the front and
    /// removes its key from `data`, stopping at the first record that is not
    /// due. Returns how many records were popped.
    pub fn evict_expired<T: CacheMap<K, V>, V>(&mut self, data: &mut T, now: u64) -> (n: usize)
        ensures
            n == due_prefix(old(self)@, now),
            final(self)@ == evicted_queue(old(self)@, now),
            T::obeys_map_model() ==> final(data).cache_view() == evicted_store(
                old(data).cache_view(),
                old(self)@,
                now,
            ),
    {
        let ghost q0 = self@;
        let ghost m0 = data.cache_view();
        proof {
            lemma_due_prefix_bound(q0, now);
        }
        let mut n: usize = 0;
        assert(q0.len() == self.entries.len());
        while self.entries.len() > 0 && self.entries[0].is_due(now)
            invariant
                n <= q0.len(),
                q0.len() <= usize::MAX,
                self@ == q0.skip(n as int),
                due_prefix(q0, now) == n + due_prefix(self@, now),
                T::obeys_map_model() ==> data.cache_view() == m0.remove_keys(
                    keys_of(q0.take(n as int)),
                ),
            decreases self@.len(),
        {
            proof {
                assert(q0.skip(n as int).len() == q0.len() - n);
            }
            let popped = self.entries.pop_front();
            match popped {
                Some(e) => {
                    data.remove_cache(&e.key);
                    proof {
                        assert(self@ =~= q0.skip(n + 1));
                        lemma_keys_of_take_step(q0, n as int);
                        assert(q0[n as int] == e);
                        assert(m0.remove_keys(keys_of(q0.take(n as int))).remove(e.key) =~= m0.remove_keys(
                            keys_of(q0.take(n + 1)),
                        ));
                    }
                    n = n + 1;
                },
                None => {},
            }
        }
        n
    }
}

/// Inserts `value` under `key` into `data` and appends a record for a copy
/// of `key`, made at `now` with the cache's time-to-live, at the back of
/// `queue`. Callers that share the two take the queue's lock first.
///
/// An earlier record for the same key stays where it is, so the key leaves
/// the store when the first of its records falls due.
pub fn insert_entry<T: CacheMap<K, V>, K: Clone, V>(
    queue: &mut ExpireQueue<K>,
    data: &mut T,
    key: K,
    value: V,
    now: u64,
    config: &AsyncTtlConfig,
)
    ensures
        T::obeys_map_model() ==> final(data).cache_view() == old(data).cache_view().insert(
            key,
            value,
        ),
        final(queue)@.len() == old(queue)@.len() + 1,
        final(queue)@.drop_last() == old(queue)@,
        final(queue)@.last().created_at == now,
        final(queue)@.last().expires_after == config.expires_after,
        vstd::pervasive::cloned(key, final(queue)@.last().key),
{
    let copy = key.clone();
    data.insert_cache(key, value);
    queue.push(copy, now, config.expires_after);
    proof {
        assert(queue@.drop_last() =~= old(queue)@);
    }
}

} // verus!
