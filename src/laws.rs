use vstd::prelude::*;

use crate::config::AsyncTtlConfig;
use crate::entry::EntryExpire;
use crate::queue::{due_prefix, evicted_queue, evicted_store, keys_of, spec_next_delay};

verus! {

/// Records in `s` fall due front to back: expiration instants never decrease.
pub open spec fn expiry_sorted<K>(s: Seq<EntryExpire<K>>) -> bool {
    forall|i: int, j: int| 0 <= i <= j < s.len() ==> #[trigger] s[i].expires_at() <= #[trigger] s[j].expires_at()
}

/// Records in `s` are as insertions leave them: one time-to-live for all,
/// creation times never decreasing front to back.
pub open spec fn in_insertion_order<K>(s: Seq<EntryExpire<K>>, ttl: u64) -> bool {
    &&& forall|i: int| 0 <= i < s.len() ==> (#[trigger] s[i]).expires_after == ttl
    &&& forall|i: int, j: int| 0 <= i <= j < s.len() ==> #[trigger] s[i].created_at <= #[trigger] s[j].created_at
}

/// Every record of `s` was made at or before `now`.
pub open spec fn created_by<K>(s: Seq<EntryExpire<K>>, now: u64) -> bool {
    forall|i: int| 0 <= i < s.len() ==> (#[trigger] s[i]).created_at <= now
}

/// The due front counted by `due_prefix` is exactly the run of due records
/// at the front.
pub proof fn lemma_due_prefix_shape<K>(s: Seq<EntryExpire<K>>, now: u64)
    ensures
        due_prefix(s, now) <= s.len(),
        forall|i: int| 0 <= i < due_prefix(s, now) ==> (#[trigger] s[i]).spec_is_due(now),
        due_prefix(s, now) < s.len() ==> !s[due_prefix(s, now) as int].spec_is_due(now),
    decreases s.len(),
{
    if s.len() > 0 && s[0].spec_is_due(now) {
        let t = s.drop_first();
        lemma_due_prefix_shape(t, now);
        assert forall|i: int| 0 <= i < due_prefix(s, now) implies (#[trigger] s[i]).spec_is_due(now) by {
            if i > 0 {
                assert(s[i] == t[i - 1]);
            }
        }
    }
}

/// When the first `n` records are all due, the due front holds at least `n`.
pub proof fn lemma_due_prefix_at_least<K>(s: Seq<EntryExpire<K>>, now: u64, n: int)
    requires
        0 <= n <= s.len(),
        forall|i: int| 0 <= i < n ==> (#[trigger] s[i]).spec_is_due(now),
    ensures
        due_prefix(s, now) >= n,
    decreases n,
{
    if n > 0 {
        let t = s.drop_first();
        assert forall|i: int| 0 <= i < n - 1 implies (#[trigger] t[i]).spec_is_due(now) by {
            assert(t[i] == s[i + 1]);
        }
        lemma_due_prefix_at_least(t, now, n - 1);
    }
}

/// An eviction pass whose queue has no due record at the front changes
/// neither the queue nor the store; and a second pass at the same instant
/// after any pass changes nothing, so running it twice is running it once.
pub proof fn lemma_eviction_idempotent<K, V>(q: Seq<EntryExpire<K>>, m: Map<K, V>, now: u64)
    ensures
        (q.len() == 0 || !q[0].spec_is_due(now)) ==> evicted_queue(q, now) == q && evicted_store(
            m,
            q,
            now,
        ) == m,
        evicted_queue(evicted_queue(q, now), now) == evicted_queue(q, now),
        evicted_store(evicted_store(m, q, now), evicted_queue(q, now), now) == evicted_store(
            m,
            q,
            now,
        ),
{
    lemma_due_prefix_shape(q, now);
    let n = due_prefix(q, now) as int;
    let r = evicted_queue(q, now);
    assert(r.len() == 0 || !r[0].spec_is_due(now)) by {
        if r.len() > 0 {
            assert(r[0] == q[n]);
        }
    }
    assert(due_prefix(r, now) == 0);
    assert(r.skip(0) =~= r);
    assert(keys_of(r.take(0)) =~= Set::<K>::empty());
    let m1 = evicted_store(m, q, now);
    assert(m1.remove_keys(Set::<K>::empty()) =~= m1);
    if q.len() == 0 || !q[0].spec_is_due(now) {
        assert(q.skip(0) =~= q);
        assert(keys_of(q.take(0)) =~= Set::<K>::empty());
        assert(m.remove_keys(Set::<K>::empty()) =~= m);
    }
}

/// A key stays in the store through an eviction pass at `now` while each of
/// its records is still pending (made by `now`, expiring after it), with the
/// same value.
pub proof fn lemma_kept_before_expiry<K, V>(q: Seq<EntryExpire<K>>, m: Map<K, V>, now: u64, k: K)
    requires
        created_by(q, now),
        m.contains_key(k),
        forall|i: int| 0 <= i < q.len() && (#[trigger] q[i]).key == k ==> now < q[i].expires_at(),
    ensures
        evicted_store(m, q, now).contains_key(k),
        evicted_store(m, q, now)[k] == m[k],
{
    lemma_due_prefix_shape(q, now);
    let n = due_prefix(q, now) as int;
    if keys_of(q.take(n)).contains(k) {
        let j = choose|j: int| 0 <= j < q.take(n).len() && (#[trigger] q.take(n)[j]).key == k;
        assert(q[j] == q.take(n)[j]);
        assert(q[j].spec_is_due(now));
        assert(false);
    }
}

/// In a queue that falls due front to back, a key with a record that has
/// expired by `now` is gone from the store after an eviction pass at `now`,
/// and so is every record up to that one.
pub proof fn lemma_gone_after_expiry<K, V>(q: Seq<EntryExpire<K>>, m: Map<K, V>, now: u64, i: int)
    requires
        expiry_sorted(q),
        created_by(q, now),
        0 <= i < q.len(),
        q[i].expires_at() <= now,
    ensures
        !evicted_store(m, q, now).contains_key(q[i].key),
        evicted_queue(q, now).len() < q.len() - i,
{
    assert forall|j: int| 0 <= j < i + 1 implies (#[trigger] q[j]).spec_is_due(now) by {
        assert(q[j].expires_at() <= q[i].expires_at());
    }
    lemma_due_prefix_at_least(q, now, i + 1);
    lemma_due_prefix_shape(q, now);
    let n = due_prefix(q, now) as int;
    assert(q.take(n)[i] == q[i]);
    assert(keys_of(q.take(n)).contains(q[i].key));
}

/// The eviction loop wakes no earlier than the front record falls due and,
/// for a front record made by `now`, exactly the grace delay after the later
/// of `now` and that record's expiration instant.
pub proof fn lemma_wake_after_front_due<K>(q: Seq<EntryExpire<K>>, now: u64, config: AsyncTtlConfig)
    requires
        q.len() > 0,
        q[0].created_at <= now,
        now + q[0].spec_expires_in(now) + config.delta_delay <= u64::MAX,
    ensures
        now + spec_next_delay(q, now, config) == (if q[0].expires_at() > now {
            q[0].expires_at()
        } else {
            now as int
        }) + config.delta_delay,
        q[0].spec_is_due((now + spec_next_delay(q, now, config)) as u64),
{
}

/// Records that insertions leave (one time-to-live, creation times in order)
/// fall due in the order they were inserted.
pub proof fn lemma_insertion_order_is_expiry_order<K>(q: Seq<EntryExpire<K>>, ttl: u64)
    requires
        in_insertion_order(q, ttl),
    ensures
        expiry_sorted(q),
{
    assert forall|i: int, j: int| 0 <= i <= j < q.len() implies #[trigger] q[i].expires_at()
        <= #[trigger] q[j].expires_at() by {
        assert(q[i].created_at <= q[j].created_at);
    }
}

/// Appending a record made no earlier than the last one, with the same
/// time-to-live, keeps a queue in insertion order.
pub proof fn lemma_append_keeps_insertion_order<K>(q: Seq<EntryExpire<K>>, e: EntryExpire<K>, ttl: u64)
    requires
        in_insertion_order(q, ttl),
        e.expires_after == ttl,
        q.len() > 0 ==> q.last().created_at <= e.created_at,
    ensures
        in_insertion_order(q.push(e), ttl),
{
    let r = q.push(e);
    assert forall|i: int, j: int| 0 <= i <= j < r.len() implies #[trigger] r[i].created_at
        <= #[trigger] r[j].created_at by {
        if j == q.len() && i < q.len() {
            assert(q[i].created_at <= q[q.len() - 1].created_at);
        }
    }
    assert forall|i: int| 0 <= i < r.len() implies (#[trigger] r[i]).expires_after == ttl by {
        if i < q.len() {
            assert(r[i] == q[i]);
        }
    }
}

/// An eviction pass keeps a queue in insertion order.
pub proof fn lemma_eviction_keeps_insertion_order<K>(q: Seq<EntryExpire<K>>, now: u64, ttl: u64)
    requires
        in_insertion_order(q, ttl),
    ensures
        in_insertion_order(evicted_queue(q, now), ttl),
{
    lemma_due_prefix_shape(q, now);
    let n = due_prefix(q, now) as int;
    let r = evicted_queue(q, now);
    assert forall|i: int| 0 <= i < r.len() implies (#[trigger] r[i]).expires_after == ttl by {
        assert(r[i] == q[i + n]);
    }
    assert forall|i: int, j: int| 0 <= i <= j < r.len() implies #[trigger] r[i].created_at
        <= #[trigger] r[j].created_at by {
        assert(r[i] == q[i + n]);
        assert(r[j] == q[j + n]);
    }
}

} // verus!
