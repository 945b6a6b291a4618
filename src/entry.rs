use vstd::prelude::*;

verus! {

/// A promise that `key` leaves the store once `expires_after` nanoseconds
/// have passed since `created_at`. Times are nanoseconds on the cache's clock.
pub struct EntryExpire<K> {
    pub key: K,
    pub created_at: u64,
    pub expires_after: u64,
}

impl<K> EntryExpire<K> {
    /// Time passed since the record was made; a clock reading before the
    /// record counts as no time at all.
    pub open spec fn elapsed(&self, now: u64) -> int {
        if now >= self.created_at {
            now - self.created_at
        } else {
            0
        }
    }

    /// Time left before the record is due: `max(0, ttl - elapsed)`.
    pub open spec fn spec_expires_in(&self, now: u64) -> int {
        if self.elapsed(now) >= self.expires_after {
            0
        } else {
            self.expires_after - self.elapsed(now)
        }
    }

    /// The record is due once no time is left.
    pub open spec fn spec_is_due(&self, now: u64) -> bool {
        self.spec_expires_in(now) == 0
    }

    /// The instant at which the record falls due.
    pub open spec fn expires_at(&self) -> int {
        self.created_at + self.expires_after
    }

    /// A record for `key`, made at `created_at`, living `expires_after`.
    pub fn new(key: K, created_at: u64, expires_after: u64) -> (r: Self)
        ensures
            r.key == key,
            r.created_at == created_at,
            r.expires_after == expires_after,
    {
        EntryExpire { key, created_at, expires_after }
    }

    /// Time left at `now` before the record is due, zero once it is.
    pub fn expires_in(&self, now: u64) -> (r: u64)
        ensures
            r == self.spec_expires_in(now),
    {
        let elapsed: u64 = if now >= self.created_at {
            now - self.created_at
        } else {
            0
        };
        if elapsed >= self.expires_after {
            0
        } else {
            self.expires_after - elapsed
        }
    }

    /// Whether the record is due at `now`.
    pub fn is_due(&self, now: u64) -> (r: bool)
        ensures
            r == self.spec_is_due(now),
    {
        self.expires_in(now) == 0
    }
}

/// A record read at or after its creation is due exactly from its
/// expiration instant on.
pub proof fn lemma_due_iff_expired<K>(e: EntryExpire<K>, now: u64)
    requires
        now >= e.created_at,
    ensures
        e.spec_is_due(now) <==> now >= e.expires_at(),
{
}

} // verus!
