use vstd::prelude::*;
use std::collections::{BTreeMap, HashMap};
use std::hash::Hash;

verus! {

/// A key/value store that a cache can hold its entries in.
///
/// Any associative container fits: the cache only inserts and removes.
pub trait CacheMap<K, V>: Sized {
    /// The pairs that the store holds.
    spec fn cache_view(&self) -> Map<K, V>;

    /// Holds when the key type's comparison or hashing is coherent, so that
    /// the store behaves as a map.
    spec fn obeys_map_model() -> bool;

    /// Inserts an entry, replacing the value of an existing key.
    fn insert_cache(&mut self, key: K, value: V)
        ensures
            Self::obeys_map_model() ==> final(self).cache_view() == old(self).cache_view().insert(
                key,
                value,
            ),
    ;

    /// Removes an entry; a missing key is left alone.
    fn remove_cache(&mut self, key: &K)
        ensures
            Self::obeys_map_model() ==> final(self).cache_view() == old(self).cache_view().remove(
                *key,
            ),
    ;
}

impl<K: Hash + Eq, V> CacheMap<K, V> for HashMap<K, V> {
    open spec fn cache_view(&self) -> Map<K, V> {
        self@
    }

    open spec fn obeys_map_model() -> bool {
        vstd::std_specs::hash::obeys_key_model::<K>()
    }

    fn insert_cache(&mut self, key: K, value: V) {
        self.insert(key, value);
    }

    fn remove_cache(&mut self, key: &K) {
        proof {
            broadcast use vstd::std_specs::hash::group_hash_axioms;
        }
        self.remove(key);
    }
}

impl<K: Ord, V> CacheMap<K, V> for BTreeMap<K, V> {
    open spec fn cache_view(&self) -> Map<K, V> {
        self@
    }

    open spec fn obeys_map_model() -> bool {
        vstd::laws_cmp::obeys_cmp::<K>()
    }

    fn insert_cache(&mut self, key: K, value: V) {
        self.insert(key, value);
    }

    fn remove_cache(&mut self, key: &K) {
        proof {
            broadcast use vstd::std_specs::btree::group_btree_axioms;
        }
        self.remove(key);
    }
}

} // verus!
