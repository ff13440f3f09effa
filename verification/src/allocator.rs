//! Assignment of cache keys to the slots of a fixed-size table.
use vstd::prelude::*;
use std::any::TypeId;
use std::collections::hash_map::DefaultHasher;
use std::collections::HashMap;
use std::hash::Hash;
use std::hash::Hasher;
use vstd::std_specs::hash::DefaultHasherAdditionalSpecFns;
use crate::payload::same_type;
use crate::payload::is_tag_of;
use crate::payload::tag_of;

verus! {

/// The identity of a cached value: the type it has, and the hash of the
/// parameter it was made from.
pub type CacheKey = (TypeId, u64);

/// `Hash::hash`: feeds `value` to `hasher` and hands the hasher back. What
/// the hasher has then taken in is decided by the `Hash` impl of `P`, so
/// nothing is claimed about it; `hashes_to` speaks of what this function
/// returns.
#[verifier::external_body]
fn feed_hasher<P: Hash>(value: &P, hasher: DefaultHasher) -> (r: DefaultHasher) {
    let mut hasher = hasher;
    value.hash(&mut hasher);
    hasher
}

/// Whether `hash` is the hash of `params`: the digest that a fresh default
/// hasher gives once `params` was fed to it.
pub closed spec fn hashes_to<P: Hash>(params: &P, hash: u64) -> bool {
    exists|fresh: DefaultHasher, fed: DefaultHasher|
        fresh@ == Seq::<Seq<u8>>::empty() && call_ensures(feed_hasher::<P>, (params, fresh), fed)
            && hash == DefaultHasher::spec_finish(fed@)
}

/// Whether two keys are the same key.
pub fn same_key(a: &CacheKey, b: &CacheKey) -> (r: bool)
    ensures
        r == (*a == *b),
{
    same_type(&a.0, &b.0) && a.1 == b.1
}

/// The key under which a value of type `T` made from `params` is cached: the
/// identifier of `T`, and the digest of `params` under the default hasher.
pub fn cache_key_of<T: 'static, P: Hash>(params: &P) -> (r: CacheKey)
    ensures
        is_tag_of::<T>(r.0),
        hashes_to::<P>(params, r.1),
{
    let hasher = feed_hasher(params, DefaultHasher::new());
    let params_hash: u64 = hasher.finish();
    (tag_of::<T>(), params_hash)
}

/// Which key owns which slot of a table of fixed size, and which slots are
/// free.
///
/// A key owns at most one slot and a slot has at most one owner. Free slots
/// are handed out last-returned first. Keys are found through the hash of
/// their parameter: `buckets` lists, for each hash, the types that own a
/// slot under it.
pub struct StateAllocator {
    buckets: HashMap<u64, Vec<(TypeId, usize)>>,
    free_list: Vec<usize>,
    slots: usize,
    index_lookup: Ghost<Map<CacheKey, usize>>,
    slot_keys: Ghost<Seq<Option<CacheKey>>>,
}

impl StateAllocator {
    /// The number of slots.
    pub closed spec fn capacity(&self) -> nat {
        self.slot_keys@.len()
    }

    /// The slot of each key that owns one.
    pub closed spec fn lookup(&self) -> Map<CacheKey, usize> {
        self.index_lookup@
    }

    /// The free slots; the last one is handed out next.
    pub closed spec fn free(&self) -> Seq<usize> {
        self.free_list@
    }

    /// The owner of slot `index`, if it has one.
    pub closed spec fn key_at(&self, index: int) -> Option<CacheKey> {
        self.slot_keys@[index]
    }

    /// Whether the buckets list exactly the keys that own a slot, each with
    /// its slot and no type twice under one hash.
    pub closed spec fn indexed(&self) -> bool {
        &&& self.slots == self.slot_keys@.len()
        &&& forall|hash: u64, j: int|
            self.buckets@.contains_key(hash) && 0 <= j < self.buckets@[hash]@.len() ==> {
                &&& self.index_lookup@.contains_key((#[trigger] self.buckets@[hash]@[j].0, hash))
                &&& self.index_lookup@[(self.buckets@[hash]@[j].0, hash)]
                    == self.buckets@[hash]@[j].1
            }
        &&& forall|key: CacheKey| #[trigger]
            self.index_lookup@.contains_key(key) ==> self.buckets@.contains_key(key.1)
                && self.buckets@[key.1]@.contains((key.0, self.index_lookup@[key]))
        &&& forall|hash: u64, j1: int, j2: int|
            self.buckets@.contains_key(hash) && 0 <= j1 < j2 < self.buckets@[hash]@.len()
                ==> #[trigger] self.buckets@[hash]@[j1].0 != #[trigger] self.buckets@[hash]@[j2].0
    }

    /// The allocator's invariant: `lookup` and `key_at` describe the same
    /// assignment, the free slots are distinct slots without an owner, and
    /// every slot is either owned or free.
    pub open spec fn wf(&self) -> bool {
        &&& self.indexed()
        &&& self.lookup().dom().finite()
        &&& self.lookup().dom().len() + self.free().len() == self.capacity()
        &&& forall|k: CacheKey| #[trigger]
            self.lookup().contains_key(k) ==> self.lookup()[k] < self.capacity() && self.key_at(
                self.lookup()[k] as int,
            ) == Some(k)
        &&& forall|i: int|
            0 <= i < self.capacity() && (#[trigger] self.key_at(i)) is Some
                ==> self.lookup().contains_key(self.key_at(i)->0) && self.lookup()[self.key_at(
                i,
            )->0] == i
        &&& forall|j: int|
            0 <= j < self.free().len() ==> (#[trigger] self.free()[j]) < self.capacity()
                && self.key_at(self.free()[j] as int) is None
        &&& forall|j1: int, j2: int|
            0 <= j1 < j2 < self.free().len() ==> self.free()[j1] != self.free()[j2]
    }

    /// Whether two allocators have the same slots, owners and free slots.
    pub open spec fn agrees(&self, other: Self) -> bool {
        &&& self.capacity() == other.capacity()
        &&& self.lookup() == other.lookup()
        &&& self.free() == other.free()
        &&& forall|i: int| 0 <= i < self.capacity() ==> self.key_at(i) == other.key_at(i)
    }

    /// An allocator of `capacity` slots, all free. Slot 0 is handed out
    /// first, then slot 1, and so on.
    pub fn new(capacity: usize) -> (r: Self)
        ensures
            r.wf(),
            r.capacity() == capacity,
            r.lookup() == Map::<CacheKey, usize>::empty(),
            r.free() == Seq::new(capacity as nat, |j: int| (capacity - 1 - j) as usize),
    {
        let mut free_list: Vec<usize> = Vec::new();
        let mut made: usize = 0;
        while made < capacity
            invariant
                made <= capacity,
                free_list@.len() == made,
                forall|j: int| 0 <= j < made ==> free_list@[j] == (capacity - 1 - j) as usize,
            decreases capacity - made,
        {
            free_list.push(capacity - 1 - made);
            made = made + 1;
        }
        let r = StateAllocator {
            buckets: HashMap::new(),
            free_list,
            slots: capacity,
            index_lookup: Ghost(Map::empty()),
            slot_keys: Ghost(Seq::new(capacity as nat, |i: int| None)),
        };
        r
    }

    /// Where `key` stands in the bucket of its hash, and the slot it owns,
    /// if it owns one.
    fn locate(&self, key: &CacheKey) -> (r: Option<(usize, usize)>)
        requires
            self.wf(),
        ensures
            match r {
                Some((position, index)) => {
                    &&& self.lookup().contains_key(*key)
                    &&& self.lookup()[*key] == index
                    &&& self.buckets@.contains_key(key.1)
                    &&& position < self.buckets@[key.1]@.len()
                    &&& self.buckets@[key.1]@[position as int] == (key.0, index)
                },
                None => !self.lookup().contains_key(*key),
            },
    {
        broadcast use vstd::std_specs::hash::group_hash_axioms;

        let bucket = match self.buckets.get(&key.1) {
            Some(bucket) => bucket,
            None => {
                return None;
            },
        };
        let mut position: usize = 0;
        while position < bucket.len()
            invariant
                self.wf(),
                self.buckets@.contains_key(key.1),
                *bucket == self.buckets@[key.1],
                position <= bucket@.len(),
                forall|j: int| 0 <= j < position ==> bucket@[j].0 != key.0,
            decreases bucket@.len() - position,
        {
            if same_type(&bucket[position].0, &key.0) {
                let index: usize = bucket[position].1;
                return Some((position, index));
            }
            position = position + 1;
        }
        None
    }

    /// The slot that `key` owns, if it owns one.
    pub fn find(&self, key: &CacheKey) -> (r: Option<usize>)
        requires
            self.wf(),
        ensures
            r == if self.lookup().contains_key(*key) {
                Some(self.lookup()[*key])
            } else {
                None
            },
    {
        match self.locate(key) {
            Some((_, index)) => Some(index),
            None => None,
        }
    }

    /// The key of `params` for the type `T`, with the slot it owns. With
    /// `create_if_not_exists`, a key without a slot is given a free one; the
    /// result is `None` where the key has no slot and none was to be given,
    /// or none is free.
    pub fn calculate_state_index<T: 'static, P: Hash>(
        &mut self,
        params: &P,
        create_if_not_exists: bool,
    ) -> (r: Option<(CacheKey, usize)>)
        requires
            old(self).wf(),
        ensures
            final(self).wf(),
            final(self).capacity() == old(self).capacity(),
            exists|key: CacheKey|
                {
                    &&& is_tag_of::<T>(key.0)
                    &&& hashes_to::<P>(params, key.1)
                    &&& #[trigger] old(self).assigns(key, create_if_not_exists, *final(self))
                    &&& r == match old(self).slot_for(key, create_if_not_exists) {
                        Some(index) => Some((key, index)),
                        None => None,
                    }
                },
    {
        let cache_key = cache_key_of::<T, P>(params);
        match self.index_for(&cache_key, create_if_not_exists) {
            Some(index) => Some((cache_key, index)),
            None => None,
        }
    }

    /// The slot that a lookup of `key` reports: the key's own, or with
    /// `create` the last free one, or none.
    pub open spec fn slot_for(&self, key: CacheKey, create: bool) -> Option<usize> {
        if self.lookup().contains_key(key) {
            Some(self.lookup()[key])
        } else if create && self.free().len() > 0 {
            Some(self.free().last())
        } else {
            None
        }
    }

    /// How the allocator changes when `key` is looked up: not at all where
    /// the key owns a slot or none can be given, else the last free slot
    /// becomes the key's.
    pub open spec fn assigns(&self, key: CacheKey, create: bool, after: Self) -> bool {
        if self.lookup().contains_key(key) || !create || self.free().len() == 0 {
            after.agrees(*self)
        } else {
            &&& after.capacity() == self.capacity()
            &&& after.free() == self.free().drop_last()
            &&& after.lookup() == self.lookup().insert(key, self.free().last())
            &&& forall|i: int|
                0 <= i < self.capacity() ==> #[trigger] after.key_at(i) == if i
                    == self.free().last() {
                    Some(key)
                } else {
                    self.key_at(i)
                }
        }
    }

    /// The slot of `key`. With `create`, a key without a slot is given the
    /// last free one. The result is `None` exactly where the key owns no
    /// slot and either none was to be given or none is free.
    pub fn index_for(&mut self, key: &CacheKey, create: bool) -> (r: Option<usize>)
        requires
            old(self).wf(),
        ensures
            final(self).wf(),
            old(self).assigns(*key, create, *final(self)),
            r == old(self).slot_for(*key, create),
    {
        broadcast use vstd::std_specs::hash::group_hash_axioms;

        match self.find(key) {
            Some(index) => {
                return Some(index);
            },
            None => {},
        }
        if !create || self.free_list.len() == 0 {
            return None;
        }
        let index = match self.free_list.pop() {
            Some(index) => index,
            None => {
                return None;
            },
        };
        let mut bucket = match self.buckets.remove(&key.1) {
            Some(bucket) => bucket,
            None => Vec::new(),
        };
        let ghost listed = bucket@;
        bucket.push((key.0, index));
        let ghost grown = bucket@;
        self.buckets.insert(key.1, bucket);
        proof {
            let before = old(self).lookup();
            self.index_lookup@ = before.insert(*key, index);
            self.slot_keys@ = old(self).slot_keys@.update(index as int, Some(*key));
            assert forall|k: CacheKey| #[trigger]
                self.index_lookup@.contains_key(k) implies self.buckets@.contains_key(k.1)
                && self.buckets@[k.1]@.contains((k.0, self.index_lookup@[k])) by {
                if k == *key {
                    assert(grown[listed.len() as int] == (key.0, index));
                } else {
                    if k.1 == key.1 {
                        let j = choose|j: int|
                            0 <= j < listed.len() && listed[j] == (k.0, before[k]);
                        assert(grown[j] == (k.0, before[k]));
                    }
                }
            }
            assert forall|i: int|
                0 <= i < self.capacity() && (#[trigger] self.key_at(
                    i,
                )) is Some implies self.lookup().contains_key(self.key_at(i)->0)
                && self.lookup()[self.key_at(i)->0] == i by {
                if i != index {
                    assert(old(self).key_at(i) is Some);
                }
            }
        }
        Some(index)
    }

    /// Takes the slot of `cache_key` from it and makes the slot the next one
    /// to be handed out. A key without a slot is left alone.
    pub fn free_entry(&mut self, cache_key: &CacheKey)
        requires
            old(self).wf(),
        ensures
            final(self).wf(),
            final(self).capacity() == old(self).capacity(),
            final(self).lookup() == old(self).lookup().remove(*cache_key),
            old(self).lookup().contains_key(*cache_key) ==> final(self).free() == old(
                self,
            ).free().push(old(self).lookup()[*cache_key]),
            !old(self).lookup().contains_key(*cache_key) ==> final(self).agrees(*old(self)),
            forall|i: int|
                0 <= i < old(self).capacity() ==> #[trigger] final(self).key_at(i) == if old(
                    self,
                ).key_at(i) == Some(*cache_key) {
                    None
                } else {
                    old(self).key_at(i)
                },
    {
        broadcast use vstd::std_specs::hash::group_hash_axioms;

        let (position, index) = match self.locate(cache_key) {
            Some(found) => found,
            None => {
                return ;
            },
        };
        let mut bucket = match self.buckets.remove(&cache_key.1) {
            Some(bucket) => bucket,
            None => Vec::new(),
        };
        let ghost listed = bucket@;
        let _ = bucket.remove(position);
        let ghost shrunk = bucket@;
        if bucket.len() > 0 {
            self.buckets.insert(cache_key.1, bucket);
        }
        self.free_list.push(index);
        proof {
            let before = old(self).lookup();
            let key = *cache_key;
            self.index_lookup@ = before.remove(key);
            self.slot_keys@ = old(self).slot_keys@.update(index as int, None);
            assert forall|k: CacheKey| #[trigger]
                self.index_lookup@.contains_key(k) implies self.buckets@.contains_key(k.1)
                && self.buckets@[k.1]@.contains((k.0, self.index_lookup@[k])) by {
                if k.1 == key.1 {
                    let j = choose|j: int| 0 <= j < listed.len() && listed[j] == (k.0, before[k]);
                    if j < position {
                        assert(shrunk[j] == listed[j]);
                    } else {
                        assert(shrunk[j - 1] == listed[j]);
                    }
                }
            }
            assert forall|i: int| 0 <= i < old(self).capacity() implies #[trigger] self.key_at(i)
                == if old(self).key_at(i) == Some(key) {
                None
            } else {
                old(self).key_at(i)
            } by {}
        }
    }

    /// The number of slots.
    pub fn slot_count(&self) -> (r: usize)
        requires
            self.wf(),
        ensures
            r == self.capacity(),
    {
        self.slots
    }

    /// The number of free slots.
    pub fn free_count(&self) -> (r: usize)
        ensures
            r == self.free().len(),
    {
        self.free_list.len()
    }
}

} // verus!
