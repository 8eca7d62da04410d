//! The cache map and the entries it holds.

pub mod entry;
pub mod slot;

use std::collections::HashMap;
use vstd::prelude::*;
use vstd::std_specs::hash::obeys_key_model;
use crate::cache::entry::CacheEntry;
use crate::cache::slot::{
    live_slots, slots_insert, slots_keys, slots_len, slots_new, slots_remove, CacheSlot, SlotIds,
    MAX_SLOTS,
};
use crate::runtime::Runtime;
use crate::time::Instant;

verus! {

broadcast use vstd::std_specs::hash::group_hash_axioms;

/// What the cache asks of its key type: it hashes and compares as a key
/// should, and a clone of a key is that key.
pub open spec fn key_model<K: Clone>() -> bool {
    &&& obeys_key_model::<K>()
    &&& forall|a: K, b: K| call_ensures(K::clone, (&a,), b) ==> a == b
}

/// The cache: a map from keys to slots, and the entries by slot.
pub struct Cache<T, E, R: Runtime> {
    runtime: R,
    key_to_slot: HashMap<R::Key, CacheSlot>,
    ids: SlotIds,
    states: HashMap<u64, CacheEntry<T, E, R>>,
}

impl<T, E, R: Runtime> Cache<T, E, R> {
    /// The entries, by the number of their slot.
    pub closed spec fn entries(&self) -> Map<u64, CacheEntry<T, E, R>> {
        self.states@
    }

    /// The slot of each key that the cache knows.
    pub closed spec fn slots(&self) -> Map<R::Key, CacheSlot> {
        self.key_to_slot@
    }

    /// The invariants of the cache: every key leads to a live entry that
    /// holds that key, every entry is reached from its key, and every entry
    /// is well formed.
    pub closed spec fn wf(&self) -> bool {
        &&& key_model::<R::Key>()
        &&& live_slots(self.ids).finite()
        &&& self.states@.dom() == live_slots(self.ids)
        &&& self.coherent()
    }

    /// The part of the invariants that speaks of the entries and the key
    /// map alone.
    pub open spec fn coherent(&self) -> bool {
        &&& self.entries().dom().finite()
        &&& forall|key: R::Key| #[trigger]
            self.slots().contains_key(key) ==> self.entries().contains_key(self.slots()[key].id())
                && self.entries()[self.slots()[key].id()].key == key
        &&& forall|id: u64| #[trigger]
            self.entries().contains_key(id) ==> self.slots().contains_key(self.entries()[id].key)
                && self.slots()[self.entries()[id].key].id() == id && self.entries()[id].wf()
    }

    /// Whether `self` differs from `before` at most in the entry of slot
    /// number `id`, which both hold.
    pub open spec fn same_but(&self, before: Self, id: u64) -> bool {
        &&& self.slots() == before.slots()
        &&& self.entries().dom() == before.entries().dom()
        &&& self.entries().contains_key(id)
        &&& forall|other: u64| #[trigger]
            self.entries().contains_key(other) && other != id ==> self.entries()[other]
                == before.entries()[other]
    }

    /// Whether `self` holds what `before` holds.
    pub open spec fn same_as(&self, before: Self) -> bool {
        &&& self.slots() == before.slots()
        &&& self.entries() == before.entries()
    }

    /// A change to one entry after a change to the same entry is a change to
    /// that entry.
    pub proof fn lemma_same_but_twice(&self, middle: Self, before: Self, id: u64)
        requires
            middle.same_but(before, id),
            self.same_but(middle, id),
        ensures
            self.same_but(before, id),
    {
        assert forall|other: u64| #[trigger]
            self.entries().contains_key(other) && other != id implies self.entries()[other]
            == before.entries()[other] by {
            assert(middle.entries().contains_key(other));
        }
    }

    /// A well-formed cache is coherent.
    pub proof fn lemma_wf_coherent(&self)
        requires
            self.wf(),
        ensures
            self.coherent(),
            key_model::<R::Key>(),
    {
    }

    /// An empty cache whose entries will spawn on `runtime`.
    pub fn new(runtime: R) -> (cache: Self)
        requires
            key_model::<R::Key>(),
        ensures
            cache.wf(),
            cache.entries() == Map::<u64, CacheEntry<T, E, R>>::empty(),
            cache.slots() == Map::<R::Key, CacheSlot>::empty(),
    {
        let cache = Cache {
            runtime,
            key_to_slot: HashMap::new(),
            ids: slots_new(),
            states: HashMap::new(),
        };
        assert(cache.states@.dom() =~= live_slots(cache.ids));
        cache
    }

    /// The slot of `key`, if the cache holds an entry for it.
    pub fn get(&self, key: &R::Key) -> (slot: Option<CacheSlot>)
        requires
            self.wf(),
        ensures
            match slot {
                Some(slot) => self.slots().contains_key(*key) && self.slots()[*key] == slot
                    && self.entries().contains_key(slot.id()),
                None => !self.slots().contains_key(*key),
            },
    {
        match self.key_to_slot.get(key) {
            Some(slot) => Some(*slot),
            None => None,
        }
    }

    /// How many entries the cache holds.
    pub fn len(&self) -> (len: usize)
        requires
            self.wf(),
        ensures
            len == self.entries().len(),
    {
        slots_len(&self.ids)
    }

    /// The entry in `slot`, if it is still there.
    pub fn entry(&self, slot: CacheSlot) -> (entry: Option<&CacheEntry<T, E, R>>)
        requires
            self.wf(),
        ensures
            match entry {
                Some(entry) => self.entries().contains_key(slot.id()) && self.entries()[slot.id()]
                    == *entry,
                None => !self.entries().contains_key(slot.id()),
            },
    {
        let id: u64 = slot.as_id();
        self.states.get(&id)
    }

    /// The slot of `key`, after an entry was created for it if there was
    /// none. Asks for room for one more entry where the key is new.
    pub fn get_or_create(&mut self, key: &R::Key, now: Instant) -> (slot: CacheSlot)
        requires
            old(self).wf(),
            old(self).slots().contains_key(*key) || old(self).entries().len() < MAX_SLOTS,
        ensures
            final(self).wf(),
            final(self).created(*old(self), *key, now, slot),
            final(self).slots().contains_key(*key),
            final(self).slots()[*key] == slot,
            final(self).entries().contains_key(slot.id()),
            final(self).entries().dom() == old(self).entries().dom().insert(slot.id()),
    {
        assert(old(self).slots().contains_key(*key) ==> old(self).entries().dom().insert(
            old(self).slots()[*key].id(),
        ) =~= old(self).entries().dom());
        match self.key_to_slot.get(key) {
            Some(slot) => *slot,
            None => {
                let slot = slots_insert(&mut self.ids);
                let entry = CacheEntry::new(self.runtime.clone(), key.clone(), now);
                let _ = self.states.insert(slot.as_id(), entry);
                let _ = self.key_to_slot.insert(key.clone(), slot);
                assert(self.states@.dom() =~= live_slots(self.ids));
                assert(self.entries().dom() =~= old(self).entries().dom().insert(slot.id()));
                slot
            },
        }
    }

    /// How `self` follows from `before` when `slot` is the answer to a
    /// request for `key` at time `now`: nothing changed where the key was
    /// known, and one fresh entry was added in a slot that was not in use
    /// where it was not.
    pub open spec fn created(&self, before: Self, key: R::Key, now: Instant, slot: CacheSlot) -> bool {
        if before.slots().contains_key(key) {
            &&& slot == before.slots()[key]
            &&& self.slots() == before.slots()
            &&& self.entries() == before.entries()
        } else {
            &&& !before.entries().contains_key(slot.id())
            &&& self.slots() == before.slots().insert(key, slot)
            &&& self.entries().dom() == before.entries().dom().insert(slot.id())
            &&& self.entries()[slot.id()].fresh(key, now)
            &&& forall|id: u64| #[trigger]
                before.entries().contains_key(id) ==> self.entries()[id] == before.entries()[id]
        }
    }

    /// As [`Cache::get_or_create`], but returns `None` and changes nothing
    /// where the key is new and the cache has no room for another entry.
    pub fn try_get_or_create(&mut self, key: &R::Key, now: Instant) -> (slot: Option<CacheSlot>)
        requires
            old(self).wf(),
        ensures
            final(self).wf(),
            match slot {
                Some(slot) => {
                    &&& final(self).created(*old(self), *key, now, slot)
                    &&& final(self).slots().contains_key(*key)
                    &&& final(self).slots()[*key] == slot
                    &&& final(self).entries().contains_key(slot.id())
                    &&& final(self).entries().dom() == old(self).entries().dom().insert(slot.id())
                },
                None => {
                    &&& !old(self).slots().contains_key(*key)
                    &&& old(self).entries().len() >= MAX_SLOTS
                    &&& final(self).entries() == old(self).entries()
                    &&& final(self).slots() == old(self).slots()
                },
            },
    {
        if self.key_to_slot.get(key).is_none() && slots_len(&self.ids) >= MAX_SLOTS {
            None
        } else {
            Some(self.get_or_create(key, now))
        }
    }

    /// Whether `self` is the well-formed cache `whole` with the entry of
    /// slot number `id` taken out for a while.
    pub closed spec fn lent(&self, whole: Self, id: u64) -> bool {
        &&& whole.wf()
        &&& whole.states@.contains_key(id)
        &&& self.states@ == whole.states@.remove(id)
        &&& self.key_to_slot == whole.key_to_slot
        &&& self.ids == whole.ids
        &&& self.runtime == whole.runtime
    }

    /// Takes the entry of `slot` out of the cache, to be put back with
    /// [`Cache::put`].
    pub(crate) fn take(&mut self, slot: CacheSlot) -> (entry: Option<CacheEntry<T, E, R>>)
        requires
            old(self).wf(),
        ensures
            match entry {
                Some(entry) => old(self).entries().contains_key(slot.id()) && entry == old(
                    self,
                ).entries()[slot.id()] && final(self).lent(*old(self), slot.id()) && entry.wf(),
                None => {
                    &&& !old(self).entries().contains_key(slot.id())
                    &&& final(self).wf()
                    &&& final(self).entries() == old(self).entries()
                    &&& final(self).slots() == old(self).slots()
                },
            },
    {
        let id: u64 = slot.as_id();
        let entry = self.states.remove(&id);
        proof {
            if entry is None {
                assert(self.states@ =~= old(self).states@);
            }
        }
        entry
    }

    /// Puts `entry` back into `slot`, from which [`Cache::take`] took an
    /// entry with the same key.
    pub(crate) fn put(&mut self, Ghost(whole): Ghost<Self>, slot: CacheSlot, entry: CacheEntry<T, E, R>)
        requires
            old(self).lent(whole, slot.id()),
            entry.wf(),
            entry.key == whole.entries()[slot.id()].key,
        ensures
            final(self).wf(),
            final(self).slots() == whole.slots(),
            final(self).entries() == whole.entries().insert(slot.id(), entry),
            final(self).same_but(whole, slot.id()),
            final(self).entries()[slot.id()] == entry,
    {
        let _ = self.states.insert(slot.as_id(), entry);
        assert(self.states@.dom() =~= whole.states@.dom());
    }

    /// Removes the entry of `slot`, which [`Cache::take`] took out, for
    /// good: its slot and its key are given up.
    pub(crate) fn forget(&mut self, Ghost(whole): Ghost<Self>, slot: CacheSlot, key: &R::Key)
        requires
            old(self).lent(whole, slot.id()),
            *key == whole.entries()[slot.id()].key,
        ensures
            final(self).wf(),
            final(self).slots() == whole.slots().remove(*key),
            final(self).entries() == whole.entries().remove(slot.id()),
    {
        let _ = self.key_to_slot.remove(key);
        slots_remove(&mut self.ids, slot);
        assert(self.states@.dom() =~= live_slots(self.ids));
    }

    /// The slots of all entries, each once, in no particular order.
    pub fn slots_in_use(&self) -> (slots: Vec<CacheSlot>)
        requires
            self.wf(),
        ensures
            slots@.no_duplicates(),
            forall|id: u64|
                self.entries().contains_key(id) <==> exists|i: int|
                    0 <= i < slots@.len() && #[trigger] slots@[i].id() == id,
    {
        slots_keys(&self.ids)
    }
}

} // verus!
