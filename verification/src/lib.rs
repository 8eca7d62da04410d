//! Stale-while-revalidate cache core for immediate-mode rendering loops.
//!
//! On every frame the user interface asks the cache for the value of a key.
//! The cache answers with what it holds (a stale value, a fallback, or
//! nothing) and with flags that say whether a fetch is running, and starts a
//! background revalidation when one is due. All state of a key is shared by
//! the call sites that use it.
//!
//! The cache is a plain value: it takes the time and the state of the window
//! as arguments, and hands the background work to a [`Runtime`] as
//! [`runtime::Job`]s. The executor reports back through
//! [`SWRInner::complete_fetch`], [`SWRInner::refresh_due`] and
//! [`SWRInner::retry_due`], and the user interface calls [`SWR::end_frame`]
//! after each frame.

pub mod cache;
pub mod error;
pub mod laws;
pub mod mutate;
pub mod options;
pub mod result;
pub mod revalidate;
pub mod runtime;
pub mod sweep;
pub mod time;
pub mod util;

pub use crate::cache::entry::{CacheEntry, CacheEntryData, CacheEntryStatus};
pub use crate::cache::slot::CacheSlot;
pub use crate::cache::Cache;
pub use crate::error::{Error, MismatchedTypeError};
pub use crate::mutate::Mutation;
pub use crate::options::{MutateOptions, Options};
pub use crate::result::{FetchResult, Persisted};
pub use crate::revalidate::RevalidateIntent;
pub use crate::runtime::{Job, JobKind, Runtime, Task, TypeTag};
pub use crate::time::{Duration, Instant};
pub use crate::util::{TaskSlot, TaskStartMode};

use std::sync::Arc;
use vstd::prelude::*;
use crate::cache::{key_model, slot::MAX_SLOTS};
use crate::mutate::{apply_optimistic, displaced, settle_mutation, settled, with_optimistic};
use crate::result::{observed, requested};
use crate::revalidate::{fetch_completed, refresh_fetches, refresh_step, retry_fetches, retry_step};
use crate::sweep::{after_frame, evicted};

verus! {

/// The core of the cache: the cache map, and the operations on an entry by
/// its slot.
pub struct SWRInner<T, E, R: Runtime> {
    /// The cache map.
    pub cache: Cache<T, E, R>,
}

impl<T, E, R: Runtime> SWRInner<T, E, R> {
    /// The invariants of the cache hold.
    pub open spec fn wf(&self) -> bool {
        self.cache.wf()
    }

    /// Whether `self` follows from `before` by a change to the entry of
    /// `slot` alone, if there is one, and otherwise holds what `before`
    /// holds.
    pub open spec fn touched(&self, before: Self, slot: CacheSlot) -> bool {
        if before.cache.entries().contains_key(slot.id()) {
            self.cache.same_but(before.cache, slot.id())
        } else {
            self.cache.same_as(before.cache)
        }
    }

    /// The entry of `slot` before a step.
    pub open spec fn at(&self, slot: CacheSlot) -> CacheEntry<T, E, R> {
        self.cache.entries()[slot.id()]
    }

    /// Whether the cache holds an entry in `slot`.
    pub open spec fn holds(&self, slot: CacheSlot) -> bool {
        self.cache.entries().contains_key(slot.id())
    }

    /// An empty cache whose entries will spawn on `runtime`.
    pub fn new(runtime: R) -> (inner: Self)
        requires
            key_model::<R::Key>(),
        ensures
            inner.wf(),
            inner.cache.entries() == Map::<u64, CacheEntry<T, E, R>>::empty(),
            inner.cache.slots() == Map::<R::Key, CacheSlot>::empty(),
    {
        SWRInner { cache: Cache::new(runtime) }
    }

    /// Asks for a revalidation of the entry in `slot` by hand: the reason is
    /// kept until the entry is next observed. Returns whether a redraw is
    /// due, which it is where the entry exists.
    pub fn revalidate(&mut self, slot: CacheSlot) -> (redraw: bool)
        requires
            old(self).wf(),
        ensures
            final(self).wf(),
            final(self).touched(*old(self), slot),
            redraw == old(self).holds(slot),
            redraw ==> final(self).at(slot) == (CacheEntry {
                revalidate_intent: RevalidateIntent(
                    old(self).at(slot).revalidate_intent.0 | RevalidateIntent::MANUALLY_TRIGGERED,
                ),
                ..old(self).at(slot)
            }),
    {
        let ghost whole = self.cache;
        match self.cache.take(slot) {
            Some(mut entry) => {
                let _ = entry.revalidate_intent.add(RevalidateIntent::MANUALLY_TRIGGERED);
                self.cache.put(Ghost(whole), slot, entry);
                true
            },
            None => false,
        }
    }

    /// Replaces the data of the entry in `slot` by `data`, of type `tag`, at
    /// time `now`. The stored error is cleared, and no fetch counts as
    /// running afterwards. Returns whether a redraw is due, which it is
    /// where the entry exists.
    pub fn mutate(&mut self, slot: CacheSlot, data: Arc<T>, tag: TypeTag, now: Instant) -> (redraw:
        bool)
        requires
            old(self).wf(),
        ensures
            final(self).wf(),
            final(self).touched(*old(self), slot),
            redraw == old(self).holds(slot),
            redraw ==> final(self).at(slot) == old(self).at(slot).inserted(
                (CacheEntryData { value: data, tag }),
                now,
            ),
    {
        let ghost whole = self.cache;
        match self.cache.take(slot) {
            Some(mut entry) => {
                let _ = entry.insert(data, tag, now);
                self.cache.put(Ghost(whole), slot, entry);
                true
            },
            None => false,
        }
    }

    /// Starts an asynchronous mutation of the entry in `slot` at time `now`:
    /// stores the optimistic data, if the options hold any, and returns what
    /// [`SWRInner::finish_mutation`] needs once the action has run, together
    /// with whether a redraw is due.
    pub fn mutate_with(
        &mut self,
        slot: CacheSlot,
        options: MutateOptions<T>,
        tag: TypeTag,
        now: Instant,
    ) -> (started: (Mutation<T>, bool))
        requires
            old(self).wf(),
        ensures
            final(self).wf(),
            final(self).touched(*old(self), slot),
            started.0.slot == slot,
            started.0.tag == tag,
            started.0.rollback_on_error == options.rollback_on_error,
            started.0.revalidate == options.revalidate,
            started.1 == (old(self).holds(slot) && options.optimistic_data is Some),
            old(self).holds(slot) ==> final(self).at(slot) == with_optimistic(
                old(self).at(slot),
                options.optimistic_data,
                tag,
                now,
            ) && started.0.previous == displaced(old(self).at(slot), options.optimistic_data),
            !old(self).holds(slot) ==> started.0.previous is None,
    {
        let ghost whole = self.cache;
        let rollback_on_error = options.rollback_on_error;
        let revalidate = options.revalidate;
        let redraw = options.optimistic_data.is_some();
        match self.cache.take(slot) {
            Some(mut entry) => {
                let previous = apply_optimistic(&mut entry, options.optimistic_data, tag, now);
                self.cache.put(Ghost(whole), slot, entry);
                (Mutation { slot, tag, rollback_on_error, revalidate, previous }, redraw)
            },
            None => (Mutation { slot, tag, rollback_on_error, revalidate, previous: None }, false),
        }
    }

    /// Ends the asynchronous mutation `mutation` at time `now`, where
    /// `outcome` is the data that the action gave, or `None` if it failed.
    /// Returns whether a redraw is due, which it is where the entry exists.
    pub fn finish_mutation(&mut self, mutation: Mutation<T>, outcome: Option<Arc<T>>, now: Instant) -> (redraw:
        bool)
        requires
            old(self).wf(),
        ensures
            final(self).wf(),
            final(self).touched(*old(self), mutation.slot),
            redraw == old(self).holds(mutation.slot),
            redraw ==> final(self).at(mutation.slot).fetch_task.held() is None && final(self).at(
                mutation.slot,
            ) == (CacheEntry {
                fetch_task: final(self).at(mutation.slot).fetch_task,
                ..settled(
                    old(self).at(mutation.slot),
                    outcome,
                    mutation.tag,
                    mutation.revalidate,
                    mutation.rollback_on_error,
                    mutation.previous,
                    now,
                )
            }),
    {
        let ghost whole = self.cache;
        let slot = mutation.slot;
        match self.cache.take(slot) {
            Some(mut entry) => {
                settle_mutation(
                    &mut entry,
                    outcome,
                    mutation.tag,
                    mutation.revalidate,
                    mutation.rollback_on_error,
                    mutation.previous,
                    now,
                );
                self.cache.put(Ghost(whole), slot, entry);
                true
            },
            None => false,
        }
    }

    /// Takes in the outcome of the fetch that ran for the entry in `slot`.
    /// If the entry is gone the outcome is dropped. Returns whether a redraw
    /// is due, which it is where the entry exists.
    pub fn complete_fetch(
        &mut self,
        slot: CacheSlot,
        response: TypeTag,
        outcome: Result<Arc<T>, Arc<E>>,
        now: Instant,
    ) -> (redraw: bool)
        requires
            old(self).wf(),
        ensures
            final(self).wf(),
            final(self).touched(*old(self), slot),
            redraw == old(self).holds(slot),
            redraw ==> fetch_completed(
                old(self).at(slot),
                final(self).at(slot),
                slot,
                response,
                outcome,
                now,
            ),
    {
        let ghost whole = self.cache;
        match self.cache.take(slot) {
            Some(mut entry) => {
                crate::revalidate::complete_fetch(&mut entry, slot, response, outcome, now);
                self.cache.put(Ghost(whole), slot, entry);
                true
            },
            None => false,
        }
    }

    /// Acts for the entry in `slot` when its refresh timer has run out. If
    /// the entry is gone the chain of refreshes ends. Returns whether a
    /// redraw is due.
    pub fn refresh_due(&mut self, slot: CacheSlot, response: TypeTag, focused: bool, now: Instant) -> (redraw:
        bool)
        requires
            old(self).wf(),
        ensures
            final(self).wf(),
            final(self).touched(*old(self), slot),
            redraw == (old(self).holds(slot) && refresh_fetches(old(self).at(slot), focused, now)),
            old(self).holds(slot) ==> exists|finished: bool|
                (old(self).at(slot).fetch_task.held() is None ==> finished)
                    && #[trigger] refresh_step(
                    old(self).at(slot),
                    final(self).at(slot),
                    slot,
                    response,
                    focused,
                    now,
                    finished,
                ),
    {
        let ghost whole = self.cache;
        match self.cache.take(slot) {
            Some(mut entry) => {
                let redraw = crate::revalidate::refresh_due(&mut entry, slot, response, focused, now);
                self.cache.put(Ghost(whole), slot, entry);
                redraw
            },
            None => false,
        }
    }

    /// Acts for the entry in `slot` when its retry timer has run out.
    /// Returns whether a redraw is due.
    pub fn retry_due(&mut self, slot: CacheSlot, response: TypeTag, now: Instant) -> (redraw: bool)
        requires
            old(self).wf(),
        ensures
            final(self).wf(),
            final(self).touched(*old(self), slot),
            redraw == (old(self).holds(slot) && retry_fetches(old(self).at(slot), now)),
            old(self).holds(slot) ==> exists|finished: bool|
                (old(self).at(slot).fetch_task.held() is None ==> finished)
                    && #[trigger] retry_step(
                    old(self).at(slot),
                    final(self).at(slot),
                    slot,
                    response,
                    now,
                    finished,
                ),
    {
        let ghost whole = self.cache;
        match self.cache.take(slot) {
            Some(mut entry) => {
                let redraw = crate::revalidate::retry_due(&mut entry, slot, response, now);
                self.cache.put(Ghost(whole), slot, entry);
                redraw
            },
            None => false,
        }
    }

    /// Whether `self` is what the end of a frame at time `now` leaves of
    /// `before`: the entries that are not evicted, each with its liveness
    /// brought up to date, under the keys and in the slots that they had.
    pub open spec fn swept(&self, before: Self, now: Instant) -> bool {
        &&& forall|id: u64| #[trigger]
            self.cache.entries().contains_key(id) <==> before.cache.entries().contains_key(id)
                && !evicted(before.cache.entries()[id], now)
        &&& forall|id: u64| #[trigger]
            self.cache.entries().contains_key(id) ==> self.cache.entries()[id] == after_frame(
                before.cache.entries()[id],
            )
        &&& forall|key: R::Key| #[trigger]
            self.cache.slots().contains_key(key) <==> before.cache.slots().contains_key(key)
                && !evicted(before.cache.entries()[before.cache.slots()[key].id()], now)
        &&& forall|key: R::Key| #[trigger]
            self.cache.slots().contains_key(key) ==> self.cache.slots()[key]
                == before.cache.slots()[key]
    }

    /// Ends a frame at time `now`: brings the liveness of every entry up to
    /// date and evicts the entries that [`evicted`] names, cancelling their
    /// tasks. An entry is evicted only if no persisted handle refers to it,
    /// it was used neither in this frame nor in the one before, and its
    /// garbage-collection timeout has passed.
    pub fn end_frame(&mut self, now: Instant)
        requires
            old(self).wf(),
        ensures
            final(self).wf(),
            final(self).swept(*old(self), now),
    {
        let slots = self.cache.slots_in_use();
        let ghost orig = self.cache;
        proof {
            orig.lemma_wf_coherent();
        }
        let mut i: usize = 0;
        while i < slots.len()
            invariant
                i <= slots.len(),
                self.cache.wf(),
                orig.wf(),
                orig.coherent(),
                slots@.no_duplicates(),
                forall|id: u64|
                    orig.entries().contains_key(id) <==> exists|j: int|
                        0 <= j < slots@.len() && #[trigger] slots@[j].id() == id,
                forall|id: u64| #[trigger]
                    self.cache.entries().contains_key(id) ==> orig.entries().contains_key(id),
                forall|j: int|
                    0 <= j < i ==> (self.cache.entries().contains_key(#[trigger] slots@[j].id())
                        <==> !evicted(orig.entries()[slots@[j].id()], now)),
                forall|j: int|
                    0 <= j < i && self.cache.entries().contains_key(#[trigger] slots@[j].id())
                        ==> self.cache.entries()[slots@[j].id()] == after_frame(
                        orig.entries()[slots@[j].id()],
                    ),
                forall|j: int|
                    i <= j < slots@.len() ==> self.cache.entries().contains_key(
                        #[trigger] slots@[j].id(),
                    ) && self.cache.entries()[slots@[j].id()] == orig.entries()[slots@[j].id()],
                forall|key: R::Key| #[trigger]
                    self.cache.slots().contains_key(key) <==> orig.slots().contains_key(key)
                        && self.cache.entries().contains_key(orig.slots()[key].id()),
                forall|key: R::Key| #[trigger]
                    self.cache.slots().contains_key(key) ==> self.cache.slots()[key]
                        == orig.slots()[key],
            decreases slots.len() - i,
        {
            let slot = slots[i];
            let ghost whole = self.cache;
            let ghost id = slot.id();
            proof {
                whole.lemma_wf_coherent();
                assert forall|j: int| 0 <= j < slots@.len() && j != i implies #[trigger] slots@[j].id()
                    != id by {
                    if slots@[j].id() == id {
                        CacheSlot::lemma_id_injective(slots@[j], slots@[i as int]);
                    }
                }
            }
            match self.cache.take(slot) {
                Some(mut entry) => {
                    let keep = crate::sweep::end_frame(&mut entry, now);
                    if keep {
                        self.cache.put(Ghost(whole), slot, entry);
                    } else {
                        self.cache.forget(Ghost(whole), slot, &entry.key);
                        proof {
                            let key = entry.key;
                            assert forall|other: R::Key| #[trigger]
                                self.cache.slots().contains_key(other) <==> orig.slots().contains_key(
                                    other,
                                ) && self.cache.entries().contains_key(
                                    orig.slots()[other].id(),
                                ) by {
                                if other != key && whole.slots().contains_key(other) {
                                    assert(whole.entries()[whole.slots()[other].id()].key == other);
                                }
                            }
                        }
                    }
                },
                None => {
                    assert(false);
                },
            }
            i = i + 1;
        }
        proof {
            assert forall|id: u64| #[trigger]
                self.cache.entries().contains_key(id) <==> orig.entries().contains_key(id)
                    && !evicted(orig.entries()[id], now) by {
                if orig.entries().contains_key(id) {
                    let j = choose|j: int| 0 <= j < slots@.len() && #[trigger] slots@[j].id() == id;
                    assert(slots@[j].id() == id);
                }
            }
            assert forall|id: u64| #[trigger]
                self.cache.entries().contains_key(id) implies self.cache.entries()[id]
                == after_frame(orig.entries()[id]) by {
                let j = choose|j: int| 0 <= j < slots@.len() && #[trigger] slots@[j].id() == id;
                assert(slots@[j].id() == id);
            }
            assert forall|key: R::Key| #[trigger]
                self.cache.slots().contains_key(key) <==> orig.slots().contains_key(key)
                    && !evicted(orig.entries()[orig.slots()[key].id()], now) by {
                if orig.slots().contains_key(key) {
                    assert(orig.entries().contains_key(orig.slots()[key].id()));
                }
            }
        }
    }
}

/// An SWR cache: the cache map with the operations by key.
pub struct SWR<T, E, R: Runtime> {
    /// The core, with the operations by slot.
    pub inner: SWRInner<T, E, R>,
}

impl<T, E, R: Runtime> SWR<T, E, R> {
    /// The invariants of the cache hold.
    pub open spec fn wf(&self) -> bool {
        self.inner.wf()
    }

    /// Whether a request for `key` finds room: the key has an entry, or the
    /// cache can hold one more.
    pub open spec fn admits(&self, key: R::Key) -> bool {
        self.inner.cache.slots().contains_key(key) || self.inner.cache.entries().len() < MAX_SLOTS
    }

    /// Whether `entry` is the entry that a request for `key` at time `now`
    /// meets in `slot`: the entry of the key where it has one, a fresh entry
    /// in a slot that was not in use where it has none.
    pub open spec fn met(&self, key: R::Key, now: Instant, slot: CacheSlot, entry: CacheEntry<T, E, R>) -> bool {
        if self.inner.cache.slots().contains_key(key) {
            slot == self.inner.cache.slots()[key] && entry == self.inner.at(slot)
        } else {
            !self.inner.holds(slot) && entry.fresh(key, now)
        }
    }

    /// Whether `self` follows from `before` by a request for `key` that was
    /// answered from `slot`: the key leads to the slot, and no other key and
    /// no other entry has changed.
    pub open spec fn reached(&self, before: Self, key: R::Key, slot: CacheSlot) -> bool {
        &&& self.inner.cache.slots() == if before.inner.cache.slots().contains_key(key) {
            before.inner.cache.slots()
        } else {
            before.inner.cache.slots().insert(key, slot)
        }
        &&& self.inner.cache.slots()[key] == slot
        &&& self.inner.cache.entries().dom() == before.inner.cache.entries().dom().insert(
            slot.id(),
        )
        &&& forall|id: u64| #[trigger]
            before.inner.cache.entries().contains_key(id) && id != slot.id()
                ==> self.inner.cache.entries()[id] == before.inner.cache.entries()[id]
    }

    /// A request that creates the entry of its key if need be and then
    /// changes that entry alone has reached its slot.
    pub proof fn lemma_reached(&self, middle: Self, before: Self, key: R::Key, now: Instant, slot: CacheSlot)
        requires
            middle.inner.cache.created(before.inner.cache, key, now, slot),
            middle.inner.cache.slots().contains_key(key),
            middle.inner.cache.slots()[key] == slot,
            middle.inner.cache.entries().contains_key(slot.id()),
            middle.inner.cache.entries().dom() == before.inner.cache.entries().dom().insert(
                slot.id(),
            ),
            self.inner.cache.same_but(middle.inner.cache, slot.id()),
        ensures
            self.reached(before, key, slot),
    {
        assert forall|id: u64| #[trigger]
            before.inner.cache.entries().contains_key(id) && id != slot.id()
                implies self.inner.cache.entries()[id] == before.inner.cache.entries()[id] by {
            assert(middle.inner.cache.entries().contains_key(id));
            assert(self.inner.cache.entries().contains_key(id));
        }
    }

    /// An empty cache whose entries will spawn on `runtime`.
    pub fn new_in(runtime: R) -> (swr: Self)
        requires
            key_model::<R::Key>(),
        ensures
            swr.wf(),
            swr.inner.cache.entries() == Map::<u64, CacheEntry<T, E, R>>::empty(),
            swr.inner.cache.slots() == Map::<R::Key, CacheSlot>::empty(),
    {
        SWR { inner: SWRInner::new(runtime) }
    }

    /// Whether a request for `key` finds room.
    pub fn has_room(&self, key: &R::Key) -> (room: bool)
        requires
            self.wf(),
        ensures
            room == self.admits(*key),
    {
        self.inner.cache.get(key).is_some() || self.inner.cache.len() < MAX_SLOTS
    }

    /// A persisted handle for `key`, whose entry is created if there is
    /// none. The entry counts one more handle and merges `options` into its
    /// own.
    pub fn persisted(&mut self, key: &R::Key, options: Options<T>, response: TypeTag, now: Instant) -> (handle:
        Persisted<T>)
        requires
            old(self).wf(),
            old(self).admits(*key),
        ensures
            final(self).wf(),
            final(self).reached(*old(self), *key, handle.slot),
            handle.options == Some(options),
            handle.response == response,
            exists|entry: CacheEntry<T, E, R>| #[trigger]
                old(self).met(*key, now, handle.slot, entry) && final(self).inner.at(handle.slot)
                    == crate::result::acquired(entry, Some(options)),
    {
        let slot = self.inner.cache.get_or_create(key, now);
        let ghost middle = *self;
        let ghost entry = self.inner.at(slot);
        let handle = Persisted::new(&mut self.inner, slot, Some(options), response);
        proof {
            self.lemma_reached(middle, *old(self), *key, now, slot);
            assert(old(self).met(*key, now, slot, entry));
        }
        handle
    }

    /// The state of the entry of `key` during a frame, with the default of
    /// no options of its own; see [`SWR::get_with`].
    pub fn get(&mut self, key: &R::Key, response: TypeTag, focus_triggered: bool, now: Instant) -> (result:
        FetchResult<T, E>)
        requires
            old(self).wf(),
            old(self).admits(*key),
        ensures
            final(self).wf(),
            final(self).reached(*old(self), *key, result.slot),
            exists|entry: CacheEntry<T, E, R>, finished: bool|
                old(self).met(*key, now, result.slot, entry) && (entry.fetch_task.held() is None
                    ==> finished) && #[trigger] requested(
                    entry,
                    final(self).inner.at(result.slot),
                    result,
                    result.slot,
                    None,
                    response,
                    focus_triggered,
                    now,
                    finished,
                ),
    {
        self.request(key, None, response, focus_triggered, now)
    }

    /// The state of the entry of `key`, observed during a frame at time
    /// `now`; the entry is created if there is none, and `options` are
    /// merged into its own. This is what making a persisted handle, asking
    /// it once and dropping it does.
    pub fn get_with(
        &mut self,
        key: &R::Key,
        options: Options<T>,
        response: TypeTag,
        focus_triggered: bool,
        now: Instant,
    ) -> (result: FetchResult<T, E>)
        requires
            old(self).wf(),
            old(self).admits(*key),
        ensures
            final(self).wf(),
            final(self).reached(*old(self), *key, result.slot),
            exists|entry: CacheEntry<T, E, R>, finished: bool|
                old(self).met(*key, now, result.slot, entry) && (entry.fetch_task.held() is None
                    ==> finished) && #[trigger] requested(
                    entry,
                    final(self).inner.at(result.slot),
                    result,
                    result.slot,
                    Some(options),
                    response,
                    focus_triggered,
                    now,
                    finished,
                ),
    {
        self.request(key, Some(options), response, focus_triggered, now)
    }

    fn request(
        &mut self,
        key: &R::Key,
        options: Option<Options<T>>,
        response: TypeTag,
        focus_triggered: bool,
        now: Instant,
    ) -> (result: FetchResult<T, E>)
        requires
            old(self).wf(),
            old(self).admits(*key),
        ensures
            final(self).wf(),
            final(self).reached(*old(self), *key, result.slot),
            exists|entry: CacheEntry<T, E, R>, finished: bool|
                old(self).met(*key, now, result.slot, entry) && (entry.fetch_task.held() is None
                    ==> finished) && #[trigger] requested(
                    entry,
                    final(self).inner.at(result.slot),
                    result,
                    result.slot,
                    options,
                    response,
                    focus_triggered,
                    now,
                    finished,
                ),
    {
        let slot = self.inner.cache.get_or_create(key, now);
        let ghost middle = *self;
        let ghost entry = self.inner.at(slot);
        let handle = Persisted::new(&mut self.inner, slot, options, response);
        let ghost first = *self;
        let ghost held = self.inner.at(slot);
        let result = handle.get(&mut self.inner, focus_triggered, now);
        let ghost second = *self;
        let ghost seen = self.inner.at(slot);
        handle.release(&mut self.inner);
        proof {
            second.inner.cache.lemma_same_but_twice(first.inner.cache, middle.inner.cache, slot.id());
            self.inner.cache.lemma_same_but_twice(second.inner.cache, middle.inner.cache, slot.id());
            self.lemma_reached(middle, *old(self), *key, now, slot);
            let finished = choose|finished: bool|
                (held.fetch_task.held() is None ==> finished) && #[trigger] observed(
                    held,
                    seen,
                    result,
                    slot,
                    response,
                    handle.fallback(),
                    focus_triggered,
                    now,
                    finished,
                );
            assert(seen == (CacheEntry {
                strong_count: entry.strong_count.wrapping_add(1),
                ..self.inner.at(slot)
            }));
            assert(requested(
                entry,
                self.inner.at(slot),
                result,
                slot,
                options,
                response,
                focus_triggered,
                now,
                finished,
            ));
            assert(old(self).met(*key, now, slot, entry));
        }
        result
    }

    /// The state of the entry of `key`, or `None` if there is none. Nothing
    /// is created and nothing changes: fit for use outside of a frame.
    pub fn get_shallow(&self, key: &R::Key, response: TypeTag) -> (result: Option<FetchResult<T, E>>)
        requires
            self.wf(),
        ensures
            match result {
                Some(result) => self.inner.cache.slots().contains_key(*key) && result
                    == crate::result::snapshot_of(
                    self.inner.at(self.inner.cache.slots()[*key]),
                    self.inner.cache.slots()[*key],
                    response,
                    None,
                ),
                None => !self.inner.cache.slots().contains_key(*key),
            },
    {
        match self.inner.cache.get(key) {
            Some(slot) => {
                let handle = Persisted { slot, options: None, response };
                Some(handle.get_shallow(&self.inner))
            },
            None => None,
        }
    }

    /// Asks for a revalidation of `key` by hand, if it has an entry. Returns
    /// whether a redraw is due.
    pub fn revalidate(&mut self, key: &R::Key) -> (redraw: bool)
        requires
            old(self).wf(),
        ensures
            final(self).wf(),
            redraw == old(self).inner.cache.slots().contains_key(*key),
            !redraw ==> final(self).inner.cache.same_as(old(self).inner.cache),
            redraw ==> final(self).inner.touched(
                old(self).inner,
                old(self).inner.cache.slots()[*key],
            ) && final(self).inner.at(old(self).inner.cache.slots()[*key]) == (CacheEntry {
                revalidate_intent: RevalidateIntent(
                    old(self).inner.at(
                        old(self).inner.cache.slots()[*key],
                    ).revalidate_intent.0 | RevalidateIntent::MANUALLY_TRIGGERED,
                ),
                ..old(self).inner.at(old(self).inner.cache.slots()[*key])
            }),
    {
        match self.inner.cache.get(key) {
            Some(slot) => self.inner.revalidate(slot),
            None => false,
        }
    }

    /// Replaces the data of `key` by `data`, of type `tag`, at time `now`;
    /// the entry is created if there is none. A redraw is due afterwards.
    pub fn mutate(&mut self, key: &R::Key, data: Arc<T>, tag: TypeTag, now: Instant) -> (slot:
        CacheSlot)
        requires
            old(self).wf(),
            old(self).admits(*key),
        ensures
            final(self).wf(),
            final(self).reached(*old(self), *key, slot),
            exists|entry: CacheEntry<T, E, R>| #[trigger]
                old(self).met(*key, now, slot, entry) && final(self).inner.at(slot)
                    == entry.inserted((CacheEntryData { value: data, tag }), now),
    {
        let slot = self.inner.cache.get_or_create(key, now);
        let ghost middle = *self;
        let ghost entry = self.inner.at(slot);
        let _ = self.inner.mutate(slot, data, tag, now);
        proof {
            self.lemma_reached(middle, *old(self), *key, now, slot);
            assert(old(self).met(*key, now, slot, entry));
        }
        slot
    }

    /// Starts an asynchronous mutation of `key` at time `now`; the entry is
    /// created if there is none. Returns what
    /// [`SWRInner::finish_mutation`] needs once the action has run, the
    /// data of type `tag` that the entry held before, for the action to
    /// work on, and whether a redraw is due.
    pub fn mutate_with(&mut self, key: &R::Key, options: MutateOptions<T>, tag: TypeTag, now: Instant) -> (started:
        (Mutation<T>, Option<Arc<T>>, bool))
        requires
            old(self).wf(),
            old(self).admits(*key),
        ensures
            final(self).wf(),
            final(self).reached(*old(self), *key, started.0.slot),
            started.0.tag == tag,
            started.0.rollback_on_error == options.rollback_on_error,
            started.0.revalidate == options.revalidate,
            started.2 == options.optimistic_data is Some,
            exists|entry: CacheEntry<T, E, R>| #[trigger]
                old(self).met(*key, now, started.0.slot, entry) && final(self).inner.at(
                    started.0.slot,
                ) == with_optimistic(entry, options.optimistic_data, tag, now) && started.0.previous
                    == displaced(entry, options.optimistic_data) && started.1
                    == crate::result::shown_data(entry, tag, None),
    {
        let slot = self.inner.cache.get_or_create(key, now);
        let ghost entry = self.inner.at(slot);
        let existing: Option<Arc<T>> = match self.inner.cache.entry(slot) {
            Some(found) => match found.data(&tag) {
                Some(Ok(data)) => Some(data),
                _ => None,
            },
            None => None,
        };
        let ghost middle = *self;
        let (mutation, redraw) = self.inner.mutate_with(slot, options, tag, now);
        proof {
            self.lemma_reached(middle, *old(self), *key, now, slot);
            assert(old(self).met(*key, now, slot, entry));
        }
        (mutation, existing, redraw)
    }

    /// Ends a frame at time `now`; see [`SWRInner::end_frame`].
    pub fn end_frame(&mut self, now: Instant)
        requires
            old(self).wf(),
        ensures
            final(self).wf(),
            final(self).inner.swept(old(self).inner, now),
    {
        self.inner.end_frame(now);
    }
}

} // verus!
