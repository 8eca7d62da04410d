//! The per-key entry: its status word, payload, error, timers and task slots.

use std::sync::Arc;
use vstd::prelude::*;
use crate::error::MismatchedTypeError;
use crate::options::StoredOptions;
use crate::revalidate::RevalidateIntent;
use crate::runtime::{Runtime, TypeTag};
use crate::time::Instant;
use crate::util::{any_set, bits_clear, bits_get, bits_set, share, TaskSlot};

verus! {

/// The packed status flags of an entry.
#[derive(Debug)]
pub struct CacheEntryStatus(pub u8);

impl CacheEntryStatus {
    /// A payload is stored.
    pub const HAS_DATA: u8 = 0b00_0001;

    /// A fetcher error is stored.
    pub const HAS_ERROR: u8 = 0b00_0010;

    /// A fetch is running and no payload from an earlier fetch exists.
    pub const LOADING: u8 = 0b00_0100;

    /// A fetch is running while an earlier payload is still shown.
    pub const VALIDATING: u8 = 0b00_1000;

    /// The entry was observed in the previous frame.
    pub const ALIVE: u8 = 0b01_0000;

    /// The entry has been observed in the current frame.
    pub const USED_THIS_PASS: u8 = 0b10_0000;

    /// The status word.
    pub open spec fn bits(&self) -> u8 {
        self.0
    }

    /// Whether any of `bits` is set.
    pub open spec fn has(&self, bits: u8) -> bool {
        any_set(self.bits(), bits)
    }

    /// A status with no flag set.
    pub fn new() -> (status: Self)
        ensures
            status.bits() == 0,
    {
        CacheEntryStatus(0)
    }

    /// The whole status word.
    pub fn load(&self) -> (word: u8)
        ensures
            word == self.bits(),
    {
        self.0
    }

    /// Sets `bits`; returns whether any of them was set before.
    pub fn set(&mut self, bits: u8) -> (was_set: bool)
        ensures
            final(self).bits() == old(self).bits() | bits,
            was_set == old(self).has(bits),
    {
        bits_set(&mut self.0, bits)
    }

    /// Whether any of `bits` is set.
    pub fn get(&self, bits: u8) -> (set: bool)
        ensures
            set == self.has(bits),
    {
        bits_get(self.0, bits)
    }

    /// Clears `bits`; returns whether any of them was set before.
    pub fn clear(&mut self, bits: u8) -> (was_set: bool)
        ensures
            final(self).bits() == old(self).bits() & !bits,
            was_set == old(self).has(bits),
    {
        bits_clear(&mut self.0, bits)
    }
}

/// A stored payload together with the type it was stored as.
#[derive(Debug)]
pub struct CacheEntryData<T> {
    /// The payload.
    pub value: Arc<T>,
    /// The type that the payload was stored as.
    pub tag: TypeTag,
}

/// The status word after a payload was stored: no fetch is running any
/// more, data is present and the error is gone.
pub open spec fn word_after_insert(word: u8) -> u8 {
    ((word & !(CacheEntryStatus::LOADING | CacheEntryStatus::VALIDATING))
        | CacheEntryStatus::HAS_DATA) & !CacheEntryStatus::HAS_ERROR
}

/// The status word after an error was stored: no fetch is running any more
/// and an error is present.
pub open spec fn word_after_error(word: u8) -> u8 {
    (word & !(CacheEntryStatus::LOADING | CacheEntryStatus::VALIDATING))
        | CacheEntryStatus::HAS_ERROR
}

/// What a read of `data` as type `wanted` gives: nothing where nothing is
/// stored, the payload where the types agree, and a mismatch otherwise.
pub open spec fn typed_read<T>(data: Option<CacheEntryData<T>>, wanted: TypeTag) -> Option<
    Result<Arc<T>, MismatchedTypeError>,
> {
    match data {
        None => None,
        Some(stored) => if stored.tag.id == wanted.id {
            Some(Ok(stored.value))
        } else {
            Some(Err(MismatchedTypeError::of(stored.tag, wanted)))
        },
    }
}

/// The state that the cache keeps for one key.
pub struct CacheEntry<T, E, R: Runtime> {
    /// The key; it never changes.
    pub key: R::Key,
    /// How many fetches in a row have failed.
    pub retry_count: u8,
    /// The status flags.
    pub status: CacheEntryStatus,
    /// The pending reasons for a fetch.
    pub revalidate_intent: RevalidateIntent,
    /// The payload, if any.
    pub data: Option<CacheEntryData<T>>,
    /// The error of the last fetch, if it failed.
    pub error: Option<Arc<E>>,
    /// When the entry was last observed during a frame.
    pub last_draw_time: Instant,
    /// When a fetch or a mutation last completed, if ever.
    pub last_request_time: Option<Instant>,
    /// The running fetch.
    pub fetch_task: TaskSlot<R>,
    /// The running refresh timer.
    pub refresh_task: TaskSlot<R>,
    /// The running retry timer.
    pub retry_task: TaskSlot<R>,
    /// How many persisted handles refer to the entry.
    pub strong_count: u32,
    /// The merged options of all requests for the key.
    pub options: StoredOptions,
}

impl<T, E, R: Runtime> CacheEntry<T, E, R> {
    /// The invariants of an entry: the presence flags say what is stored, at
    /// most one of `LOADING` and `VALIDATING` is set, `LOADING` only without
    /// data and `VALIDATING` only with data, and no stored duration is zero.
    pub open spec fn wf(&self) -> bool {
        &&& self.options.wf()
        &&& self.status.has(CacheEntryStatus::HAS_DATA) <==> self.data is Some
        &&& self.status.has(CacheEntryStatus::HAS_ERROR) <==> self.error is Some
        &&& !(self.status.has(CacheEntryStatus::LOADING) && self.status.has(
            CacheEntryStatus::VALIDATING,
        ))
        &&& self.status.has(CacheEntryStatus::LOADING) ==> !self.status.has(
            CacheEntryStatus::HAS_DATA,
        )
        &&& self.status.has(CacheEntryStatus::VALIDATING) ==> self.status.has(
            CacheEntryStatus::HAS_DATA,
        )
    }

    /// The entry after `data` was stored at time `now`.
    pub open spec fn inserted(self, data: CacheEntryData<T>, now: Instant) -> Self {
        CacheEntry {
            status: CacheEntryStatus(word_after_insert(self.status.0)),
            data: Some(data),
            error: None,
            retry_count: 0,
            last_request_time: Some(now),
            ..self
        }
    }

    /// The entry after the fetcher's `error` was stored at time `now`.
    pub open spec fn failed(self, error: Arc<E>, now: Instant) -> Self {
        CacheEntry {
            status: CacheEntryStatus(word_after_error(self.status.0)),
            error: Some(error),
            last_request_time: Some(now),
            ..self
        }
    }

    /// The entry after it was observed at time `now`.
    pub open spec fn marked_used(self, now: Instant) -> Self {
        CacheEntry {
            status: CacheEntryStatus(self.status.0 | CacheEntryStatus::USED_THIS_PASS),
            last_draw_time: now,
            ..self
        }
    }

    /// Whether `self` is as an entry for `key` is when it is created at time
    /// `now`: nothing stored, no flag set, nothing pending, no task, no
    /// handle, the default options.
    pub open spec fn fresh(&self, key: R::Key, now: Instant) -> bool {
        &&& self.key == key
        &&& self.retry_count == 0
        &&& self.status.bits() == 0
        &&& self.revalidate_intent.bits() == 0
        &&& self.data is None
        &&& self.error is None
        &&& self.last_draw_time == now
        &&& self.last_request_time is None
        &&& self.fetch_task.held() is None
        &&& self.refresh_task.held() is None
        &&& self.retry_task.held() is None
        &&& self.strong_count == 0
        &&& self.options == StoredOptions::initial()
    }

    /// A fresh entry for `key`, created at time `now`.
    pub fn new(runtime: R, key: R::Key, now: Instant) -> (entry: Self)
        ensures
            entry.wf(),
            entry.fresh(key, now),
    {
        proof {
            crate::util::lemma_empty_word();
        }
        CacheEntry {
            key,
            retry_count: 0,
            status: CacheEntryStatus::new(),
            revalidate_intent: RevalidateIntent::new(),
            data: None,
            error: None,
            last_draw_time: now,
            last_request_time: None,
            fetch_task: TaskSlot::new(runtime.clone()),
            refresh_task: TaskSlot::new(runtime.clone()),
            retry_task: TaskSlot::new(runtime),
            strong_count: 0,
            options: StoredOptions::default(),
        }
    }

    /// Reads the payload as type `wanted`: `None` where nothing is stored,
    /// the payload where it was stored as that type, and a mismatch error
    /// otherwise.
    pub fn data(&self, wanted: &TypeTag) -> (read: Option<Result<Arc<T>, MismatchedTypeError>>)
        ensures
            read == typed_read(self.data, *wanted),
    {
        match &self.data {
            None => None,
            Some(stored) => {
                if stored.tag.id == wanted.id {
                    Some(Ok(share(&stored.value)))
                } else {
                    Some(Err(MismatchedTypeError::new(&stored.tag, wanted)))
                }
            },
        }
    }

    /// The error of the last fetch, if it failed.
    pub fn error(&self) -> (error: Option<&Arc<E>>)
        ensures
            match error {
                Some(e) => self.error == Some(*e),
                None => self.error is None,
            },
    {
        self.error.as_ref()
    }

    /// The pending reasons for a fetch.
    #[inline]
    pub fn revalidate_intent(&self) -> (intent: &RevalidateIntent)
        ensures
            *intent == self.revalidate_intent,
    {
        &self.revalidate_intent
    }

    /// The status flags.
    #[inline]
    pub fn status(&self) -> (status: &CacheEntryStatus)
        ensures
            *status == self.status,
    {
        &self.status
    }

    /// The key.
    #[inline]
    pub fn key(&self) -> (key: &R::Key)
        ensures
            *key == self.key,
    {
        &self.key
    }

    /// Stores `data` as a payload of type `tag` at time `now` and returns the
    /// payload that it replaces.
    pub fn insert(&mut self, data: Arc<T>, tag: TypeTag, now: Instant) -> (replaced: Option<
        CacheEntryData<T>,
    >)
        requires
            old(self).wf(),
        ensures
            *final(self) == old(self).inserted((CacheEntryData { value: data, tag }), now),
            replaced == old(self).data,
            final(self).wf(),
    {
        self.insert_untyped(CacheEntryData { value: data, tag }, now)
    }

    /// Stores the tagged payload `data` at time `now` and returns the payload
    /// that it replaces. The stored error is dropped, the retry count is
    /// zeroed, and neither `LOADING` nor `VALIDATING` is set afterwards.
    pub fn insert_untyped(&mut self, data: CacheEntryData<T>, now: Instant) -> (replaced: Option<
        CacheEntryData<T>,
    >)
        requires
            old(self).wf(),
        ensures
            *final(self) == old(self).inserted(data, now),
            replaced == old(self).data,
            final(self).wf(),
    {
        proof {
            lemma_word_after_insert(self.status.0);
        }
        self.status.clear(CacheEntryStatus::LOADING | CacheEntryStatus::VALIDATING);
        self.status.set(CacheEntryStatus::HAS_DATA);
        let replaced = self.data.take();
        self.data = Some(data);
        self.status.clear(CacheEntryStatus::HAS_ERROR);
        self.error = None;
        self.retry_count = 0;
        self.last_request_time = Some(now);
        replaced
    }

    /// Stores the fetcher's `error` at time `now`, dropping the error that it
    /// replaces. The payload stays as it is.
    pub fn insert_error(&mut self, error: Arc<E>, now: Instant)
        requires
            old(self).wf(),
        ensures
            *final(self) == old(self).failed(error, now),
            final(self).wf(),
    {
        proof {
            lemma_word_after_error(self.status.0);
        }
        self.status.clear(CacheEntryStatus::LOADING | CacheEntryStatus::VALIDATING);
        self.status.set(CacheEntryStatus::HAS_ERROR);
        self.error = Some(error);
        self.last_request_time = Some(now);
    }

    /// Records that the entry was observed at time `now`.
    pub fn mark_used(&mut self, now: Instant)
        requires
            old(self).wf(),
        ensures
            *final(self) == old(self).marked_used(now),
            final(self).wf(),
            final(self).status.has(CacheEntryStatus::USED_THIS_PASS),
    {
        proof {
            lemma_word_after_flag(self.status.0, CacheEntryStatus::USED_THIS_PASS);
        }
        self.last_draw_time = now;
        self.status.set(CacheEntryStatus::USED_THIS_PASS);
    }

    /// When a fetch or a mutation last completed, if ever.
    pub fn last_request_time(&self) -> (time: Option<Instant>)
        ensures
            time == self.last_request_time,
    {
        self.last_request_time
    }

    /// When the entry was last observed during a frame.
    pub fn last_draw_time(&self) -> (time: Instant)
        ensures
            time == self.last_draw_time,
    {
        self.last_draw_time
    }
}

/// The six flags of the word after a payload was stored.
pub proof fn lemma_word_after_insert(word: u8)
    ensures
        any_set(word_after_insert(word), CacheEntryStatus::HAS_DATA),
        !any_set(word_after_insert(word), CacheEntryStatus::HAS_ERROR),
        !any_set(word_after_insert(word), CacheEntryStatus::LOADING),
        !any_set(word_after_insert(word), CacheEntryStatus::VALIDATING),
        any_set(word_after_insert(word), CacheEntryStatus::ALIVE) == any_set(
            word,
            CacheEntryStatus::ALIVE,
        ),
        any_set(word_after_insert(word), CacheEntryStatus::USED_THIS_PASS) == any_set(
            word,
            CacheEntryStatus::USED_THIS_PASS,
        ),
{
    let after = ((word & !(4u8 | 8u8)) | 1u8) & !2u8;
    assert(after & 1u8 != 0 && after & 2u8 == 0 && after & 4u8 == 0 && after & 8u8 == 0 && (after
        & 16u8 != 0) == (word & 16u8 != 0) && (after & 32u8 != 0) == (word & 32u8 != 0))
        by (bit_vector)
        requires
            after == ((word & !(4u8 | 8u8)) | 1u8) & !2u8,
    ;
}

/// The six flags of the word after an error was stored.
pub proof fn lemma_word_after_error(word: u8)
    ensures
        any_set(word_after_error(word), CacheEntryStatus::HAS_ERROR),
        !any_set(word_after_error(word), CacheEntryStatus::LOADING),
        !any_set(word_after_error(word), CacheEntryStatus::VALIDATING),
        any_set(word_after_error(word), CacheEntryStatus::HAS_DATA) == any_set(
            word,
            CacheEntryStatus::HAS_DATA,
        ),
        any_set(word_after_error(word), CacheEntryStatus::ALIVE) == any_set(
            word,
            CacheEntryStatus::ALIVE,
        ),
        any_set(word_after_error(word), CacheEntryStatus::USED_THIS_PASS) == any_set(
            word,
            CacheEntryStatus::USED_THIS_PASS,
        ),
{
    let after = (word & !(4u8 | 8u8)) | 2u8;
    assert(after & 2u8 != 0 && after & 4u8 == 0 && after & 8u8 == 0 && (after & 1u8 != 0) == (word
        & 1u8 != 0) && (after & 16u8 != 0) == (word & 16u8 != 0) && (after & 32u8 != 0) == (word
        & 32u8 != 0)) by (bit_vector)
        requires
            after == (word & !(4u8 | 8u8)) | 2u8,
    ;
}

/// The six flags of the word after one of them was set: that one is set and
/// the others are as they were.
pub proof fn lemma_word_after_flag(word: u8, flag: u8)
    requires
        flag == 1 || flag == 2 || flag == 4 || flag == 8 || flag == 16 || flag == 32,
    ensures
        any_set(word | flag, flag),
        forall|other: u8|
            (other == 1 || other == 2 || other == 4 || other == 8 || other == 16 || other == 32)
                && other != flag ==> #[trigger] any_set(word | flag, other) == any_set(
                word,
                other,
            ),
{
    crate::util::lemma_bits_after_set(word, flag);
    assert forall|other: u8|
        (other == 1 || other == 2 || other == 4 || other == 8 || other == 16 || other == 32)
            && other != flag implies #[trigger] any_set(word | flag, other) == any_set(
        word,
        other,
    ) by {
        crate::util::lemma_single_bits(flag, other);
    }
    crate::util::lemma_single_bits(flag, flag);
}

/// The six flags of the word after one of them was cleared: that one is
/// clear and the others are as they were.
pub proof fn lemma_word_without_flag(word: u8, flag: u8)
    requires
        flag == 1 || flag == 2 || flag == 4 || flag == 8 || flag == 16 || flag == 32,
    ensures
        !any_set(word & !flag, flag),
        forall|other: u8|
            (other == 1 || other == 2 || other == 4 || other == 8 || other == 16 || other == 32)
                && other != flag ==> #[trigger] any_set(word & !flag, other) == any_set(
                word,
                other,
            ),
{
    crate::util::lemma_bits_after_clear(word, flag);
    assert forall|other: u8|
        (other == 1 || other == 2 || other == 4 || other == 8 || other == 16 || other == 32)
            && other != flag implies #[trigger] any_set(word & !flag, other) == any_set(
        word,
        other,
    ) by {
        crate::util::lemma_single_bits(flag, other);
    }
    crate::util::lemma_single_bits(flag, flag);
}

} // verus!
