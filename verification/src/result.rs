//! The handle layer: the snapshot that a request returns, the observation
//! that drives revalidation, and the persisted handle.

use std::sync::Arc;
use vstd::prelude::*;
use crate::cache::entry::{
    lemma_word_after_flag, typed_read, CacheEntry, CacheEntryStatus,
};
use crate::cache::slot::CacheSlot;
use crate::error::Error;
use crate::mutate::{displaced, with_optimistic, Mutation};
use crate::options::{stored_duration, MutateOptions, Options, RevalidateFlags};
use crate::revalidate::{fetch_launch, launch_fetch_given, RevalidateIntent};
use crate::runtime::{Runtime, TypeTag};
use crate::time::{elapsed_nanos, Instant};
use crate::util::{any_set, share, starts, TaskStartMode};
use crate::cache::entry::CacheEntryData;
use crate::SWRInner;

verus! {

/// What a request for a key returns: the state of its entry at one moment.
#[derive(Debug)]
pub struct FetchResult<T, E> {
    /// The payload, or the fallback of the request where the entry has no
    /// payload of the requested type.
    pub data: Option<Arc<T>>,
    /// The error of the last fetch, or else the type mismatch of this read.
    pub error: Option<Error<E>>,
    /// Whether a fetch is running and no earlier payload exists.
    pub loading: bool,
    /// Whether a fetch is running while an earlier payload is shown.
    pub validating: bool,
    /// The slot of the entry.
    pub slot: CacheSlot,
}

impl<T, E> FetchResult<T, E> {
    /// The snapshot of an entry that is gone: nothing to show.
    pub fn new_empty(slot: CacheSlot) -> (result: Self)
        ensures
            result == Self::empty(slot),
    {
        FetchResult { data: None, error: None, loading: false, validating: false, slot }
    }

    /// The snapshot of an entry that is gone.
    pub open spec fn empty(slot: CacheSlot) -> Self {
        FetchResult { data: None, error: None, loading: false, validating: false, slot }
    }

    /// Asks for a revalidation of the entry that the snapshot was taken of.
    /// Returns whether a redraw is due.
    pub fn revalidate<R: Runtime>(&self, swr: &mut SWRInner<T, E, R>) -> (redraw: bool)
        requires
            old(swr).wf(),
        ensures
            final(swr).wf(),
            final(swr).touched(*old(swr), self.slot),
            redraw == old(swr).holds(self.slot),
            redraw ==> final(swr).at(self.slot) == (CacheEntry {
                revalidate_intent: RevalidateIntent(
                    old(swr).at(self.slot).revalidate_intent.0
                        | RevalidateIntent::MANUALLY_TRIGGERED,
                ),
                ..old(swr).at(self.slot)
            }),
    {
        swr.revalidate(self.slot)
    }

    /// Replaces the data of the entry that the snapshot was taken of by
    /// `data`, of type `tag`, at time `now`. Returns whether a redraw is
    /// due.
    pub fn mutate<R: Runtime>(&self, swr: &mut SWRInner<T, E, R>, data: Arc<T>, tag: TypeTag, now: Instant) -> (redraw:
        bool)
        requires
            old(swr).wf(),
        ensures
            final(swr).wf(),
            final(swr).touched(*old(swr), self.slot),
            redraw == old(swr).holds(self.slot),
            redraw ==> final(swr).at(self.slot) == old(swr).at(self.slot).inserted(
                (CacheEntryData { value: data, tag }),
                now,
            ),
    {
        swr.mutate(self.slot, data, tag, now)
    }

    /// Starts an asynchronous mutation of the entry that the snapshot was
    /// taken of; see [`SWRInner::mutate_with`].
    pub fn mutate_with<R: Runtime>(
        &self,
        swr: &mut SWRInner<T, E, R>,
        options: MutateOptions<T>,
        tag: TypeTag,
        now: Instant,
    ) -> (started: (Mutation<T>, bool))
        requires
            old(swr).wf(),
        ensures
            final(swr).wf(),
            final(swr).touched(*old(swr), self.slot),
            started.0.slot == self.slot,
            started.0.tag == tag,
            started.0.rollback_on_error == options.rollback_on_error,
            started.0.revalidate == options.revalidate,
            started.1 == (old(swr).holds(self.slot) && options.optimistic_data is Some),
            old(swr).holds(self.slot) ==> final(swr).at(self.slot) == with_optimistic(
                old(swr).at(self.slot),
                options.optimistic_data,
                tag,
                now,
            ) && started.0.previous == displaced(old(swr).at(self.slot), options.optimistic_data),
            !old(swr).holds(self.slot) ==> started.0.previous is None,
    {
        swr.mutate_with(self.slot, options, tag, now)
    }
}

/// The data that a request of type `wanted` shows: the payload where it is
/// of that type, else the fallback.
pub open spec fn shown_data<T, E, R: Runtime>(
    entry: CacheEntry<T, E, R>,
    wanted: TypeTag,
    fallback: Option<Arc<T>>,
) -> Option<Arc<T>> {
    match typed_read(entry.data, wanted) {
        Some(Ok(data)) => Some(data),
        _ => fallback,
    }
}

/// The error that a request of type `wanted` shows: the stored fetcher
/// error, else the mismatch of the read, if there is one.
pub open spec fn shown_error<T, E, R: Runtime>(entry: CacheEntry<T, E, R>, wanted: TypeTag) -> Option<
    Error<E>,
> {
    match entry.error {
        Some(error) => Some(Error::Fetcher(error)),
        None => match typed_read(entry.data, wanted) {
            Some(Err(mismatch)) => Some(Error::MismatchedType(mismatch)),
            _ => None,
        },
    }
}

/// The snapshot of `entry` for a request of type `wanted` with `fallback`.
pub open spec fn snapshot_of<T, E, R: Runtime>(
    entry: CacheEntry<T, E, R>,
    slot: CacheSlot,
    wanted: TypeTag,
    fallback: Option<Arc<T>>,
) -> FetchResult<T, E> {
    FetchResult {
        data: shown_data(entry, wanted, fallback),
        error: shown_error(entry, wanted),
        loading: entry.status.has(CacheEntryStatus::LOADING),
        validating: entry.status.has(CacheEntryStatus::VALIDATING),
        slot,
    }
}

/// Whether a frame in which focus was gained (`focus_triggered`) asks for a
/// revalidation: the merged options allow it, and the focus throttle
/// interval, if there is one, has passed since the entry was last drawn.
pub open spec fn focus_due<T, E, R: Runtime>(
    entry: CacheEntry<T, E, R>,
    focus_triggered: bool,
    now: Instant,
) -> bool {
    &&& focus_triggered
    &&& entry.options.revalidate_flags.has(RevalidateFlags::ON_FOCUS)
    &&& match stored_duration(entry.options.focus_throttle_interval_ms) {
        Some(interval) => elapsed_nanos(entry.last_draw_time.nanos(), now.nanos())
            >= interval.nanos(),
        None => true,
    }
}

/// The reason for which an entry that was not alive is fetched when it is
/// observed again: first usage where it shows no data and fetching on first
/// use is allowed, or where it is stuck in loading with no fetch running;
/// stale data otherwise.
pub open spec fn revival_reason<T, E, R: Runtime>(
    entry: CacheEntry<T, E, R>,
    shows_no_data: bool,
    finished: bool,
) -> u8 {
    if (entry.options.revalidate_flags.has(RevalidateFlags::ON_FIRST_USE) && shows_no_data) || (
    entry.status.has(CacheEntryStatus::LOADING) && finished) {
        RevalidateIntent::FIRST_USAGE
    } else {
        RevalidateIntent::STALE
    }
}

/// The reasons for a fetch that one observation adds.
pub open spec fn frame_reasons<T, E, R: Runtime>(
    entry: CacheEntry<T, E, R>,
    shows_no_data: bool,
    focus_triggered: bool,
    finished: bool,
    now: Instant,
) -> u8 {
    (if focus_due(entry, focus_triggered, now) {
        RevalidateIntent::APPLICATION_FOCUSED
    } else {
        0u8
    }) | (if !entry.status.has(CacheEntryStatus::ALIVE) {
        revival_reason(entry, shows_no_data, finished)
    } else {
        0u8
    })
}

/// The mode in which a fetch for the reasons `intent` starts: a manual
/// trigger replaces the running fetch, any other reason gives way to it.
pub open spec fn mode_for(intent: u8) -> TaskStartMode {
    if any_set(intent, RevalidateIntent::MANUALLY_TRIGGERED) {
        TaskStartMode::Abort
    } else {
        TaskStartMode::Soft
    }
}

/// All the reasons for a fetch at an observation: those that were pending
/// and those that the observation adds.
pub open spec fn reasons_at<T, E, R: Runtime>(
    entry: CacheEntry<T, E, R>,
    wanted: TypeTag,
    fallback: Option<Arc<T>>,
    focus_triggered: bool,
    now: Instant,
    finished: bool,
) -> u8 {
    entry.revalidate_intent.0 | frame_reasons(
        entry,
        shown_data(entry, wanted, fallback) is None,
        focus_triggered,
        finished,
        now,
    )
}

/// Whether an observation starts a fetch: there is a reason, and the fetch
/// slot starts a task in the mode that the reasons call for.
pub open spec fn fetch_starts<T, E, R: Runtime>(
    entry: CacheEntry<T, E, R>,
    wanted: TypeTag,
    fallback: Option<Arc<T>>,
    focus_triggered: bool,
    now: Instant,
    finished: bool,
) -> bool {
    let intent = reasons_at(entry, wanted, fallback, focus_triggered, now, finished);
    intent != 0 && starts(mode_for(intent), entry.fetch_task.held() is Some, finished)
}

/// How an entry changes, and what is returned, when it is observed during a
/// frame at time `now`, where `finished` is what the running fetch reported.
///
/// The snapshot shows the data and the error as they were. The entry is
/// marked as used, the pending reasons are drained, and a fetch is started
/// where [`fetch_starts`] holds. The snapshot's `loading` and `validating`
/// are read after that.
pub open spec fn observed<T, E, R: Runtime>(
    before: CacheEntry<T, E, R>,
    after: CacheEntry<T, E, R>,
    result: FetchResult<T, E>,
    slot: CacheSlot,
    wanted: TypeTag,
    fallback: Option<Arc<T>>,
    focus_triggered: bool,
    now: Instant,
    finished: bool,
) -> bool {
    &&& fetch_launch(
        (CacheEntry { revalidate_intent: RevalidateIntent(0), ..before.marked_used(now) }),
        after,
        slot,
        reasons_at(before, wanted, fallback, focus_triggered, now, finished),
        wanted,
        fetch_starts(before, wanted, fallback, focus_triggered, now, finished),
    )
    &&& result == (FetchResult {
        data: shown_data(before, wanted, fallback),
        error: shown_error(before, wanted),
        loading: after.status.has(CacheEntryStatus::LOADING),
        validating: after.status.has(CacheEntryStatus::VALIDATING),
        slot,
    })
}

/// The fallback that a borrowed fallback stands for.
pub open spec fn held_by<T>(fallback: Option<&Arc<T>>) -> Option<Arc<T>> {
    match fallback {
        Some(f) => Some(*f),
        None => None,
    }
}

fn read_shown<T, E, R: Runtime>(
    entry: &CacheEntry<T, E, R>,
    wanted: &TypeTag,
    fallback: Option<&Arc<T>>,
) -> (shown: (Option<Arc<T>>, Option<Error<E>>))
    ensures
        shown.0 == shown_data(
            *entry,
            *wanted,
            held_by(fallback),
        ),
        shown.1 == shown_error(*entry, *wanted),
{
    let stored_error: Option<Error<E>> = match entry.error() {
        Some(error) => Some(Error::Fetcher(share(error))),
        None => None,
    };
    let fallback_data: Option<Arc<T>> = match fallback {
        Some(f) => Some(share(f)),
        None => None,
    };
    match entry.data(wanted) {
        Some(Ok(data)) => (Some(data), stored_error),
        Some(Err(mismatch)) => {
            let error = match stored_error {
                Some(error) => Some(error),
                None => Some(Error::MismatchedType(mismatch)),
            };
            (fallback_data, error)
        },
        None => (fallback_data, stored_error),
    }
}

/// The snapshot of `entry` for a request of type `wanted`, without any
/// effect on the entry.
pub fn snapshot<T, E, R: Runtime>(
    entry: &CacheEntry<T, E, R>,
    slot: CacheSlot,
    wanted: &TypeTag,
    fallback: Option<&Arc<T>>,
) -> (result: FetchResult<T, E>)
    ensures
        result == snapshot_of(
            *entry,
            slot,
            *wanted,
            held_by(fallback),
        ),
{
    let (data, error) = read_shown(entry, wanted, fallback);
    let status: u8 = entry.status.load();
    FetchResult {
        data,
        error,
        loading: status & CacheEntryStatus::LOADING != 0,
        validating: status & CacheEntryStatus::VALIDATING != 0,
        slot,
    }
}

/// Observes `entry` during a frame at time `now` for a request of type
/// `wanted`: computes the reasons for a fetch, marks the entry as used,
/// drains the reasons and starts a fetch where there is one.
pub fn observe<T, E, R: Runtime>(
    entry: &mut CacheEntry<T, E, R>,
    slot: CacheSlot,
    wanted: &TypeTag,
    fallback: Option<&Arc<T>>,
    focus_triggered: bool,
    now: Instant,
) -> (result: FetchResult<T, E>)
    requires
        old(entry).wf(),
    ensures
        final(entry).wf(),
        exists|finished: bool|
            (old(entry).fetch_task.held() is None ==> finished) && #[trigger] observed(
                *old(entry),
                *final(entry),
                result,
                slot,
                *wanted,
                held_by(fallback),
                focus_triggered,
                now,
                finished,
            ),
{
    let finished = entry.fetch_task.is_finished();
    let result = observe_given(entry, slot, wanted, fallback, focus_triggered, now, finished);
    assert(observed(
        *old(entry),
        *entry,
        result,
        slot,
        *wanted,
        held_by(fallback),
        focus_triggered,
        now,
        finished,
    ));
    result
}

/// As [`observe`], for a caller that has asked the running fetch already:
/// `finished` is what it reported.
pub fn observe_given<T, E, R: Runtime>(
    entry: &mut CacheEntry<T, E, R>,
    slot: CacheSlot,
    wanted: &TypeTag,
    fallback: Option<&Arc<T>>,
    focus_triggered: bool,
    now: Instant,
    finished: bool,
) -> (result: FetchResult<T, E>)
    requires
        old(entry).wf(),
    ensures
        final(entry).wf(),
        observed(
            *old(entry),
            *final(entry),
            result,
            slot,
            *wanted,
            held_by(fallback),
            focus_triggered,
            now,
            finished,
        ),
{
    let status: u8 = entry.status.load();
    let was_alive: bool = status & CacheEntryStatus::ALIVE != 0;
    let (data, error) = read_shown(entry, wanted, fallback);
    let mut loading: bool = status & CacheEntryStatus::LOADING != 0;
    let mut validating: bool = status & CacheEntryStatus::VALIDATING != 0;

    let mut added: u8 = 0;
    if focus_triggered && entry.options.revalidate_flags.get(RevalidateFlags::ON_FOCUS) {
        let throttled: bool = match entry.options.focus_throttle_interval() {
            Some(interval) => entry.last_draw_time().elapsed(now).as_nanos() < interval.as_nanos(),
            None => false,
        };
        if !throttled {
            added = RevalidateIntent::APPLICATION_FOCUSED;
        }
    }
    if !was_alive {
        if (entry.options.revalidate_flags.get(RevalidateFlags::ON_FIRST_USE) && data.is_none())
            || (loading && finished) {
            added = added | RevalidateIntent::FIRST_USAGE;
        } else {
            added = added | RevalidateIntent::STALE;
        }
    }
    proof {
        lemma_or_zero(added);
        lemma_word_after_flag(entry.status.0, CacheEntryStatus::USED_THIS_PASS);
    }
    let _ = entry.revalidate_intent.add(added);
    entry.mark_used(now);

    let intent: u8 = entry.revalidate_intent.take();
    if intent != 0 {
        let mode = if intent & RevalidateIntent::MANUALLY_TRIGGERED != 0 {
            TaskStartMode::Abort
        } else {
            TaskStartMode::Soft
        };
        let _ = launch_fetch_given(entry, slot, mode, finished, intent, *wanted);
        let status: u8 = entry.status.load();
        loading = status & CacheEntryStatus::LOADING != 0;
        validating = status & CacheEntryStatus::VALIDATING != 0;
    }
    FetchResult { data, error, loading, validating, slot }
}

proof fn lemma_or_zero(word: u8)
    by (bit_vector)
    ensures
        0u8 | word == word,
        word | 0u8 == word,
{
}

/// The entry with the options of a request merged into its own, if the
/// request has any.
pub open spec fn merged_into<T, E, R: Runtime>(
    entry: CacheEntry<T, E, R>,
    options: Option<Options<T>>,
) -> CacheEntry<T, E, R> {
    match options {
        Some(options) => CacheEntry { options: entry.options.merged(options), ..entry },
        None => entry,
    }
}

/// The entry after one more persisted handle refers to it, with the
/// handle's options merged into its own.
pub open spec fn acquired<T, E, R: Runtime>(
    entry: CacheEntry<T, E, R>,
    options: Option<Options<T>>,
) -> CacheEntry<T, E, R> {
    CacheEntry {
        strong_count: entry.strong_count.wrapping_add(1),
        ..merged_into(entry, options)
    }
}

/// The entry after one persisted handle less refers to it.
pub open spec fn released<T, E, R: Runtime>(entry: CacheEntry<T, E, R>) -> CacheEntry<T, E, R> {
    CacheEntry { strong_count: entry.strong_count.wrapping_sub(1), ..entry }
}

/// Counts one more persisted handle for `entry` and merges the handle's
/// options, if it has any, into the entry's.
pub fn acquire<T, E, R: Runtime>(entry: &mut CacheEntry<T, E, R>, options: Option<&Options<T>>)
    requires
        old(entry).wf(),
    ensures
        final(entry).wf(),
        *final(entry) == acquired(
            *old(entry),
            match options {
                Some(o) => Some(*o),
                None => None,
            },
        ),
{
    entry.strong_count = entry.strong_count.wrapping_add(1);
    if let Some(options) = options {
        entry.options.update_from(options);
    }
}

/// Counts one persisted handle less for `entry`.
pub fn release<T, E, R: Runtime>(entry: &mut CacheEntry<T, E, R>)
    requires
        old(entry).wf(),
    ensures
        final(entry).wf(),
        *final(entry) == released(*old(entry)),
{
    entry.strong_count = entry.strong_count.wrapping_sub(1);
}

/// How an entry changes, and what is returned, when a one-shot request
/// with `options` observes it: as if a persisted handle were made for the
/// request, asked once, and dropped.
pub open spec fn requested<T, E, R: Runtime>(
    before: CacheEntry<T, E, R>,
    after: CacheEntry<T, E, R>,
    result: FetchResult<T, E>,
    slot: CacheSlot,
    options: Option<Options<T>>,
    wanted: TypeTag,
    focus_triggered: bool,
    now: Instant,
    finished: bool,
) -> bool {
    &&& after.strong_count == before.strong_count
    &&& observed(
        acquired(before, options),
        (CacheEntry { strong_count: before.strong_count.wrapping_add(1), ..after }),
        result,
        slot,
        wanted,
        match options {
            Some(options) => options.fallback,
            None => None,
        },
        focus_triggered,
        now,
        finished,
    )
}

/// A persisted handle to an entry. The entry is not evicted for as long as
/// the handle is held; give it up with [`Persisted::release`].
#[derive(Debug)]
pub struct Persisted<T> {
    /// The slot of the entry.
    pub slot: CacheSlot,
    /// The options of the handle.
    pub options: Option<Options<T>>,
    /// The response type that the handle asks for.
    pub response: TypeTag,
}

impl<T> Persisted<T> {
    /// The fallback of the handle, if it has one.
    pub open spec fn fallback(&self) -> Option<Arc<T>> {
        match self.options {
            Some(options) => options.fallback,
            None => None,
        }
    }

    /// A handle to the entry in `slot` for requests of type `response`. The
    /// entry counts one more handle, and `options` are merged into its own.
    pub fn new<E, R: Runtime>(
        swr: &mut SWRInner<T, E, R>,
        slot: CacheSlot,
        options: Option<Options<T>>,
        response: TypeTag,
    ) -> (handle: Self)
        requires
            old(swr).wf(),
        ensures
            final(swr).wf(),
            final(swr).touched(*old(swr), slot),
            old(swr).holds(slot) ==> final(swr).at(slot) == acquired(old(swr).at(slot), options),
            handle.slot == slot,
            handle.options == options,
            handle.response == response,
    {
        let ghost whole = swr.cache;
        match swr.cache.take(slot) {
            Some(mut entry) => {
                acquire(&mut entry, options.as_ref());
                swr.cache.put(Ghost(whole), slot, entry);
            },
            None => {},
        }
        Persisted { slot, options, response }
    }

    /// Asks for a revalidation of the entry by hand. Returns whether a
    /// redraw is due.
    pub fn revalidate<E, R: Runtime>(&self, swr: &mut SWRInner<T, E, R>) -> (redraw: bool)
        requires
            old(swr).wf(),
        ensures
            final(swr).wf(),
            final(swr).touched(*old(swr), self.slot),
            redraw == old(swr).holds(self.slot),
            redraw ==> final(swr).at(self.slot) == (CacheEntry {
                revalidate_intent: RevalidateIntent(
                    old(swr).at(self.slot).revalidate_intent.0
                        | RevalidateIntent::MANUALLY_TRIGGERED,
                ),
                ..old(swr).at(self.slot)
            }),
    {
        swr.revalidate(self.slot)
    }

    /// The state of the entry, observed during a frame at time `now`, where
    /// `focus_triggered` tells whether the frame is the one in which the
    /// window gained focus. An entry that is gone shows nothing.
    pub fn get<E, R: Runtime>(
        &self,
        swr: &mut SWRInner<T, E, R>,
        focus_triggered: bool,
        now: Instant,
    ) -> (result: FetchResult<T, E>)
        requires
            old(swr).wf(),
        ensures
            final(swr).wf(),
            final(swr).touched(*old(swr), self.slot),
            !old(swr).holds(self.slot) ==> result == FetchResult::<T, E>::empty(self.slot),
            old(swr).holds(self.slot) ==> exists|finished: bool|
                (old(swr).at(self.slot).fetch_task.held() is None ==> finished)
                    && #[trigger] observed(
                    old(swr).at(self.slot),
                    final(swr).at(self.slot),
                    result,
                    self.slot,
                    self.response,
                    self.fallback(),
                    focus_triggered,
                    now,
                    finished,
                ),
    {
        let ghost whole = swr.cache;
        match swr.cache.take(self.slot) {
            Some(mut entry) => {
                let fallback: Option<&Arc<T>> = match &self.options {
                    Some(options) => options.fallback.as_ref(),
                    None => None,
                };
                let result = observe(
                    &mut entry,
                    self.slot,
                    &self.response,
                    fallback,
                    focus_triggered,
                    now,
                );
                swr.cache.put(Ghost(whole), self.slot, entry);
                result
            },
            None => FetchResult::new_empty(self.slot),
        }
    }

    /// The state of the entry, without any effect on it: fit for use outside
    /// of a frame. An entry that is gone shows nothing.
    pub fn get_shallow<E, R: Runtime>(&self, swr: &SWRInner<T, E, R>) -> (result: FetchResult<T, E>)
        requires
            swr.wf(),
        ensures
            result == if swr.holds(self.slot) {
                snapshot_of(swr.at(self.slot), self.slot, self.response, self.fallback())
            } else {
                FetchResult::<T, E>::empty(self.slot)
            },
    {
        match swr.cache.entry(self.slot) {
            Some(entry) => {
                let fallback: Option<&Arc<T>> = match &self.options {
                    Some(options) => options.fallback.as_ref(),
                    None => None,
                };
                snapshot(entry, self.slot, &self.response, fallback)
            },
            None => FetchResult::new_empty(self.slot),
        }
    }

    /// Replaces the data of the entry by `data` at time `now`. Returns
    /// whether a redraw is due.
    pub fn mutate<E, R: Runtime>(&self, swr: &mut SWRInner<T, E, R>, data: Arc<T>, now: Instant) -> (redraw:
        bool)
        requires
            old(swr).wf(),
        ensures
            final(swr).wf(),
            final(swr).touched(*old(swr), self.slot),
            redraw == old(swr).holds(self.slot),
            redraw ==> final(swr).at(self.slot) == old(swr).at(self.slot).inserted(
                (CacheEntryData { value: data, tag: self.response }),
                now,
            ),
    {
        swr.mutate(self.slot, data, self.response, now)
    }

    /// Starts an asynchronous mutation of the entry at time `now`; see
    /// [`SWRInner::mutate_with`].
    pub fn mutate_with<E, R: Runtime>(
        &self,
        swr: &mut SWRInner<T, E, R>,
        options: MutateOptions<T>,
        now: Instant,
    ) -> (started: (Mutation<T>, bool))
        requires
            old(swr).wf(),
        ensures
            final(swr).wf(),
            final(swr).touched(*old(swr), self.slot),
            started.0.slot == self.slot,
            started.0.tag == self.response,
            started.0.rollback_on_error == options.rollback_on_error,
            started.0.revalidate == options.revalidate,
            started.1 == (old(swr).holds(self.slot) && options.optimistic_data is Some),
            old(swr).holds(self.slot) ==> final(swr).at(self.slot) == with_optimistic(
                old(swr).at(self.slot),
                options.optimistic_data,
                self.response,
                now,
            ) && started.0.previous == displaced(old(swr).at(self.slot), options.optimistic_data),
            !old(swr).holds(self.slot) ==> started.0.previous is None,
    {
        swr.mutate_with(self.slot, options, self.response, now)
    }

    /// Gives the handle up: the entry counts one handle less.
    pub fn release<E, R: Runtime>(self, swr: &mut SWRInner<T, E, R>)
        requires
            old(swr).wf(),
        ensures
            final(swr).wf(),
            final(swr).touched(*old(swr), self.slot),
            old(swr).holds(self.slot) ==> final(swr).at(self.slot) == released(
                old(swr).at(self.slot),
            ),
    {
        let ghost whole = swr.cache;
        match swr.cache.take(self.slot) {
            Some(mut entry) => {
                release(&mut entry);
                swr.cache.put(Ghost(whole), self.slot, entry);
            },
            None => {},
        }
    }
}

} // verus!
