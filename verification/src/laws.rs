//! What holds of the cache as a whole: the invariants of its entries, and
//! how requests, mutations and revalidations relate.

use std::sync::Arc;
use vstd::prelude::*;
use crate::cache::entry::{
    lemma_word_after_error, lemma_word_after_flag, lemma_word_after_insert, word_after_error,
    word_after_insert, CacheEntry, CacheEntryData, CacheEntryStatus,
};
use crate::cache::slot::CacheSlot;
use crate::cache::Cache;
use crate::options::{Options, StoredOptions};
use crate::result::{
    fetch_starts, focus_due, frame_reasons, mode_for, observed, reasons_at, revival_reason,
    shown_data, FetchResult,
};
use crate::revalidate::{fetch_job, word_after_launch, RevalidateIntent};
use crate::runtime::{Runtime, TypeTag};
use crate::sweep::{evicted, expired, lemma_word_after_frame, word_after_frame};
use crate::time::Instant;
use crate::util::{any_set, starts, TaskStartMode};

verus! {

/// Every entry of a well-formed cache satisfies the entry invariants:
/// `HAS_DATA` is set exactly if data is stored and `HAS_ERROR` exactly if an
/// error is stored; `LOADING` and `VALIDATING` are never both set;
/// `VALIDATING` is set only with data and `LOADING` only without.
pub proof fn law_entry_invariants<T, E, R: Runtime>(cache: Cache<T, E, R>, id: u64)
    requires
        cache.wf(),
        cache.entries().contains_key(id),
    ensures
        cache.entries()[id].status.has(CacheEntryStatus::HAS_DATA) <==> cache.entries()[id].data
            is Some,
        cache.entries()[id].status.has(CacheEntryStatus::HAS_ERROR) <==> cache.entries()[id].error
            is Some,
        !(cache.entries()[id].status.has(CacheEntryStatus::LOADING) && cache.entries()[id].status.has(
            CacheEntryStatus::VALIDATING,
        )),
        cache.entries()[id].status.has(CacheEntryStatus::VALIDATING) ==> cache.entries()[id].status.has(
            CacheEntryStatus::HAS_DATA,
        ),
        cache.entries()[id].status.has(CacheEntryStatus::LOADING) ==> !cache.entries()[id].status.has(
            CacheEntryStatus::HAS_DATA,
        ),
{
    cache.lemma_wf_coherent();
}

/// A task slot never starts a second task beside one that is running: a
/// soft start gives way to it, and every other start replaces it, so that
/// the slot holds one task at most.
pub proof fn law_one_task_per_role(mode: TaskStartMode, occupied: bool, finished: bool)
    ensures
        mode is Soft && occupied && !finished ==> !starts(mode, occupied, finished),
        !(mode is Soft) ==> starts(mode, occupied, finished),
{
}

/// `ALIVE` changes only at the end of a frame, where it is set exactly if the
/// entry was used in the frame: storing data or an error, starting a fetch
/// and observing the entry all leave it as it was.
pub proof fn law_alive_follows_use(word: u8)
    ensures
        any_set(word_after_frame(word), CacheEntryStatus::ALIVE) == any_set(
            word,
            CacheEntryStatus::USED_THIS_PASS,
        ),
        !any_set(word_after_frame(word), CacheEntryStatus::USED_THIS_PASS),
        any_set(word_after_insert(word), CacheEntryStatus::ALIVE) == any_set(
            word,
            CacheEntryStatus::ALIVE,
        ),
        any_set(word_after_error(word), CacheEntryStatus::ALIVE) == any_set(
            word,
            CacheEntryStatus::ALIVE,
        ),
        any_set(word_after_launch(word), CacheEntryStatus::ALIVE) == any_set(
            word,
            CacheEntryStatus::ALIVE,
        ),
        any_set(word | CacheEntryStatus::USED_THIS_PASS, CacheEntryStatus::ALIVE) == any_set(
            word,
            CacheEntryStatus::ALIVE,
        ),
{
    lemma_word_after_frame(word);
    lemma_word_after_insert(word);
    lemma_word_after_error(word);
    lemma_word_after_flag(word, CacheEntryStatus::VALIDATING);
    lemma_word_after_flag(word, CacheEntryStatus::LOADING);
    lemma_word_after_flag(word, CacheEntryStatus::USED_THIS_PASS);
}

/// An entry is evicted only if no persisted handle refers to it, it was
/// observed neither in the frame that ends nor in the one before, and its
/// garbage-collection timeout has passed.
pub proof fn law_eviction<T, E, R: Runtime>(entry: CacheEntry<T, E, R>, now: Instant)
    requires
        evicted(entry, now),
    ensures
        entry.strong_count == 0,
        !entry.status.has(CacheEntryStatus::USED_THIS_PASS),
        !entry.status.has(CacheEntryStatus::ALIVE),
        expired(entry, now),
        entry.options.garbage_collect_timeout_ms is Some,
{
}

/// Two requests for the same entry in the same frame, with no fetch
/// completing in between, return equal snapshots, and at most one of them
/// starts a fetch.
pub proof fn law_second_request_in_frame<T, E, R: Runtime>(
    before: CacheEntry<T, E, R>,
    between: CacheEntry<T, E, R>,
    after: CacheEntry<T, E, R>,
    first: FetchResult<T, E>,
    second: FetchResult<T, E>,
    slot: CacheSlot,
    wanted: TypeTag,
    fallback: Option<Arc<T>>,
    focus_triggered: bool,
    now: Instant,
    finished_first: bool,
    finished_second: bool,
)
    requires
        before.wf(),
        observed(before, between, first, slot, wanted, fallback, focus_triggered, now, finished_first),
        observed(between, after, second, slot, wanted, fallback, focus_triggered, now, finished_second),
        between.fetch_task.held() is Some ==> !finished_second,
    ensures
        first == second,
        !(fetch_starts(before, wanted, fallback, focus_triggered, now, finished_first)
            && fetch_starts(between, wanted, fallback, focus_triggered, now, finished_second)),
{
    let word = before.status.0;
    let used = word | CacheEntryStatus::USED_THIS_PASS;
    lemma_word_after_flag(word, CacheEntryStatus::USED_THIS_PASS);
    lemma_word_after_flag(used, CacheEntryStatus::VALIDATING);
    lemma_word_after_flag(used, CacheEntryStatus::LOADING);
    let started_first = fetch_starts(before, wanted, fallback, focus_triggered, now, finished_first);
    let reasons_first = reasons_at(before, wanted, fallback, focus_triggered, now, finished_first);
    let focus_first = if focus_due(before, focus_triggered, now) {
        RevalidateIntent::APPLICATION_FOCUSED
    } else {
        0u8
    };
    let revival_first = if !before.status.has(CacheEntryStatus::ALIVE) {
        revival_reason(before, shown_data(before, wanted, fallback) is None, finished_first)
    } else {
        0u8
    };
    lemma_reasons(before.revalidate_intent.0, focus_first, revival_first);

    // What the first request leaves.
    assert(between.revalidate_intent.0 == 0);
    assert(between.last_draw_time == now);
    assert(between.data == before.data);
    assert(between.error == before.error);
    assert(between.options == before.options);
    assert(between.status.has(CacheEntryStatus::ALIVE) == before.status.has(
        CacheEntryStatus::ALIVE,
    ));
    assert(between.status.has(CacheEntryStatus::USED_THIS_PASS));
    assert(started_first ==> between.fetch_task.held() is Some);
    assert(!started_first ==> between.fetch_task == before.fetch_task);

    // The second request finds no reason, or a fetch that is still running.
    let word2 = between.status.0;
    let used2 = word2 | CacheEntryStatus::USED_THIS_PASS;
    lemma_word_after_flag(word2, CacheEntryStatus::USED_THIS_PASS);
    lemma_flag_again(word2);
    let reasons_second = reasons_at(between, wanted, fallback, focus_triggered, now, finished_second);
    let focus_second = if focus_due(between, focus_triggered, now) {
        RevalidateIntent::APPLICATION_FOCUSED
    } else {
        0u8
    };
    let revival_second = if !between.status.has(CacheEntryStatus::ALIVE) {
        revival_reason(between, shown_data(between, wanted, fallback) is None, finished_second)
    } else {
        0u8
    };
    lemma_reasons(0u8, focus_second, revival_second);
    assert(!any_set(reasons_second, RevalidateIntent::MANUALLY_TRIGGERED));
    assert(mode_for(reasons_second) == TaskStartMode::Soft);
    if reasons_first == 0 {
        assert(!focus_due(before, focus_triggered, now));
        assert(before.status.has(CacheEntryStatus::ALIVE));
        assert(!focus_due(between, focus_triggered, now));
        assert(reasons_second == 0);
    }
    let started_second = fetch_starts(
        between,
        wanted,
        fallback,
        focus_triggered,
        now,
        finished_second,
    );
    assert(!started_second);
    assert(after.status.0 == between.status.0);
}

/// A request that follows a mutation to `data`, with no suspension in
/// between, shows that data and no error, and is not loading. It is
/// validating exactly if it starts a fetch itself, which it does not where
/// the entry is alive, no reason for a fetch is pending and focus does not
/// ask for one.
pub proof fn law_request_after_mutation<T, E, R: Runtime>(
    before: CacheEntry<T, E, R>,
    after: CacheEntry<T, E, R>,
    result: FetchResult<T, E>,
    data: Arc<T>,
    tag: TypeTag,
    slot: CacheSlot,
    fallback: Option<Arc<T>>,
    focus_triggered: bool,
    mutated_at: Instant,
    now: Instant,
    finished: bool,
)
    requires
        before.wf(),
        observed(
            before.inserted((CacheEntryData { value: data, tag }), mutated_at),
            after,
            result,
            slot,
            tag,
            fallback,
            focus_triggered,
            now,
            finished,
        ),
    ensures
        result.data == Some(data),
        result.error is None,
        !result.loading,
        result.validating == fetch_starts(
            before.inserted((CacheEntryData { value: data, tag }), mutated_at),
            tag,
            fallback,
            focus_triggered,
            now,
            finished,
        ),
        before.status.has(CacheEntryStatus::ALIVE) && before.revalidate_intent.0 == 0 && !focus_due(
            before.inserted((CacheEntryData { value: data, tag }), mutated_at),
            focus_triggered,
            now,
        ) ==> !result.validating,
{
    let mutated = before.inserted((CacheEntryData { value: data, tag }), mutated_at);
    lemma_word_after_insert(before.status.0);
    let word = mutated.status.0;
    let used = word | CacheEntryStatus::USED_THIS_PASS;
    lemma_word_after_flag(word, CacheEntryStatus::USED_THIS_PASS);
    lemma_word_after_flag(used, CacheEntryStatus::VALIDATING);
    let focus = if focus_due(mutated, focus_triggered, now) {
        RevalidateIntent::APPLICATION_FOCUSED
    } else {
        0u8
    };
    let revival = if !mutated.status.has(CacheEntryStatus::ALIVE) {
        revival_reason(mutated, shown_data(mutated, tag, fallback) is None, finished)
    } else {
        0u8
    };
    lemma_reasons(mutated.revalidate_intent.0, focus, revival);
}

/// A request that follows a manual revalidation of an entry without data
/// starts a fetch, whatever runs in the fetch slot, and shows the entry as
/// loading.
pub proof fn law_revalidate_starts_fetch<T, E, R: Runtime>(
    entry: CacheEntry<T, E, R>,
    after: CacheEntry<T, E, R>,
    result: FetchResult<T, E>,
    slot: CacheSlot,
    wanted: TypeTag,
    fallback: Option<Arc<T>>,
    focus_triggered: bool,
    now: Instant,
    finished: bool,
)
    requires
        entry.wf(),
        entry.data is None,
        observed(
            revalidated(entry),
            after,
            result,
            slot,
            wanted,
            fallback,
            focus_triggered,
            now,
            finished,
        ),
    ensures
        fetch_starts(revalidated(entry), wanted, fallback, focus_triggered, now, finished),
        result.loading,
        !result.validating,
        result.data == fallback,
        after.status.has(CacheEntryStatus::LOADING),
        after.fetch_task.held() == Some(
            fetch_job(
                slot,
                wanted,
                reasons_at(revalidated(entry), wanted, fallback, focus_triggered, now, finished),
            ),
        ),
{
    let start = revalidated(entry);
    let word = entry.status.0;
    let used = word | CacheEntryStatus::USED_THIS_PASS;
    lemma_word_after_flag(word, CacheEntryStatus::USED_THIS_PASS);
    lemma_word_after_flag(used, CacheEntryStatus::LOADING);
    lemma_manual(
        entry.revalidate_intent.0,
        frame_reasons(
            start,
            shown_data(start, wanted, fallback) is None,
            focus_triggered,
            finished,
            now,
        ),
    );
}

/// The entry after a manual revalidation was asked for.
pub open spec fn revalidated<T, E, R: Runtime>(entry: CacheEntry<T, E, R>) -> CacheEntry<T, E, R> {
    CacheEntry {
        revalidate_intent: RevalidateIntent(
            entry.revalidate_intent.0 | RevalidateIntent::MANUALLY_TRIGGERED,
        ),
        ..entry
    }
}

/// A manual revalidation of an entry without data is equivalent to a fetch
/// on first usage: where a request would fetch the entry for the reason of
/// first usage, with no fetch running, the same request after a manual
/// revalidation returns the same snapshot and leaves the same entry, but for
/// the reasons that the fetch job names.
pub proof fn law_revalidate_like_first_usage<T, E, R: Runtime>(
    entry: CacheEntry<T, E, R>,
    after_manual: CacheEntry<T, E, R>,
    shown_manual: FetchResult<T, E>,
    after_first: CacheEntry<T, E, R>,
    shown_first: FetchResult<T, E>,
    slot: CacheSlot,
    wanted: TypeTag,
    fallback: Option<Arc<T>>,
    focus_triggered: bool,
    now: Instant,
    finished: bool,
)
    requires
        entry.wf(),
        entry.data is None,
        entry.fetch_task.held() is None,
        any_set(
            reasons_at(entry, wanted, fallback, focus_triggered, now, finished),
            RevalidateIntent::FIRST_USAGE,
        ),
        observed(
            entry,
            after_first,
            shown_first,
            slot,
            wanted,
            fallback,
            focus_triggered,
            now,
            finished,
        ),
        observed(
            revalidated(entry),
            after_manual,
            shown_manual,
            slot,
            wanted,
            fallback,
            focus_triggered,
            now,
            finished,
        ),
    ensures
        fetch_starts(entry, wanted, fallback, focus_triggered, now, finished),
        fetch_starts(revalidated(entry), wanted, fallback, focus_triggered, now, finished),
        shown_manual == shown_first,
        shown_manual.loading,
        after_manual == (CacheEntry { fetch_task: after_manual.fetch_task, ..after_first }),
        after_first.fetch_task.held() == Some(
            fetch_job(
                slot,
                wanted,
                reasons_at(entry, wanted, fallback, focus_triggered, now, finished),
            ),
        ),
        after_manual.fetch_task.held() == Some(
            fetch_job(
                slot,
                wanted,
                reasons_at(entry, wanted, fallback, focus_triggered, now, finished)
                    | RevalidateIntent::MANUALLY_TRIGGERED,
            ),
        ),
{
    let start = revalidated(entry);
    let word = entry.status.0;
    let used = word | CacheEntryStatus::USED_THIS_PASS;
    lemma_word_after_flag(word, CacheEntryStatus::USED_THIS_PASS);
    lemma_word_after_flag(used, CacheEntryStatus::LOADING);
    let added = frame_reasons(
        entry,
        shown_data(entry, wanted, fallback) is None,
        focus_triggered,
        finished,
        now,
    );
    assert(added == frame_reasons(
        start,
        shown_data(start, wanted, fallback) is None,
        focus_triggered,
        finished,
        now,
    ));
    lemma_manual(entry.revalidate_intent.0, added);
    lemma_first_usage(entry.revalidate_intent.0 | added);
}

/// The options that an entry keeps do not depend on the order in which the
/// call sites that share its key were merged.
pub proof fn law_merge_order<T>(stored: StoredOptions, first: Options<T>, second: Options<T>)
    ensures
        stored.merged(first).merged(second) == stored.merged(second).merged(first),
{
    lemma_or_order(
        stored.revalidate_flags.0,
        crate::options::flags_of(first),
        crate::options::flags_of(second),
    );
}

/// Merging the options of a call site a second time changes nothing.
pub proof fn law_merge_again<T>(stored: StoredOptions, options: Options<T>)
    ensures
        stored.merged(options).merged(options) == stored.merged(options),
{
    lemma_or_order(
        stored.revalidate_flags.0,
        crate::options::flags_of(options),
        crate::options::flags_of(options),
    );
}

proof fn lemma_or_order(word: u8, a: u8, b: u8)
    by (bit_vector)
    ensures
        (word | a) | b == (word | b) | a,
        (word | a) | a == word | a,
{
}

proof fn lemma_manual(pending: u8, added: u8)
    by (bit_vector)
    ensures
        ((pending | 1) | added) & 1 != 0,
        ((pending | 1) | added) != 0,
        ((pending | 1) | added) == (pending | added) | 1,
{
}

proof fn lemma_first_usage(reasons: u8)
    by (bit_vector)
    requires
        reasons & 8 != 0,
    ensures
        reasons != 0,
{
}

proof fn lemma_reasons(pending: u8, focus: u8, revival: u8)
    by (bit_vector)
    requires
        focus == 0 || focus == 2,
        revival == 0 || revival == 8 || revival == 32,
    ensures
        (pending | (focus | revival)) == 0 <==> pending == 0 && focus == 0 && revival == 0,
        pending == 0 ==> (pending | (focus | revival)) & 1 == 0,
{
}

proof fn lemma_flag_again(word: u8)
    by (bit_vector)
    requires
        word & 32 != 0,
    ensures
        word | 32 == word,
{
}

} // verus!
