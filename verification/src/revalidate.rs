//! The revalidation engine: the pending reasons for a fetch, and the launch
//! of fetch, refresh and retry tasks.

use std::sync::Arc;
use vstd::prelude::*;
use vstd::string::StringExecFns;
use crate::cache::entry::{
    lemma_word_after_error, lemma_word_after_flag, lemma_word_after_insert, CacheEntry,
    CacheEntryData, CacheEntryStatus,
};
use crate::cache::slot::CacheSlot;
use crate::options::{stored_duration, RevalidateFlags, StoredOptions};
use crate::runtime::{Job, JobKind, Runtime, TypeTag};
use crate::time::{Duration, Instant};
use crate::util::{any_set, bits_set, starts, throttle, throttle_open, TaskStartMode};

verus! {

/// The pending reasons for a fetch, one bit each, collected between frames.
#[derive(Debug, Default)]
pub struct RevalidateIntent(pub u8);

impl RevalidateIntent {
    /// A revalidation was asked for by hand.
    pub const MANUALLY_TRIGGERED: u8 = 0b000_0001;

    /// The application gained focus.
    pub const APPLICATION_FOCUSED: u8 = 0b000_0010;

    /// The previous fetch failed and the retry interval has passed.
    pub const RETRY_ON_ERROR: u8 = 0b000_0100;

    /// The key is used for the first time.
    pub const FIRST_USAGE: u8 = 0b000_1000;

    /// The refresh interval has passed.
    pub const REFRESH_INTERVAL: u8 = 0b001_0000;

    /// The entry came back into use with data from an earlier life.
    pub const STALE: u8 = 0b010_0000;

    /// A mutation asked for a revalidation.
    pub const MUTATE: u8 = 0b100_0000;

    /// The pending reasons.
    pub open spec fn bits(&self) -> u8 {
        self.0
    }

    /// No pending reason.
    pub fn new() -> (intent: Self)
        ensures
            intent.bits() == 0,
    {
        RevalidateIntent(0)
    }

    /// Adds the reasons of `flag`; returns whether any of them was pending
    /// already.
    pub fn add(&mut self, flag: u8) -> (was_set: bool)
        ensures
            final(self).bits() == old(self).bits() | flag,
            was_set == any_set(old(self).bits(), flag),
    {
        bits_set(&mut self.0, flag)
    }

    /// Takes all pending reasons out, leaving none.
    pub fn take(&mut self) -> (taken: u8)
        ensures
            taken == old(self).bits(),
            final(self).bits() == 0,
    {
        let taken: u8 = self.0;
        self.0 = 0;
        taken
    }

    /// The pending reasons, left in place.
    pub fn peek(&self) -> (pending: u8)
        ensures
            pending == self.bits(),
    {
        self.0
    }

    /// The reasons in `flags` in words, in the order of their bits,
    /// separated by a comma and a space.
    pub fn describe(flags: u8) -> (text: String)
        ensures
            text@ == described(flags, 7),
    {
        let mut text = String::new();
        let mut count: u8 = 0;
        proof {
            reveal_with_fuel(described, 8);
            reveal_with_fuel(reason_count, 8);
        }
        if flags & Self::MANUALLY_TRIGGERED != 0 {
            push_reason(&mut text, &mut count, "manual trigger");
        }
        if flags & Self::APPLICATION_FOCUSED != 0 {
            push_reason(&mut text, &mut count, "application focus");
        }
        if flags & Self::RETRY_ON_ERROR != 0 {
            push_reason(&mut text, &mut count, "previous fetch failure (error_retry_interval)");
        }
        if flags & Self::FIRST_USAGE != 0 {
            push_reason(&mut text, &mut count, "first usage of key");
        }
        if flags & Self::REFRESH_INTERVAL != 0 {
            push_reason(&mut text, &mut count, "automatic refresh (refresh_interval)");
        }
        if flags & Self::STALE != 0 {
            push_reason(&mut text, &mut count, "stale data");
        }
        if flags & Self::MUTATE != 0 {
            push_reason(&mut text, &mut count, "mutation");
        }
        text
    }
}

/// The reason that bit number `index` stands for, together with its bit.
pub open spec fn reason(index: int) -> (u8, Seq<char>) {
    if index == 0 {
        (RevalidateIntent::MANUALLY_TRIGGERED, "manual trigger"@)
    } else if index == 1 {
        (RevalidateIntent::APPLICATION_FOCUSED, "application focus"@)
    } else if index == 2 {
        (RevalidateIntent::RETRY_ON_ERROR, "previous fetch failure (error_retry_interval)"@)
    } else if index == 3 {
        (RevalidateIntent::FIRST_USAGE, "first usage of key"@)
    } else if index == 4 {
        (RevalidateIntent::REFRESH_INTERVAL, "automatic refresh (refresh_interval)"@)
    } else if index == 5 {
        (RevalidateIntent::STALE, "stale data"@)
    } else {
        (RevalidateIntent::MUTATE, "mutation"@)
    }
}

/// How many of the first `upto` reasons are in `flags`.
pub open spec fn reason_count(flags: u8, upto: int) -> nat
    decreases upto,
{
    if upto <= 0 {
        0
    } else {
        reason_count(flags, upto - 1) + if any_set(flags, reason(upto - 1).0) {
            1nat
        } else {
            0nat
        }
    }
}

/// The first `upto` reasons that are in `flags`, in words, separated by a
/// comma and a space.
pub open spec fn described(flags: u8, upto: int) -> Seq<char>
    decreases upto,
{
    if upto <= 0 {
        Seq::empty()
    } else if !any_set(flags, reason(upto - 1).0) {
        described(flags, upto - 1)
    } else if reason_count(flags, upto - 1) == 0 {
        reason(upto - 1).1
    } else {
        described(flags, upto - 1) + ", "@ + reason(upto - 1).1
    }
}

fn push_reason(text: &mut String, count: &mut u8, words: &str)
    requires
        *old(count) < 7,
        *old(count) == 0 ==> old(text)@.len() == 0,
    ensures
        *final(count) == *old(count) + 1,
        final(text)@ == if *old(count) == 0 {
            words@
        } else {
            old(text)@ + ", "@ + words@
        },
{
    if *count != 0 {
        text.append(", ");
    }
    text.append(words);
    *count = *count + 1;
}

/// The status word after a fetch was started: `VALIDATING` is set where data
/// is present, `LOADING` where it is not.
pub open spec fn word_after_launch(word: u8) -> u8 {
    if any_set(word, CacheEntryStatus::HAS_DATA) {
        word | CacheEntryStatus::VALIDATING
    } else {
        word | CacheEntryStatus::LOADING
    }
}

/// Whether a failed fetch is retried: a retry interval is set, and the
/// failures in a row before this one are fewer than the retry count, if
/// there is one.
pub open spec fn retry_wanted(options: StoredOptions, failures_before: u8) -> bool {
    options.error_retry_interval_ms is Some && match options.error_retry_count {
        Some(limit) => failures_before < limit,
        None => true,
    }
}

/// Whether a refresh timer that has run out starts a fetch: the application
/// is focused or refreshes go on unfocused, the entry is alive, and the
/// throttle has passed since the last request.
pub open spec fn refresh_fetches<T, E, R: Runtime>(
    entry: CacheEntry<T, E, R>,
    focused: bool,
    now: Instant,
) -> bool {
    &&& entry.options.revalidate_flags.has(RevalidateFlags::WHEN_UNFOCUSED) || focused
    &&& entry.status.has(CacheEntryStatus::ALIVE)
    &&& throttle_open(entry.last_request_time, stored_duration(entry.options.throttle_ms), now)
}

/// Whether a retry timer that has run out starts a fetch: the entry still
/// holds an error, is alive, and the throttle has passed since the last
/// request.
pub open spec fn retry_fetches<T, E, R: Runtime>(entry: CacheEntry<T, E, R>, now: Instant) -> bool {
    &&& entry.status.has(CacheEntryStatus::HAS_ERROR)
    &&& entry.status.has(CacheEntryStatus::ALIVE)
    &&& throttle_open(entry.last_request_time, stored_duration(entry.options.throttle_ms), now)
}

/// The job of a fetch for the entry in `slot`.
pub open spec fn fetch_job(slot: CacheSlot, response: TypeTag, intent: u8) -> Job {
    Job { slot, response, kind: JobKind::Fetch { intent } }
}

/// The job of a refresh timer for the entry in `slot`.
pub open spec fn refresh_job(slot: CacheSlot, response: TypeTag, interval: Duration) -> Job {
    Job { slot, response, kind: JobKind::Refresh { interval } }
}

/// The job of a retry timer for the entry in `slot`.
pub open spec fn retry_job(slot: CacheSlot, response: TypeTag, interval: Duration) -> Job {
    Job { slot, response, kind: JobKind::Retry { interval } }
}

/// How an entry changes when a fetch is to be started for it: where it is
/// started (`launched`) the fetch slot holds the fetch job and `VALIDATING`
/// or `LOADING` is set; where it is not, nothing changes.
pub open spec fn fetch_launch<T, E, R: Runtime>(
    before: CacheEntry<T, E, R>,
    after: CacheEntry<T, E, R>,
    slot: CacheSlot,
    intent: u8,
    response: TypeTag,
    launched: bool,
) -> bool {
    if launched {
        &&& after.fetch_task.held() == Some(fetch_job(slot, response, intent))
        &&& after == (CacheEntry {
            status: CacheEntryStatus(word_after_launch(before.status.0)),
            fetch_task: after.fetch_task,
            ..before
        })
    } else {
        after == before
    }
}

/// Tries to start a fetch for `entry`, which stands in `slot`.
///
/// The fetch task slot is asked to start the job in `mode`. If it refuses
/// (only in `Soft` mode, while it holds a task that is still running)
/// nothing changes. If it starts the job, `VALIDATING` is set where the
/// entry has data and `LOADING` where it has none.
pub fn launch_fetch<T, E, R: Runtime>(
    entry: &mut CacheEntry<T, E, R>,
    slot: CacheSlot,
    mode: TaskStartMode,
    intent: u8,
    response: TypeTag,
) -> (launched: bool)
    requires
        old(entry).wf(),
    ensures
        final(entry).wf(),
        fetch_launch(*old(entry), *final(entry), slot, intent, response, launched),
        !launched ==> mode is Soft && old(entry).fetch_task.held() is Some,
        mode !is Soft || old(entry).fetch_task.held() is None ==> launched,
{
    let finished = entry.fetch_task.is_finished();
    launch_fetch_given(entry, slot, mode, finished, intent, response)
}

/// As [`launch_fetch`], for a caller that has asked the running fetch
/// already: `finished` is what it reported.
pub fn launch_fetch_given<T, E, R: Runtime>(
    entry: &mut CacheEntry<T, E, R>,
    slot: CacheSlot,
    mode: TaskStartMode,
    finished: bool,
    intent: u8,
    response: TypeTag,
) -> (launched: bool)
    requires
        old(entry).wf(),
    ensures
        final(entry).wf(),
        launched == starts(mode, old(entry).fetch_task.held() is Some, finished),
        fetch_launch(*old(entry), *final(entry), slot, intent, response, launched),
{
    let job = Job { slot, response, kind: JobKind::Fetch { intent } };
    let launched = entry.fetch_task.insert_given(mode, finished, &entry.key, job);
    if launched {
        proof {
            lemma_word_after_flag(entry.status.0, CacheEntryStatus::VALIDATING);
            lemma_word_after_flag(entry.status.0, CacheEntryStatus::LOADING);
        }
        if entry.status.get(CacheEntryStatus::HAS_DATA) {
            entry.status.set(CacheEntryStatus::VALIDATING);
        } else {
            entry.status.set(CacheEntryStatus::LOADING);
        }
    }
    launched
}

/// Starts the refresh timer of `entry`, cancelling the one that runs, so
/// that a single chain of refreshes exists.
pub fn launch_refresh<T, E, R: Runtime>(
    entry: &mut CacheEntry<T, E, R>,
    slot: CacheSlot,
    refresh_interval: Duration,
    response: TypeTag,
)
    ensures
        final(entry).refresh_task.held() == Some(refresh_job(slot, response, refresh_interval)),
        *final(entry) == (CacheEntry { refresh_task: final(entry).refresh_task, ..*old(entry) }),
{
    let job = Job { slot, response, kind: JobKind::Refresh { interval: refresh_interval } };
    let _ = entry.refresh_task.insert(TaskStartMode::Abort, &entry.key, job);
}

/// Starts the retry timer of `entry`, cancelling the one that runs.
pub fn launch_retry<T, E, R: Runtime>(
    entry: &mut CacheEntry<T, E, R>,
    slot: CacheSlot,
    retry_interval: Duration,
    response: TypeTag,
)
    ensures
        final(entry).retry_task.held() == Some(retry_job(slot, response, retry_interval)),
        *final(entry) == (CacheEntry { retry_task: final(entry).retry_task, ..*old(entry) }),
{
    let job = Job { slot, response, kind: JobKind::Retry { interval: retry_interval } };
    let _ = entry.retry_task.insert(TaskStartMode::Abort, &entry.key, job);
}

/// How an entry changes when the outcome of its fetch comes in at time
/// `now`.
pub open spec fn fetch_completed<T, E, R: Runtime>(
    before: CacheEntry<T, E, R>,
    after: CacheEntry<T, E, R>,
    slot: CacheSlot,
    response: TypeTag,
    outcome: Result<Arc<T>, Arc<E>>,
    now: Instant,
) -> bool {
    match outcome {
        Ok(data) => {
            &&& after == (CacheEntry {
                refresh_task: after.refresh_task,
                ..before.inserted((CacheEntryData { value: data, tag: response }), now)
            })
            &&& match stored_duration(before.options.refresh_interval_ms) {
                Some(interval) => after.refresh_task.held() == Some(
                    refresh_job(slot, response, interval),
                ),
                None => after.refresh_task == before.refresh_task,
            }
        },
        Err(error) => {
            &&& after == (CacheEntry {
                retry_count: before.retry_count.wrapping_add(1),
                retry_task: after.retry_task,
                ..before.failed(error, now)
            })
            &&& if retry_wanted(before.options, before.retry_count) {
                after.retry_task.held() == Some(
                    retry_job(
                        slot,
                        response,
                        stored_duration(before.options.error_retry_interval_ms)->0,
                    ),
                )
            } else {
                after.retry_task == before.retry_task
            }
        },
    }
}

/// Takes in the outcome of the fetch that ran for `entry` at time `now`.
///
/// On success the payload replaces the stored one, the error is cleared, the
/// retry count is zeroed, and the refresh timer is started where a refresh
/// interval is set. On failure the error is stored, the payload stays, the
/// retry count grows by one, and the retry timer is started where
/// [`retry_wanted`] says so. Either way no fetch is running afterwards, and
/// a redraw is due.
pub fn complete_fetch<T, E, R: Runtime>(
    entry: &mut CacheEntry<T, E, R>,
    slot: CacheSlot,
    response: TypeTag,
    outcome: Result<Arc<T>, Arc<E>>,
    now: Instant,
)
    requires
        old(entry).wf(),
    ensures
        final(entry).wf(),
        fetch_completed(*old(entry), *final(entry), slot, response, outcome, now),
        outcome is Ok ==> final(entry).retry_count == 0 && final(entry).error is None,
        outcome is Err ==> final(entry).data == old(entry).data,
        !final(entry).status.has(CacheEntryStatus::LOADING),
        !final(entry).status.has(CacheEntryStatus::VALIDATING),
{
    proof {
        lemma_word_after_insert(entry.status.0);
        lemma_word_after_error(entry.status.0);
    }
    match outcome {
        Ok(data) => {
            let _ = entry.insert(data, response, now);
            if let Some(interval) = entry.options.refresh_interval() {
                launch_refresh(entry, slot, interval, response);
            }
        },
        Err(error) => {
            entry.insert_error(error, now);
            let failures_before: u8 = entry.retry_count;
            entry.retry_count = failures_before.wrapping_add(1);
            if let Some(interval) = entry.options.error_retry_interval() {
                let retry: bool = match entry.options.error_retry_count {
                    Some(limit) => failures_before < limit,
                    None => true,
                };
                if retry {
                    launch_retry(entry, slot, interval, response);
                }
            }
        },
    }
}

/// How an entry changes when its refresh timer has run out at time `now`,
/// where `finished` is what the running fetch reported.
pub open spec fn refresh_step<T, E, R: Runtime>(
    before: CacheEntry<T, E, R>,
    after: CacheEntry<T, E, R>,
    slot: CacheSlot,
    response: TypeTag,
    focused: bool,
    now: Instant,
    finished: bool,
) -> bool {
    if refresh_fetches(before, focused, now) {
        fetch_launch(
            before,
            after,
            slot,
            RevalidateIntent::REFRESH_INTERVAL,
            response,
            starts(TaskStartMode::Soft, before.fetch_task.held() is Some, finished),
        )
    } else {
        &&& after == (CacheEntry { refresh_task: after.refresh_task, ..before })
        &&& match stored_duration(before.options.refresh_interval_ms) {
            Some(interval) => after.refresh_task.held() == Some(
                refresh_job(slot, response, interval),
            ),
            None => after.refresh_task == before.refresh_task,
        }
    }
}

/// How an entry changes when its retry timer has run out at time `now`,
/// where `finished` is what the running fetch reported.
pub open spec fn retry_step<T, E, R: Runtime>(
    before: CacheEntry<T, E, R>,
    after: CacheEntry<T, E, R>,
    slot: CacheSlot,
    response: TypeTag,
    now: Instant,
    finished: bool,
) -> bool {
    if retry_fetches(before, now) {
        fetch_launch(
            before,
            after,
            slot,
            RevalidateIntent::RETRY_ON_ERROR,
            response,
            starts(TaskStartMode::Soft, before.fetch_task.held() is Some, finished),
        )
    } else {
        after == before
    }
}

/// Acts for `entry` when its refresh timer has run out at time `now`, with
/// `focused` telling whether the application is focused. Returns whether a
/// redraw is due.
///
/// Where [`refresh_fetches`] holds a fetch is started softly for the reason
/// `REFRESH_INTERVAL` and a redraw is due; the fetch starts the next timer
/// when it succeeds. Otherwise the timer is started again, if a refresh
/// interval is still set, and nothing else changes.
pub fn refresh_due<T, E, R: Runtime>(
    entry: &mut CacheEntry<T, E, R>,
    slot: CacheSlot,
    response: TypeTag,
    focused: bool,
    now: Instant,
) -> (redraw: bool)
    requires
        old(entry).wf(),
    ensures
        final(entry).wf(),
        redraw == refresh_fetches(*old(entry), focused, now),
        exists|finished: bool|
            (old(entry).fetch_task.held() is None ==> finished) && #[trigger] refresh_step(
                *old(entry),
                *final(entry),
                slot,
                response,
                focused,
                now,
                finished,
            ),
{
    let finished = entry.fetch_task.is_finished();
    let redraw = refresh_due_given(entry, slot, response, focused, now, finished);
    assert(refresh_step(*old(entry), *entry, slot, response, focused, now, finished));
    redraw
}

/// As [`refresh_due`], for a caller that has asked the running fetch
/// already: `finished` is what it reported.
pub fn refresh_due_given<T, E, R: Runtime>(
    entry: &mut CacheEntry<T, E, R>,
    slot: CacheSlot,
    response: TypeTag,
    focused: bool,
    now: Instant,
    finished: bool,
) -> (redraw: bool)
    requires
        old(entry).wf(),
    ensures
        final(entry).wf(),
        redraw == refresh_fetches(*old(entry), focused, now),
        refresh_step(*old(entry), *final(entry), slot, response, focused, now, finished),
{
    if (entry.options.revalidate_flags.get(RevalidateFlags::WHEN_UNFOCUSED) || focused)
        && entry.status.get(CacheEntryStatus::ALIVE) && throttle(
        entry.last_request_time(),
        entry.options.throttle(),
        now,
    ) {
        let _ = launch_fetch_given(
            entry,
            slot,
            TaskStartMode::Soft,
            finished,
            RevalidateIntent::REFRESH_INTERVAL,
            response,
        );
        return true;
    }
    if let Some(interval) = entry.options.refresh_interval() {
        launch_refresh(entry, slot, interval, response);
    }
    false
}

/// Acts for `entry` when its retry timer has run out at time `now`. Returns
/// whether a redraw is due.
///
/// Where [`retry_fetches`] holds a fetch is started softly for the reason
/// `RETRY_ON_ERROR` and a redraw is due. Otherwise nothing changes.
pub fn retry_due<T, E, R: Runtime>(
    entry: &mut CacheEntry<T, E, R>,
    slot: CacheSlot,
    response: TypeTag,
    now: Instant,
) -> (redraw: bool)
    requires
        old(entry).wf(),
    ensures
        final(entry).wf(),
        redraw == retry_fetches(*old(entry), now),
        exists|finished: bool|
            (old(entry).fetch_task.held() is None ==> finished) && #[trigger] retry_step(
                *old(entry),
                *final(entry),
                slot,
                response,
                now,
                finished,
            ),
{
    let finished = entry.fetch_task.is_finished();
    let redraw = retry_due_given(entry, slot, response, now, finished);
    assert(retry_step(*old(entry), *entry, slot, response, now, finished));
    redraw
}

/// As [`retry_due`], for a caller that has asked the running fetch already:
/// `finished` is what it reported.
pub fn retry_due_given<T, E, R: Runtime>(
    entry: &mut CacheEntry<T, E, R>,
    slot: CacheSlot,
    response: TypeTag,
    now: Instant,
    finished: bool,
) -> (redraw: bool)
    requires
        old(entry).wf(),
    ensures
        final(entry).wf(),
        redraw == retry_fetches(*old(entry), now),
        retry_step(*old(entry), *final(entry), slot, response, now, finished),
{
    let status: u8 = entry.status.load();
    if (status & CacheEntryStatus::HAS_ERROR == 0) || (status & CacheEntryStatus::ALIVE == 0) {
        return false;
    }
    if throttle(entry.last_request_time(), entry.options.throttle(), now) {
        let _ = launch_fetch_given(
            entry,
            slot,
            TaskStartMode::Soft,
            finished,
            RevalidateIntent::RETRY_ON_ERROR,
            response,
        );
        return true;
    }
    false
}

} // verus!
