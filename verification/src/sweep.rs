//! The end-of-frame pass over one entry: liveness, age and eviction.

use vstd::prelude::*;
use crate::cache::entry::{
    lemma_word_after_flag, lemma_word_without_flag, CacheEntry, CacheEntryStatus,
};
use crate::options::stored_duration;
use crate::runtime::Runtime;
use crate::time::{elapsed_nanos, Instant};
use crate::util::any_set;

verus! {

/// The status word after the end of a frame: an entry that was used in the
/// frame is alive, one that was not is not, and the use is forgotten.
pub open spec fn word_after_frame(word: u8) -> u8 {
    if any_set(word, CacheEntryStatus::USED_THIS_PASS) {
        (word & !CacheEntryStatus::USED_THIS_PASS) | CacheEntryStatus::ALIVE
    } else {
        (word & !CacheEntryStatus::USED_THIS_PASS) & !CacheEntryStatus::ALIVE
    }
}

/// Whether the garbage-collection timeout of `entry` has passed since it was
/// last drawn; never, where there is no timeout.
pub open spec fn expired<T, E, R: Runtime>(entry: CacheEntry<T, E, R>, now: Instant) -> bool {
    match stored_duration(entry.options.garbage_collect_timeout_ms) {
        Some(timeout) => elapsed_nanos(entry.last_draw_time.nanos(), now.nanos())
            >= timeout.nanos(),
        None => false,
    }
}

/// Whether `entry` is evicted at the end of a frame at time `now`: it was
/// not used in this frame nor in the one before, no persisted handle refers
/// to it, and its timeout has passed.
pub open spec fn evicted<T, E, R: Runtime>(entry: CacheEntry<T, E, R>, now: Instant) -> bool {
    &&& !entry.status.has(CacheEntryStatus::USED_THIS_PASS)
    &&& !entry.status.has(CacheEntryStatus::ALIVE)
    &&& entry.strong_count == 0
    &&& expired(entry, now)
}

/// The entry after the end of a frame that it survives.
pub open spec fn after_frame<T, E, R: Runtime>(entry: CacheEntry<T, E, R>) -> CacheEntry<T, E, R> {
    CacheEntry { status: CacheEntryStatus(word_after_frame(entry.status.0)), ..entry }
}

/// The flags of the word after the end of a frame.
pub proof fn lemma_word_after_frame(word: u8)
    ensures
        !any_set(word_after_frame(word), CacheEntryStatus::USED_THIS_PASS),
        any_set(word_after_frame(word), CacheEntryStatus::ALIVE) == any_set(
            word,
            CacheEntryStatus::USED_THIS_PASS,
        ),
        any_set(word_after_frame(word), CacheEntryStatus::HAS_DATA) == any_set(
            word,
            CacheEntryStatus::HAS_DATA,
        ),
        any_set(word_after_frame(word), CacheEntryStatus::HAS_ERROR) == any_set(
            word,
            CacheEntryStatus::HAS_ERROR,
        ),
        any_set(word_after_frame(word), CacheEntryStatus::LOADING) == any_set(
            word,
            CacheEntryStatus::LOADING,
        ),
        any_set(word_after_frame(word), CacheEntryStatus::VALIDATING) == any_set(
            word,
            CacheEntryStatus::VALIDATING,
        ),
{
    let cleared = word & !CacheEntryStatus::USED_THIS_PASS;
    lemma_word_without_flag(word, CacheEntryStatus::USED_THIS_PASS);
    lemma_word_after_flag(cleared, CacheEntryStatus::ALIVE);
    lemma_word_without_flag(cleared, CacheEntryStatus::ALIVE);
}

/// Ends a frame for `entry` at time `now` and returns whether the entry
/// stays in the cache.
///
/// An entry that was used in the frame becomes alive. One that was not
/// stops being alive; if it was not alive before either, no persisted handle
/// refers to it and its timeout has passed, its three tasks are cancelled
/// and it is to be evicted.
pub fn end_frame<T, E, R: Runtime>(entry: &mut CacheEntry<T, E, R>, now: Instant) -> (keep: bool)
    requires
        old(entry).wf(),
    ensures
        final(entry).wf(),
        keep == !evicted(*old(entry), now),
        keep ==> *final(entry) == after_frame(*old(entry)),
        !keep ==> final(entry).fetch_task.held() is None && final(entry).refresh_task.held()
            is None && final(entry).retry_task.held() is None && *final(entry) == (CacheEntry {
            fetch_task: final(entry).fetch_task,
            refresh_task: final(entry).refresh_task,
            retry_task: final(entry).retry_task,
            ..after_frame(*old(entry))
        }),
{
    proof {
        lemma_word_after_frame(entry.status.0);
    }
    let used = entry.status.clear(CacheEntryStatus::USED_THIS_PASS);
    if !used {
        let was_alive = entry.status.clear(CacheEntryStatus::ALIVE);
        proof {
            lemma_word_without_flag(old(entry).status.0, CacheEntryStatus::USED_THIS_PASS);
        }
        if !was_alive && entry.strong_count == 0 {
            let should_gc: bool = match entry.options.garbage_collect_timeout() {
                Some(timeout) => entry.last_draw_time().elapsed(now).as_nanos()
                    >= timeout.as_nanos(),
                None => false,
            };
            if should_gc {
                entry.fetch_task.abort();
                entry.refresh_task.abort();
                entry.retry_task.abort();
                return false;
            }
        }
    } else {
        entry.status.set(CacheEntryStatus::ALIVE);
    }
    true
}

} // verus!
