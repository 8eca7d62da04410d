//! Mutation of an entry from the program: at once, or around an action that
//! runs in between.

use std::sync::Arc;
use vstd::prelude::*;
use crate::cache::entry::{CacheEntry, CacheEntryData};
use crate::cache::slot::CacheSlot;
use crate::revalidate::RevalidateIntent;
use crate::runtime::{Runtime, TypeTag};
use crate::time::Instant;

verus! {

/// What an asynchronous mutation carries from its start to its end.
#[derive(Debug)]
pub struct Mutation<T> {
    /// The slot of the entry that is mutated.
    pub slot: CacheSlot,
    /// The type of the data that the mutation stores.
    pub tag: TypeTag,
    /// Whether the entry gets its earlier data back if the action fails.
    pub rollback_on_error: bool,
    /// Whether the key is revalidated once the action has succeeded.
    pub revalidate: bool,
    /// The data that the optimistic data replaced.
    pub previous: Option<CacheEntryData<T>>,
}

/// The entry after a mutation started: with the optimistic data, if there is
/// any, stored at time `now`.
pub open spec fn with_optimistic<T, E, R: Runtime>(
    entry: CacheEntry<T, E, R>,
    optimistic: Option<Arc<T>>,
    tag: TypeTag,
    now: Instant,
) -> CacheEntry<T, E, R> {
    match optimistic {
        Some(data) => entry.inserted((CacheEntryData { value: data, tag }), now),
        None => entry,
    }
}

/// The data that a mutation has to put back if it is rolled back.
pub open spec fn displaced<T, E, R: Runtime>(
    entry: CacheEntry<T, E, R>,
    optimistic: Option<Arc<T>>,
) -> Option<CacheEntryData<T>> {
    match optimistic {
        Some(_) => entry.data,
        None => None,
    }
}

/// Starts a mutation of `entry`: stores the optimistic data, if there is
/// any, and returns the data that it replaced.
pub fn apply_optimistic<T, E, R: Runtime>(
    entry: &mut CacheEntry<T, E, R>,
    optimistic: Option<Arc<T>>,
    tag: TypeTag,
    now: Instant,
) -> (previous: Option<CacheEntryData<T>>)
    requires
        old(entry).wf(),
    ensures
        final(entry).wf(),
        *final(entry) == with_optimistic(*old(entry), optimistic, tag, now),
        previous == displaced(*old(entry), optimistic),
{
    match optimistic {
        Some(data) => entry.insert(data, tag, now),
        None => None,
    }
}

/// The entry's data, error, flags and timers after a mutation ended at time
/// `now`: the action's data where it succeeded (`outcome` is `Some`), the
/// earlier data where it failed and is rolled back, and no change where it
/// failed and is not.
pub open spec fn settled<T, E, R: Runtime>(
    entry: CacheEntry<T, E, R>,
    outcome: Option<Arc<T>>,
    tag: TypeTag,
    revalidate: bool,
    rollback_on_error: bool,
    previous: Option<CacheEntryData<T>>,
    now: Instant,
) -> CacheEntry<T, E, R> {
    match outcome {
        Some(data) => {
            let stored = entry.inserted((CacheEntryData { value: data, tag }), now);
            if revalidate {
                CacheEntry {
                    revalidate_intent: RevalidateIntent(
                        stored.revalidate_intent.0 | RevalidateIntent::MUTATE,
                    ),
                    ..stored
                }
            } else {
                stored
            }
        },
        None => match previous {
            Some(earlier) if rollback_on_error => entry.inserted(earlier, now),
            _ => entry,
        },
    }
}

/// Ends a mutation of `entry` at time `now`.
///
/// The running fetch is cancelled, since what it brings is outdated. Where
/// the action succeeded its data is stored, and the reason `MUTATE` is added
/// if a revalidation was asked for. Where it failed and a rollback was asked
/// for, the data from before the mutation is stored again, if there was any.
pub fn settle_mutation<T, E, R: Runtime>(
    entry: &mut CacheEntry<T, E, R>,
    outcome: Option<Arc<T>>,
    tag: TypeTag,
    revalidate: bool,
    rollback_on_error: bool,
    previous: Option<CacheEntryData<T>>,
    now: Instant,
)
    requires
        old(entry).wf(),
    ensures
        final(entry).wf(),
        final(entry).fetch_task.held() is None,
        *final(entry) == (CacheEntry {
            fetch_task: final(entry).fetch_task,
            ..settled(*old(entry), outcome, tag, revalidate, rollback_on_error, previous, now)
        }),
{
    entry.fetch_task.abort();
    match outcome {
        Some(data) => {
            let _ = entry.insert(data, tag, now);
            if revalidate {
                let _ = entry.revalidate_intent.add(RevalidateIntent::MUTATE);
            }
        },
        None => {
            if rollback_on_error {
                if let Some(earlier) = previous {
                    let _ = entry.insert_untyped(earlier, now);
                }
            }
        },
    }
}

} // verus!
