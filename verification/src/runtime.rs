//! What the cache asks of the executor that runs its background work.
//!
//! The cache decides when a fetch, a refresh or a retry is due and describes
//! it as a [`Job`]. Running the job (calling the fetcher, sleeping, and
//! reporting back) is the executor's part.

use vstd::prelude::*;
use crate::cache::slot::CacheSlot;
use crate::time::Duration;

verus! {

/// The identity of a response type, as the embedder numbers its types.
#[derive(Clone, Copy, Debug)]
pub struct TypeTag {
    /// The number of the type; two tags name the same type exactly if their
    /// numbers are equal.
    pub id: u64,
    /// The readable name of the type.
    pub name: &'static str,
}

/// The three roles of background work.
#[derive(Clone, Copy, Debug, PartialEq, Eq, Structural)]
pub enum JobKind {
    /// Call the fetcher now; `intent` holds the reasons.
    Fetch { intent: u8 },
    /// Sleep for `interval`, then report a refresh tick.
    Refresh { interval: Duration },
    /// Sleep for `interval`, then report a retry tick.
    Retry { interval: Duration },
}

/// One piece of background work for one entry.
#[derive(Clone, Copy, Debug)]
pub struct Job {
    /// The entry that the work is for.
    pub slot: CacheSlot,
    /// The response type that the fetch is to produce.
    pub response: TypeTag,
    /// What is to be done.
    pub kind: JobKind,
}

/// A handle to a spawned piece of background work.
///
/// Cancellation is cooperative: the work may go on for a moment after
/// `abort`, and `is_finished` may change its answer at any time.
pub trait Task: Sized {
    /// Flags the work for cancellation.
    fn abort(self);

    /// Whether the work is no longer running.
    fn is_finished(&self) -> bool;
}

/// An executor of background work.
pub trait Runtime: Clone {
    /// The key type of the entries that the work is for.
    type Key: Eq + core::hash::Hash + Clone;

    /// The handle to a spawned job.
    type Task: Task;

    /// Starts `job` for the entry with key `key` in the background.
    fn spawn(&self, key: &Self::Key, job: Job) -> Self::Task;
}

} // verus!
