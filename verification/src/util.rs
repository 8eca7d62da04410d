//! Small shared pieces: bit-flag words, the task slot and the throttle test.

use std::sync::Arc;
use vstd::prelude::*;
use crate::runtime::{Job, Runtime, Task};
use crate::time::{elapsed_nanos, Duration, Instant};

verus! {

/// Whether any of the bits of `bits` is set in `word`.
pub open spec fn any_set(word: u8, bits: u8) -> bool {
    word & bits != 0
}

/// Whether `flag` is a word with exactly one bit set.
pub open spec fn is_single_bit(flag: u8) -> bool {
    flag == 1 || flag == 2 || flag == 4 || flag == 8 || flag == 16 || flag == 32 || flag == 64
        || flag == 128
}

proof fn lemma_or_bit(word: u8, set: u8, flag: u8)
    by (bit_vector)
    ensures
        ((word | set) & flag != 0) == ((word & flag != 0) || (set & flag != 0)),
{
}

proof fn lemma_and_not_bit(word: u8, cleared: u8, flag: u8)
    by (bit_vector)
    requires
        flag == 1 || flag == 2 || flag == 4 || flag == 8 || flag == 16 || flag == 32 || flag == 64
            || flag == 128,
    ensures
        ((word & !cleared) & flag != 0) == ((word & flag != 0) && !(cleared & flag != 0)),
{
}

proof fn lemma_bit_in_bit(a: u8, b: u8)
    by (bit_vector)
    requires
        a == 1 || a == 2 || a == 4 || a == 8 || a == 16 || a == 32 || a == 64 || a == 128,
        b == 1 || b == 2 || b == 4 || b == 8 || b == 16 || b == 32 || b == 64 || b == 128,
    ensures
        (a & b != 0) == (a == b),
{
}

proof fn lemma_zero_word(flag: u8)
    by (bit_vector)
    ensures
        0u8 & flag == 0,
{
}

/// A bit is set after `word | set` exactly if it was set in `word` or is one
/// of those that were added.
pub proof fn lemma_bits_after_set(word: u8, set: u8)
    ensures
        forall|flag: u8| #[trigger] any_set(word | set, flag) == (any_set(word, flag) || any_set(set, flag)),
{
    assert forall|flag: u8| #[trigger] any_set(word | set, flag) == (any_set(word, flag) || any_set(set, flag)) by {
        lemma_or_bit(word, set, flag);
    }
}

/// A single bit is set after `word & !cleared` exactly if it was set in
/// `word` and is not one of those that were removed.
pub proof fn lemma_bits_after_clear(word: u8, cleared: u8)
    ensures
        forall|flag: u8|
            is_single_bit(flag) ==> #[trigger] any_set(word & !cleared, flag) == (any_set(word, flag)
                && !any_set(cleared, flag)),
{
    assert forall|flag: u8| is_single_bit(flag) implies #[trigger] any_set(word & !cleared, flag)
        == (any_set(word, flag) && !any_set(cleared, flag)) by {
        lemma_and_not_bit(word, cleared, flag);
    }
}

/// One single bit lies in another exactly if the two are the same bit.
pub proof fn lemma_single_bits(a: u8, b: u8)
    requires
        is_single_bit(a),
        is_single_bit(b),
    ensures
        any_set(a, b) == (a == b),
{
    lemma_bit_in_bit(a, b);
}

/// No bit is set in the empty word.
pub proof fn lemma_empty_word()
    ensures
        forall|flag: u8| !#[trigger] any_set(0u8, flag),
{
    assert forall|flag: u8| !#[trigger] any_set(0u8, flag) by {
        lemma_zero_word(flag);
    }
}

/// Whether any of `bits` is set in `word`.
pub fn bits_get(word: u8, bits: u8) -> (set: bool)
    ensures
        set == any_set(word, bits),
{
    (word & bits) != 0
}

/// Sets `bits` in `word`; returns whether any of them was set before.
pub fn bits_set(word: &mut u8, bits: u8) -> (was_set: bool)
    ensures
        *final(word) == *old(word) | bits,
        was_set == any_set(*old(word), bits),
{
    let before: u8 = *word;
    *word = before | bits;
    (before & bits) != 0
}

/// Clears `bits` in `word`; returns whether any of them was set before.
pub fn bits_clear(word: &mut u8, bits: u8) -> (was_set: bool)
    ensures
        *final(word) == *old(word) & !bits,
        was_set == any_set(*old(word), bits),
{
    let before: u8 = *word;
    *word = before & !bits;
    (before & bits) != 0
}

/// Another handle to the value that `handle` shares.
///
/// Calls `Arc::clone`, which makes a new pointer to the same allocation: the
/// value that the result points to is the value that `handle` points to.
#[verifier::external_body]
pub(crate) fn share<T>(handle: &Arc<T>) -> (other: Arc<T>)
    ensures
        other == *handle,
{
    Arc::clone(handle)
}

/// How a task slot treats the task that it already holds when a new one is
/// to be started.
#[derive(Clone, Copy, Debug, PartialEq, Eq, Structural)]
pub enum TaskStartMode {
    /// Do not start the new task while the held one is still running.
    Soft,
    /// Start the new task and forget the held one, which keeps running.
    Override,
    /// Cancel the held task, then start the new one.
    Abort,
}

/// Whether a slot starts a new task: always, except in `Soft` mode while it
/// holds a task that has not finished.
pub open spec fn starts(mode: TaskStartMode, occupied: bool, finished: bool) -> bool {
    !(mode is Soft && occupied && !finished)
}

/// Decides whether a slot in `mode` starts a new task, given whether it holds
/// one (`occupied`) and what that one reported (`finished`).
pub fn should_start(mode: TaskStartMode, occupied: bool, finished: bool) -> (start: bool)
    ensures
        start == starts(mode, occupied, finished),
{
    match mode {
        TaskStartMode::Soft => !occupied || finished,
        TaskStartMode::Override => true,
        TaskStartMode::Abort => true,
    }
}

/// Holds at most one background task of one role, together with the
/// description of the job that it was spawned for.
pub struct TaskSlot<R: Runtime> {
    runtime: R,
    task: Option<(Job, R::Task)>,
}

impl<R: Runtime> TaskSlot<R> {
    /// The job of the task that the slot holds, if it holds one.
    pub closed spec fn held(&self) -> Option<Job> {
        match self.task {
            Some(pair) => Some(pair.0),
            None => None,
        }
    }

    /// The executor that the slot spawns on.
    pub closed spec fn runtime(&self) -> R {
        self.runtime
    }

    /// An empty slot that spawns on `runtime`.
    pub fn new(runtime: R) -> (slot: Self)
        ensures
            slot.held() is None,
            slot.runtime() == runtime,
    {
        TaskSlot { runtime, task: None }
    }

    /// Starts `job` in this slot unless `mode` forbids it, and returns
    /// whether it was started.
    ///
    /// In `Soft` mode nothing happens while the held task reports that it is
    /// still running. In `Abort` mode the held task is cancelled first. In
    /// `Override` mode the held task is forgotten. Whenever the job is
    /// started the slot holds it afterwards, and only it.
    pub fn insert(&mut self, mode: TaskStartMode, key: &R::Key, job: Job) -> (launched: bool)
        ensures
            final(self).runtime() == old(self).runtime(),
            launched ==> final(self).held() == Some(job),
            !launched ==> mode is Soft && old(self).held() is Some && *final(self) == *old(self),
            mode !is Soft || old(self).held() is None ==> launched,
    {
        let finished = self.is_finished();
        self.insert_given(mode, finished, key, job)
    }

    /// As [`TaskSlot::insert`], for a caller that has asked the held task
    /// already: `finished` is what it reported, and is not looked at where
    /// the slot is empty.
    pub fn insert_given(&mut self, mode: TaskStartMode, finished: bool, key: &R::Key, job: Job) -> (launched:
        bool)
        ensures
            final(self).runtime() == old(self).runtime(),
            launched == starts(mode, old(self).held() is Some, finished),
            launched ==> final(self).held() == Some(job),
            !launched ==> *final(self) == *old(self),
    {
        if !should_start(mode, self.task.is_some(), finished) {
            return false;
        }
        match mode {
            TaskStartMode::Abort => {
                if let Some(pair) = self.task.take() {
                    pair.1.abort();
                }
            },
            _ => {},
        }
        let handle = self.runtime.spawn(key, job);
        self.task = Some((job, handle));
        true
    }

    /// Whether no task is running in this slot: it is empty, or the task it
    /// holds reports that it has finished.
    pub fn is_finished(&self) -> (finished: bool)
        ensures
            self.held() is None ==> finished,
            self.reports(finished),
    {
        match &self.task {
            Some(pair) => pair.1.is_finished(),
            None => true,
        }
    }

    /// Whether `finished` is what the slot says when it is asked whether no
    /// task is running in it: `true` for an empty slot, and for an occupied
    /// one an answer of the held task to `is_finished`.
    pub closed spec fn reports(&self, finished: bool) -> bool {
        match self.task {
            Some(pair) => call_ensures(<R::Task as Task>::is_finished, (&pair.1,), finished),
            None => finished,
        }
    }

    /// Cancels the held task, if there is one, and empties the slot.
    pub fn abort(&mut self)
        ensures
            final(self).held() is None,
            final(self).runtime() == old(self).runtime(),
    {
        if let Some(pair) = self.task.take() {
            pair.1.abort();
        }
    }

    /// The job of the task that the slot holds, if it holds one.
    pub fn job(&self) -> (job: Option<Job>)
        ensures
            job == self.held(),
    {
        match &self.task {
            Some(pair) => Some(pair.0),
            None => None,
        }
    }
}

/// Whether enough time has passed for another request: `throttle_time` has
/// passed since `prev_time` when the clock reads `now`, or either of the two
/// is absent.
pub open spec fn throttle_open(
    prev_time: Option<Instant>,
    throttle_time: Option<Duration>,
    now: Instant,
) -> bool {
    match (prev_time, throttle_time) {
        (Some(prev), Some(limit)) => elapsed_nanos(prev.nanos(), now.nanos()) >= limit.nanos(),
        _ => true,
    }
}

/// Returns `true` if the time that passed from `prev_time` to `now` is at
/// least `throttle_time`, or if there is no previous time or no limit.
pub fn throttle(prev_time: Option<Instant>, throttle_time: Option<Duration>, now: Instant) -> (open:
    bool)
    ensures
        open == throttle_open(prev_time, throttle_time, now),
{
    match (prev_time, throttle_time) {
        (Some(prev), Some(limit)) => prev.elapsed(now).as_nanos() >= limit.as_nanos(),
        _ => true,
    }
}

} // verus!
