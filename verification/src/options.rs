//! Per-call options and the options that an entry keeps, merged over all the
//! call sites that share its key.

use std::sync::Arc;
use vstd::prelude::*;
use crate::time::Duration;
use crate::util::{any_set, bits_get, bits_set};

verus! {

/// Options of one request for a key.
///
/// # Merging behavior
/// When a key is requested with several sets of options, the entry keeps
/// their merge: boolean options are OR-ed, and of each duration and of the
/// retry count the minimum is kept, where an absent value puts no constraint.
/// `fallback` is not merged; it belongs to the request that names it.
#[derive(Debug)]
pub struct Options<T> {
    /// Data to return while the entry holds none.
    pub fallback: Option<Arc<T>>,
    /// Whether to fetch when the key is used for the first time.
    pub fetch_on_first_use: bool,
    /// How long after its last use an entry may be evicted.
    pub garbage_collect_timeout: Option<Duration>,
    /// Whether to revalidate when the application gains focus.
    pub revalidate_on_focus: bool,
    /// The least time between two revalidations caused by focus.
    pub focus_throttle_interval: Option<Duration>,
    /// The interval at which to refresh the data.
    pub refresh_interval: Option<Duration>,
    /// Whether interval refreshes go on while the application is unfocused.
    pub refresh_when_unfocused: bool,
    /// How long to wait before a failed fetch is retried.
    pub error_retry_interval: Option<Duration>,
    /// How many failures in a row are retried.
    pub error_retry_count: Option<u8>,
    /// The least time between two requests of any kind.
    pub throttle: Option<Duration>,
}

impl<T> Default for Options<T> {
    fn default() -> (options: Self)
        ensures
            options.fallback is None,
            options.fetch_on_first_use,
            options.garbage_collect_timeout matches Some(d) && d.nanos() == 600_000_000_000,
            options.revalidate_on_focus,
            options.focus_throttle_interval matches Some(d) && d.nanos() == 5_000_000_000,
            options.refresh_interval is None,
            !options.refresh_when_unfocused,
            options.error_retry_interval matches Some(d) && d.nanos() == 5_000_000_000,
            options.error_retry_count == Some(5u8),
            options.throttle matches Some(d) && d.nanos() == 2_000_000_000,
    {
        Options {
            fallback: None,
            fetch_on_first_use: true,
            garbage_collect_timeout: Some(Duration::from_secs(600)),
            revalidate_on_focus: true,
            focus_throttle_interval: Some(Duration::from_secs(5)),
            refresh_interval: None,
            refresh_when_unfocused: false,
            error_retry_interval: Some(Duration::from_secs(5)),
            error_retry_count: Some(5),
            throttle: Some(Duration::from_secs(2)),
        }
    }
}

impl<T> Options<T> {
    /// Options for resources that are expected never to change while the
    /// application runs: the defaults, without revalidation on focus and
    /// without a garbage-collection timeout.
    #[must_use]
    pub fn immutable() -> (options: Self)
        ensures
            options.fallback is None,
            options.fetch_on_first_use,
            options.garbage_collect_timeout is None,
            !options.revalidate_on_focus,
            options.focus_throttle_interval matches Some(d) && d.nanos() == 5_000_000_000,
            options.refresh_interval is None,
            !options.refresh_when_unfocused,
            options.error_retry_interval matches Some(d) && d.nanos() == 5_000_000_000,
            options.error_retry_count == Some(5u8),
            options.throttle matches Some(d) && d.nanos() == 2_000_000_000,
    {
        Options {
            fallback: None,
            fetch_on_first_use: true,
            garbage_collect_timeout: None,
            revalidate_on_focus: false,
            focus_throttle_interval: Some(Duration::from_secs(5)),
            refresh_interval: None,
            refresh_when_unfocused: false,
            error_retry_interval: Some(Duration::from_secs(5)),
            error_retry_count: Some(5),
            throttle: Some(Duration::from_secs(2)),
        }
    }
}

/// The merged boolean options of an entry, one bit each.
#[derive(Debug)]
pub struct RevalidateFlags(pub u8);

impl RevalidateFlags {
    /// Fetch when the key is first used.
    pub const ON_FIRST_USE: u8 = 0b001;

    /// Revalidate when the application gains focus.
    pub const ON_FOCUS: u8 = 0b010;

    /// Keep refreshing while the application is unfocused.
    pub const WHEN_UNFOCUSED: u8 = 0b100;

    /// Whether any of `bits` is set.
    pub open spec fn has(&self, bits: u8) -> bool {
        any_set(self.0, bits)
    }

    /// Whether any of `bits` is set.
    pub fn get(&self, bits: u8) -> (set: bool)
        ensures
            set == self.has(bits),
    {
        bits_get(self.0, bits)
    }

    /// Sets `bits`.
    pub fn set(&mut self, bits: u8)
        ensures
            final(self).0 == old(self).0 | bits,
    {
        let _ = bits_set(&mut self.0, bits);
    }
}

/// A duration as the entry stores it: in whole milliseconds, counted modulo
/// 2^32, where a count of zero is no duration at all.
pub open spec fn optional_millis(duration: Option<Duration>) -> Option<u32> {
    match duration {
        Some(d) => {
            let count = d.millis() % 0x1_0000_0000;
            if count == 0 {
                None
            } else {
                Some(count as u32)
            }
        },
        None => None,
    }
}

/// The smaller of two optional millisecond counts, where an absent one puts
/// no constraint.
pub open spec fn min_millis(a: Option<u32>, b: Option<u32>) -> Option<u32> {
    match (a, b) {
        (Some(x), Some(y)) => Some(if x <= y { x } else { y }),
        (Some(x), None) => Some(x),
        (None, Some(y)) => Some(y),
        (None, None) => None,
    }
}

/// The smaller of two optional retry counts, where an absent one puts no
/// constraint.
pub open spec fn min_count(a: Option<u8>, b: Option<u8>) -> Option<u8> {
    match (a, b) {
        (Some(x), Some(y)) => Some(if x <= y { x } else { y }),
        (Some(x), None) => Some(x),
        (None, Some(y)) => Some(y),
        (None, None) => None,
    }
}

/// Converts a duration to the stored form of [`optional_millis`].
pub fn duration_as_optional_millis(a: &Option<Duration>) -> (millis: Option<u32>)
    ensures
        millis == optional_millis(*a),
        millis != Some(0u32),
{
    match a {
        Some(d) => {
            let count: u128 = d.as_millis() % 0x1_0000_0000;
            if count == 0 {
                None
            } else {
                Some(count as u32)
            }
        },
        None => None,
    }
}

/// The smaller of two optional millisecond counts; an absent one puts no
/// constraint.
pub fn merge_min(a: Option<u32>, b: Option<u32>) -> (merged: Option<u32>)
    ensures
        merged == min_millis(a, b),
{
    match (a, b) {
        (Some(x), Some(y)) => Some(if x <= y { x } else { y }),
        (Some(x), None) => Some(x),
        (None, Some(y)) => Some(y),
        (None, None) => None,
    }
}

/// The smaller of two optional retry counts; an absent one puts no
/// constraint.
pub fn merge_min_count(a: Option<u8>, b: Option<u8>) -> (merged: Option<u8>)
    ensures
        merged == min_count(a, b),
{
    match (a, b) {
        (Some(x), Some(y)) => Some(if x <= y { x } else { y }),
        (Some(x), None) => Some(x),
        (None, Some(y)) => Some(y),
        (None, None) => None,
    }
}

/// A stored millisecond count as a duration.
pub open spec fn stored_duration(millis: Option<u32>) -> Option<Duration> {
    match millis {
        Some(ms) => Some(Duration { nanos: (ms as nat * 1_000_000) as u128 }),
        None => None,
    }
}

fn millis_as_duration(millis: Option<u32>) -> (duration: Option<Duration>)
    ensures
        duration == stored_duration(millis),
{
    match millis {
        Some(ms) => Some(Duration::from_millis(ms as u64)),
        None => None,
    }
}

/// The options that an entry keeps: the merge of the options of every
/// request for its key. Durations are kept in milliseconds.
#[derive(Debug)]
pub struct StoredOptions {
    /// The merged boolean options.
    pub revalidate_flags: RevalidateFlags,
    /// The smallest retry count asked for.
    pub error_retry_count: Option<u8>,
    /// The smallest garbage-collection timeout asked for.
    pub garbage_collect_timeout_ms: Option<u32>,
    /// The smallest focus throttle interval asked for.
    pub focus_throttle_interval_ms: Option<u32>,
    /// The smallest refresh interval asked for.
    pub refresh_interval_ms: Option<u32>,
    /// The smallest retry interval asked for.
    pub error_retry_interval_ms: Option<u32>,
    /// The smallest throttle asked for.
    pub throttle_ms: Option<u32>,
}

/// The flag bits that a request's boolean options stand for.
pub open spec fn flags_of<T>(options: Options<T>) -> u8 {
    (if options.fetch_on_first_use {
        RevalidateFlags::ON_FIRST_USE
    } else {
        0u8
    }) | (if options.revalidate_on_focus {
        RevalidateFlags::ON_FOCUS
    } else {
        0u8
    }) | (if options.refresh_when_unfocused {
        RevalidateFlags::WHEN_UNFOCUSED
    } else {
        0u8
    })
}

impl StoredOptions {
    /// The invariant of stored options: a stored duration is never zero.
    pub open spec fn wf(&self) -> bool {
        &&& self.garbage_collect_timeout_ms != Some(0u32)
        &&& self.focus_throttle_interval_ms != Some(0u32)
        &&& self.refresh_interval_ms != Some(0u32)
        &&& self.error_retry_interval_ms != Some(0u32)
        &&& self.throttle_ms != Some(0u32)
    }

    /// Options that put no constraint and allow nothing.
    pub open spec fn unconstrained() -> StoredOptions {
        StoredOptions {
            revalidate_flags: RevalidateFlags(0),
            error_retry_count: None,
            garbage_collect_timeout_ms: None,
            focus_throttle_interval_ms: None,
            refresh_interval_ms: None,
            error_retry_interval_ms: None,
            throttle_ms: None,
        }
    }

    /// The options of a fresh entry: what the defaults of [`Options`] leave
    /// when merged into unconstrained options.
    pub open spec fn initial() -> StoredOptions {
        StoredOptions {
            revalidate_flags: RevalidateFlags(3),
            error_retry_count: Some(5u8),
            garbage_collect_timeout_ms: Some(600_000u32),
            focus_throttle_interval_ms: Some(5_000u32),
            refresh_interval_ms: None,
            error_retry_interval_ms: Some(5_000u32),
            throttle_ms: Some(2_000u32),
        }
    }

    /// The merge of `self` with the options of one more request.
    pub open spec fn merged<T>(self, options: Options<T>) -> StoredOptions {
        StoredOptions {
            revalidate_flags: RevalidateFlags(self.revalidate_flags.0 | flags_of(options)),
            error_retry_count: min_count(self.error_retry_count, options.error_retry_count),
            garbage_collect_timeout_ms: min_millis(
                self.garbage_collect_timeout_ms,
                optional_millis(options.garbage_collect_timeout),
            ),
            focus_throttle_interval_ms: min_millis(
                self.focus_throttle_interval_ms,
                optional_millis(options.focus_throttle_interval),
            ),
            refresh_interval_ms: min_millis(
                self.refresh_interval_ms,
                optional_millis(options.refresh_interval),
            ),
            error_retry_interval_ms: min_millis(
                self.error_retry_interval_ms,
                optional_millis(options.error_retry_interval),
            ),
            throttle_ms: min_millis(self.throttle_ms, optional_millis(options.throttle)),
        }
    }

    /// The merged garbage-collection timeout.
    pub fn garbage_collect_timeout(&self) -> (duration: Option<Duration>)
        ensures
            duration == stored_duration(self.garbage_collect_timeout_ms),
    {
        millis_as_duration(self.garbage_collect_timeout_ms)
    }

    /// The merged focus throttle interval.
    pub fn focus_throttle_interval(&self) -> (duration: Option<Duration>)
        ensures
            duration == stored_duration(self.focus_throttle_interval_ms),
    {
        millis_as_duration(self.focus_throttle_interval_ms)
    }

    /// The merged refresh interval.
    pub fn refresh_interval(&self) -> (duration: Option<Duration>)
        ensures
            duration == stored_duration(self.refresh_interval_ms),
    {
        millis_as_duration(self.refresh_interval_ms)
    }

    /// The merged retry interval.
    pub fn error_retry_interval(&self) -> (duration: Option<Duration>)
        ensures
            duration == stored_duration(self.error_retry_interval_ms),
    {
        millis_as_duration(self.error_retry_interval_ms)
    }

    /// The merged throttle.
    pub fn throttle(&self) -> (duration: Option<Duration>)
        ensures
            duration == stored_duration(self.throttle_ms),
    {
        millis_as_duration(self.throttle_ms)
    }

    /// Merges the options of one more request into `self`.
    pub fn update_from<T>(&mut self, options: &Options<T>)
        ensures
            *final(self) == old(self).merged(*options),
            old(self).wf() ==> final(self).wf(),
    {
        let ghost before = *self;
        if options.fetch_on_first_use {
            self.revalidate_flags.set(RevalidateFlags::ON_FIRST_USE);
        }
        self.garbage_collect_timeout_ms = merge_min(
            self.garbage_collect_timeout_ms,
            duration_as_optional_millis(&options.garbage_collect_timeout),
        );
        if options.revalidate_on_focus {
            self.revalidate_flags.set(RevalidateFlags::ON_FOCUS);
        }
        self.focus_throttle_interval_ms = merge_min(
            self.focus_throttle_interval_ms,
            duration_as_optional_millis(&options.focus_throttle_interval),
        );
        self.refresh_interval_ms = merge_min(
            self.refresh_interval_ms,
            duration_as_optional_millis(&options.refresh_interval),
        );
        if options.refresh_when_unfocused {
            self.revalidate_flags.set(RevalidateFlags::WHEN_UNFOCUSED);
        }
        self.error_retry_interval_ms = merge_min(
            self.error_retry_interval_ms,
            duration_as_optional_millis(&options.error_retry_interval),
        );
        self.error_retry_count = merge_min_count(self.error_retry_count, options.error_retry_count);
        self.throttle_ms = merge_min(
            self.throttle_ms,
            duration_as_optional_millis(&options.throttle),
        );
        proof {
            lemma_flags_merge(
                before.revalidate_flags.0,
                options.fetch_on_first_use,
                options.revalidate_on_focus,
                options.refresh_when_unfocused,
            );
        }
    }
}

proof fn lemma_flags_merge(word: u8, first: bool, focus: bool, unfocused: bool)
    by (bit_vector)
    ensures
        ({
            let a = if first { word | 1u8 } else { word };
            let b = if focus { a | 2u8 } else { a };
            let c = if unfocused { b | 4u8 } else { b };
            c
        }) == word | ((if first { 1u8 } else { 0u8 }) | (if focus { 2u8 } else { 0u8 }) | (if unfocused { 4u8 } else { 0u8 })),
{
}

impl Default for StoredOptions {
    /// The options of a fresh entry: the defaults of [`Options`].
    fn default() -> (stored: Self)
        ensures
            stored == StoredOptions::initial(),
    {
        let mut stored = StoredOptions {
            revalidate_flags: RevalidateFlags(0),
            error_retry_count: None,
            garbage_collect_timeout_ms: None,
            focus_throttle_interval_ms: None,
            refresh_interval_ms: None,
            error_retry_interval_ms: None,
            throttle_ms: None,
        };
        let defaults: Options<()> = Options::default();
        stored.update_from(&defaults);
        proof {
            assert(0u8 | (1u8 | 2u8 | 0u8) == 3u8) by (bit_vector);
        }
        stored
    }
}

/// Options of an asynchronous mutation.
#[derive(Debug)]
pub struct MutateOptions<T> {
    /// Data to show while the action runs. If present it replaces the
    /// entry's data at once; the action's result replaces it in turn.
    pub optimistic_data: Option<Arc<T>>,
    /// Whether the entry gets back the data it had before the optimistic
    /// data, if the action fails.
    pub rollback_on_error: bool,
    /// Whether the key is revalidated once the action has succeeded.
    pub revalidate: bool,
}

impl<T> Default for MutateOptions<T> {
    fn default() -> (options: Self)
        ensures
            options.optimistic_data is None,
            options.rollback_on_error,
            !options.revalidate,
    {
        MutateOptions { optimistic_data: None, rollback_on_error: true, revalidate: false }
    }
}

} // verus!
