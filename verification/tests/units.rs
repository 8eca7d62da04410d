use std::sync::Arc;

use swr::cache::entry::CacheEntryStatus;
use swr::options::{
    duration_as_optional_millis, merge_min, merge_min_count, Options, RevalidateFlags, StoredOptions,
};
use swr::revalidate::RevalidateIntent;
use swr::time::{Duration, Instant};
use swr::util::{bits_clear, bits_get, bits_set, throttle};

#[test]
fn status_word_set_get_clear() {
    let mut status = CacheEntryStatus::new();
    assert_eq!(status.load(), 0);
    assert!(!status.set(CacheEntryStatus::HAS_DATA | CacheEntryStatus::ALIVE));
    assert_eq!(status.load(), 0b01_0001);
    assert!(status.get(CacheEntryStatus::HAS_DATA));
    assert!(!status.get(CacheEntryStatus::LOADING));
    assert!(status.set(CacheEntryStatus::ALIVE | CacheEntryStatus::LOADING));
    assert_eq!(status.load(), 0b01_0101);
    assert!(status.clear(CacheEntryStatus::LOADING | CacheEntryStatus::VALIDATING));
    assert!(!status.clear(CacheEntryStatus::LOADING));
    assert_eq!(status.load(), 0b01_0001);
}

#[test]
fn status_flags_are_distinct_bits() {
    let flags = [
        CacheEntryStatus::HAS_DATA,
        CacheEntryStatus::HAS_ERROR,
        CacheEntryStatus::LOADING,
        CacheEntryStatus::VALIDATING,
        CacheEntryStatus::ALIVE,
        CacheEntryStatus::USED_THIS_PASS,
    ];
    let mut seen: u8 = 0;
    for flag in flags {
        assert_eq!(flag.count_ones(), 1);
        assert_eq!(seen & flag, 0);
        seen |= flag;
    }
    assert_eq!(seen, 0b11_1111);
}

#[test]
fn raw_bit_helpers() {
    let mut word: u8 = 0b1000;
    assert!(!bits_set(&mut word, 0b0011));
    assert_eq!(word, 0b1011);
    assert!(bits_get(word, 0b0010));
    assert!(bits_clear(&mut word, 0b1010));
    assert_eq!(word, 0b0001);
    assert!(!bits_get(word, 0b1110));
}

#[test]
fn intent_add_and_take() {
    let mut intent = RevalidateIntent::new();
    assert!(!intent.add(RevalidateIntent::STALE));
    assert!(intent.add(RevalidateIntent::STALE | RevalidateIntent::MUTATE));
    assert_eq!(intent.peek(), 0b110_0000);
    assert_eq!(intent.take(), 0b110_0000);
    assert_eq!(intent.take(), 0);
}

#[test]
fn intent_described_in_words() {
    assert_eq!(RevalidateIntent::describe(0), "");
    assert_eq!(RevalidateIntent::describe(RevalidateIntent::STALE), "stale data");
    assert_eq!(
        RevalidateIntent::describe(RevalidateIntent::MANUALLY_TRIGGERED | RevalidateIntent::FIRST_USAGE),
        "manual trigger, first usage of key"
    );
    assert_eq!(
        RevalidateIntent::describe(0xff),
        "manual trigger, application focus, previous fetch failure (error_retry_interval), \
         first usage of key, automatic refresh (refresh_interval), stale data, mutation"
    );
}

#[test]
fn durations_stored_as_milliseconds() {
    assert_eq!(duration_as_optional_millis(&None), None);
    assert_eq!(duration_as_optional_millis(&Some(Duration::from_secs(5))), Some(5_000));
    assert_eq!(duration_as_optional_millis(&Some(Duration::from_nanos(1_999_999))), Some(1));
    // Less than a millisecond is no duration at all.
    assert_eq!(duration_as_optional_millis(&Some(Duration::from_nanos(999_999))), None);
    // The count wraps at 2^32 milliseconds.
    assert_eq!(duration_as_optional_millis(&Some(Duration::from_millis(0x1_0000_0000))), None);
    assert_eq!(duration_as_optional_millis(&Some(Duration::from_millis(0x1_0000_0007))), Some(7));
}

#[test]
fn merge_takes_the_minimum_and_set_wins_over_unset() {
    assert_eq!(merge_min(Some(5), Some(3)), Some(3));
    assert_eq!(merge_min(Some(3), Some(5)), Some(3));
    assert_eq!(merge_min(Some(3), None), Some(3));
    assert_eq!(merge_min(None, Some(5)), Some(5));
    assert_eq!(merge_min(None, None), None);
    assert_eq!(merge_min_count(Some(2), Some(9)), Some(2));
    assert_eq!(merge_min_count(None, Some(9)), Some(9));
    assert_eq!(merge_min_count(None, None), None);
}

#[test]
fn default_options() {
    let options: Options<u8> = Options::default();
    assert!(options.fallback.is_none());
    assert!(options.fetch_on_first_use);
    assert_eq!(options.garbage_collect_timeout, Some(Duration::from_secs(600)));
    assert!(options.revalidate_on_focus);
    assert_eq!(options.focus_throttle_interval, Some(Duration::from_secs(5)));
    assert_eq!(options.refresh_interval, None);
    assert!(!options.refresh_when_unfocused);
    assert_eq!(options.error_retry_interval, Some(Duration::from_secs(5)));
    assert_eq!(options.error_retry_count, Some(5));
    assert_eq!(options.throttle, Some(Duration::from_secs(2)));
}

#[test]
fn immutable_options_disable_focus_and_collection() {
    let options: Options<u8> = Options::immutable();
    assert!(!options.revalidate_on_focus);
    assert_eq!(options.garbage_collect_timeout, None);
    assert!(options.fetch_on_first_use);
    assert_eq!(options.throttle, Some(Duration::from_secs(2)));
}

#[test]
fn stored_options_start_from_the_defaults() {
    let stored = StoredOptions::default();
    assert!(stored.revalidate_flags.get(RevalidateFlags::ON_FIRST_USE));
    assert!(stored.revalidate_flags.get(RevalidateFlags::ON_FOCUS));
    assert!(!stored.revalidate_flags.get(RevalidateFlags::WHEN_UNFOCUSED));
    assert_eq!(stored.error_retry_count, Some(5));
    assert_eq!(stored.garbage_collect_timeout(), Some(Duration::from_secs(600)));
    assert_eq!(stored.focus_throttle_interval(), Some(Duration::from_secs(5)));
    assert_eq!(stored.refresh_interval(), None);
    assert_eq!(stored.error_retry_interval(), Some(Duration::from_secs(5)));
    assert_eq!(stored.throttle(), Some(Duration::from_secs(2)));
}

#[test]
fn stored_options_merge_two_call_sites() {
    let mut stored = StoredOptions::default();

    let mut a: Options<u8> = Options::immutable();
    a.fallback = Some(Arc::new(1));
    a.refresh_interval = Some(Duration::from_secs(5));
    a.revalidate_on_focus = false;
    stored.update_from(&a);

    let mut b: Options<u8> = Options::immutable();
    b.refresh_interval = Some(Duration::from_secs(60));
    b.refresh_when_unfocused = true;
    b.error_retry_count = None;
    b.throttle = Some(Duration::from_millis(500));
    stored.update_from(&b);

    assert_eq!(stored.refresh_interval(), Some(Duration::from_secs(5)));
    assert!(stored.revalidate_flags.get(RevalidateFlags::ON_FOCUS));
    assert!(stored.revalidate_flags.get(RevalidateFlags::WHEN_UNFOCUSED));
    assert_eq!(stored.error_retry_count, Some(5));
    assert_eq!(stored.throttle(), Some(Duration::from_millis(500)));
    assert_eq!(stored.garbage_collect_timeout(), Some(Duration::from_secs(600)));
}

#[test]
fn revalidate_flags_set_and_get() {
    let mut flags = RevalidateFlags(0);
    assert!(!flags.get(RevalidateFlags::ON_FOCUS));
    flags.set(RevalidateFlags::ON_FOCUS);
    flags.set(RevalidateFlags::WHEN_UNFOCUSED);
    assert!(flags.get(RevalidateFlags::ON_FOCUS));
    assert!(!flags.get(RevalidateFlags::ON_FIRST_USE));
    assert_eq!(flags.0, 0b110);
}

#[test]
fn throttle_opens_once_the_time_has_passed() {
    let at = |secs: u64| Instant::from_nanos(Duration::from_secs(secs).as_nanos());
    let two = Some(Duration::from_secs(2));
    assert!(throttle(None, two, at(0)));
    assert!(throttle(Some(at(10)), None, at(10)));
    assert!(!throttle(Some(at(10)), two, at(11)));
    assert!(throttle(Some(at(10)), two, at(12)));
    assert!(throttle(Some(at(10)), two, at(13)));
    // A clock that reads earlier than the previous time has not moved on.
    assert!(!throttle(Some(at(10)), two, at(5)));
}

#[test]
fn elapsed_time_saturates_at_zero() {
    let early = Instant::from_nanos(5);
    let late = Instant::from_nanos(12);
    assert_eq!(early.elapsed(late), Duration::from_nanos(7));
    assert_eq!(late.elapsed(early), Duration::from_nanos(0));
    assert_eq!(late.saturating_duration_since(early).as_nanos(), 7);
    assert_eq!(Duration::from_nanos(2_500_000).as_millis(), 2);
}

#[test]
fn duration_from_secs_counts_nanoseconds() {
    assert_eq!(Duration::from_secs(5).as_nanos(), 5_000_000_000);
    assert_eq!(Duration::from_millis(1500).as_millis(), 1500);
    assert_eq!(Duration::from_secs(u64::MAX).as_nanos(), 18_446_744_073_709_551_615_000_000_000);
    assert_eq!(Instant::from_nanos(17).as_nanos(), 17);
}
