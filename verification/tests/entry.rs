use std::cell::RefCell;
use std::rc::Rc;
use std::sync::Arc;

use swr::cache::entry::{CacheEntry, CacheEntryData, CacheEntryStatus};
use swr::cache::slot::{CacheSlot, MAX_SLOTS};
use swr::cache::Cache;
use swr::mutate::{apply_optimistic, settle_mutation};
use swr::options::Options;
use swr::result::{acquire, observe, observe_given, release, snapshot};
use swr::revalidate::{
    complete_fetch, launch_fetch, launch_fetch_given, launch_refresh, launch_retry, refresh_due,
    refresh_due_given, retry_due, retry_due_given, RevalidateIntent,
};
use swr::runtime::{Job, JobKind, Runtime, Task, TypeTag};
use swr::sweep::end_frame;
use swr::time::{Duration, Instant};
use swr::util::TaskStartMode;
use swr::Error;

struct Idle;

impl Task for Idle {
    fn abort(self) {}

    fn is_finished(&self) -> bool {
        false
    }
}

#[derive(Clone, Default)]
struct Recorder {
    jobs: Rc<RefCell<Vec<(u64, Job)>>>,
}

impl Runtime for Recorder {
    type Key = u64;
    type Task = Idle;

    fn spawn(&self, key: &u64, job: Job) -> Idle {
        self.jobs.borrow_mut().push((*key, job));
        Idle
    }
}

type Entry = CacheEntry<u32, String, Recorder>;

const NUMBER: TypeTag = TypeTag { id: 7, name: "u32" };
const TEXT: TypeTag = TypeTag { id: 9, name: "String" };

fn at(secs: u64) -> Instant {
    Instant::from_nanos(Duration::from_secs(secs).as_nanos())
}

fn fresh() -> (Entry, CacheSlot, Recorder) {
    let recorder = Recorder::default();
    let mut cache: Cache<u32, String, Recorder> = Cache::new(recorder.clone());
    let slot = cache.get_or_create(&11, at(0));
    (CacheEntry::new(recorder.clone(), 11, at(0)), slot, recorder)
}

fn flags(entry: &Entry) -> u8 {
    entry.status().load()
}

#[test]
fn a_fresh_entry_holds_nothing() {
    let (entry, _, recorder) = fresh();
    assert_eq!(*entry.key(), 11);
    assert_eq!(flags(&entry), 0);
    assert_eq!(entry.revalidate_intent().peek(), 0);
    assert_eq!(entry.retry_count, 0);
    assert_eq!(entry.strong_count, 0);
    assert!(entry.data(&NUMBER).is_none());
    assert!(entry.error().is_none());
    assert_eq!(entry.last_draw_time(), at(0));
    assert_eq!(entry.last_request_time(), None);
    assert!(entry.fetch_task.is_finished());
    assert!(entry.refresh_task.job().is_none());
    assert!(entry.retry_task.job().is_none());
    assert_eq!(entry.options.throttle(), Some(Duration::from_secs(2)));
    assert!(recorder.jobs.borrow().is_empty());
}

#[test]
fn insert_replaces_data_and_clears_the_error() {
    let (mut entry, slot, _) = fresh();
    assert!(launch_fetch(&mut entry, slot, TaskStartMode::Soft, RevalidateIntent::FIRST_USAGE, NUMBER));
    assert_eq!(flags(&entry), CacheEntryStatus::LOADING);
    entry.insert_error(Arc::new(String::from("down")), at(1));
    assert_eq!(flags(&entry), CacheEntryStatus::HAS_ERROR);
    entry.retry_count = 3;

    assert!(entry.insert(Arc::new(1), NUMBER, at(2)).is_none());
    assert_eq!(flags(&entry), CacheEntryStatus::HAS_DATA);
    assert!(entry.error().is_none());
    assert_eq!(entry.retry_count, 0);
    assert_eq!(entry.last_request_time(), Some(at(2)));

    let replaced = entry.insert(Arc::new(2), NUMBER, at(3)).unwrap();
    assert_eq!(*replaced.value, 1);
    assert_eq!(replaced.tag.id, 7);
    assert_eq!(entry.data(&NUMBER).unwrap().unwrap(), Arc::new(2));
}

#[test]
fn insert_untyped_keeps_the_tag_it_is_given() {
    let (mut entry, _, _) = fresh();
    let replaced = entry.insert_untyped(CacheEntryData { value: Arc::new(5), tag: TEXT }, at(1));
    assert!(replaced.is_none());
    let mismatch = entry.data(&NUMBER).unwrap().unwrap_err();
    assert_eq!(mismatch.contained_type, 9);
    assert_eq!(mismatch.wanted_type, 7);
    assert_eq!(mismatch.contained_name, "String");
    assert_eq!(mismatch.wanted_name, "u32");
    assert_eq!(entry.data(&TEXT).unwrap().unwrap(), Arc::new(5));
}

#[test]
fn insert_error_keeps_the_data() {
    let (mut entry, slot, _) = fresh();
    let _ = entry.insert(Arc::new(1), NUMBER, at(1));
    assert!(launch_fetch(&mut entry, slot, TaskStartMode::Soft, RevalidateIntent::STALE, NUMBER));
    assert_eq!(flags(&entry), CacheEntryStatus::HAS_DATA | CacheEntryStatus::VALIDATING);
    entry.insert_error(Arc::new(String::from("down")), at(4));
    assert_eq!(flags(&entry), CacheEntryStatus::HAS_DATA | CacheEntryStatus::HAS_ERROR);
    assert_eq!(entry.data(&NUMBER).unwrap().unwrap(), Arc::new(1));
    assert_eq!(**entry.error().unwrap(), "down");
    assert_eq!(entry.last_request_time(), Some(at(4)));
}

#[test]
fn mark_used_sets_the_flag_and_the_time() {
    let (mut entry, _, _) = fresh();
    entry.mark_used(at(9));
    assert_eq!(flags(&entry), CacheEntryStatus::USED_THIS_PASS);
    assert_eq!(entry.last_draw_time(), at(9));
}

#[test]
fn snapshot_shows_the_stored_error_before_a_mismatch() {
    let (mut entry, slot, _) = fresh();
    let _ = entry.insert(Arc::new(1), TEXT, at(1));
    let fallback = Arc::new(0);
    let shown = snapshot(&entry, slot, &NUMBER, Some(&fallback));
    assert_eq!(shown.data, Some(Arc::new(0)));
    assert!(matches!(shown.error, Some(Error::MismatchedType(_))));

    entry.insert_error(Arc::new(String::from("down")), at(2));
    let shown = snapshot(&entry, slot, &NUMBER, None);
    assert_eq!(shown.data, None);
    match shown.error {
        Some(Error::Fetcher(error)) => assert_eq!(*error, "down"),
        _ => panic!("expected the fetcher's error"),
    }
    assert!(!shown.loading && !shown.validating);
    assert_eq!(shown.slot, slot);
    assert_eq!(flags(&entry), CacheEntryStatus::HAS_DATA | CacheEntryStatus::HAS_ERROR);
}

#[test]
fn soft_launch_gives_way_and_abort_launch_does_not() {
    let (mut entry, slot, recorder) = fresh();
    assert!(launch_fetch(&mut entry, slot, TaskStartMode::Soft, 1, NUMBER));
    assert!(!launch_fetch(&mut entry, slot, TaskStartMode::Soft, 2, NUMBER));
    assert!(launch_fetch(&mut entry, slot, TaskStartMode::Abort, 4, NUMBER));
    assert!(!launch_fetch_given(&mut entry, slot, TaskStartMode::Soft, false, 8, NUMBER));
    assert!(launch_fetch_given(&mut entry, slot, TaskStartMode::Soft, true, 16, NUMBER));
    let intents: Vec<u8> = recorder
        .jobs
        .borrow()
        .iter()
        .map(|(key, job)| {
            assert_eq!(*key, 11);
            assert_eq!(job.slot, slot);
            match job.kind {
                JobKind::Fetch { intent } => intent,
                _ => panic!("expected a fetch"),
            }
        })
        .collect();
    assert_eq!(intents, vec![1, 4, 16]);
    assert_eq!(flags(&entry), CacheEntryStatus::LOADING);
}

#[test]
fn timers_are_launched_with_their_interval() {
    let (mut entry, slot, recorder) = fresh();
    launch_refresh(&mut entry, slot, Duration::from_secs(5), NUMBER);
    launch_retry(&mut entry, slot, Duration::from_secs(3), NUMBER);
    assert_eq!(entry.refresh_task.job().unwrap().kind, JobKind::Refresh { interval: Duration::from_secs(5) });
    assert_eq!(entry.retry_task.job().unwrap().kind, JobKind::Retry { interval: Duration::from_secs(3) });
    assert!(entry.fetch_task.job().is_none());
    assert_eq!(recorder.jobs.borrow().len(), 2);
    assert_eq!(flags(&entry), 0);
}

#[test]
fn a_successful_fetch_starts_the_refresh_timer() {
    let (mut entry, slot, _) = fresh();
    let mut options: Options<u32> = Options::immutable();
    options.refresh_interval = Some(Duration::from_millis(1500));
    acquire(&mut entry, Some(&options));
    assert_eq!(entry.strong_count, 1);
    entry.retry_count = 2;
    let _ = launch_fetch(&mut entry, slot, TaskStartMode::Soft, 8, NUMBER);

    complete_fetch(&mut entry, slot, NUMBER, Ok(Arc::new(42)), at(1));
    assert_eq!(flags(&entry), CacheEntryStatus::HAS_DATA);
    assert_eq!(entry.retry_count, 0);
    assert_eq!(entry.data(&NUMBER).unwrap().unwrap(), Arc::new(42));
    assert_eq!(
        entry.refresh_task.job().unwrap().kind,
        JobKind::Refresh { interval: Duration::from_millis(1500) }
    );
    assert!(entry.retry_task.job().is_none());
    release(&mut entry);
    assert_eq!(entry.strong_count, 0);
}

#[test]
fn a_failed_fetch_counts_and_starts_the_retry_timer_within_the_budget() {
    let (mut entry, slot, _) = fresh();
    let mut options: Options<u32> = Options::immutable();
    options.error_retry_count = Some(2);
    acquire(&mut entry, Some(&options));

    complete_fetch(&mut entry, slot, NUMBER, Err(Arc::new(String::from("a"))), at(1));
    assert_eq!(entry.retry_count, 1);
    assert_eq!(entry.retry_task.job().unwrap().kind, JobKind::Retry { interval: Duration::from_secs(5) });
    entry.retry_task.abort();

    complete_fetch(&mut entry, slot, NUMBER, Err(Arc::new(String::from("b"))), at(2));
    assert_eq!(entry.retry_count, 2);
    assert!(entry.retry_task.job().is_some());
    entry.retry_task.abort();

    complete_fetch(&mut entry, slot, NUMBER, Err(Arc::new(String::from("c"))), at(3));
    assert_eq!(entry.retry_count, 3);
    assert!(entry.retry_task.job().is_none());
    assert_eq!(**entry.error().unwrap(), "c");
    assert!(entry.refresh_task.job().is_none());
}

#[test]
fn the_retry_count_wraps() {
    let (mut entry, slot, _) = fresh();
    entry.retry_count = 255;
    complete_fetch(&mut entry, slot, NUMBER, Err(Arc::new(String::from("a"))), at(1));
    assert_eq!(entry.retry_count, 0);
    assert!(entry.retry_task.job().is_none());
}

#[test]
fn a_refresh_timer_fetches_only_when_focused_alive_and_past_the_throttle() {
    let (mut entry, slot, _) = fresh();
    let mut options: Options<u32> = Options::immutable();
    options.refresh_interval = Some(Duration::from_secs(5));
    acquire(&mut entry, Some(&options));
    let _ = entry.insert(Arc::new(1), NUMBER, at(10));

    // Not alive: the timer is started again.
    assert!(!refresh_due(&mut entry, slot, NUMBER, true, at(20)));
    assert!(entry.refresh_task.job().is_some());
    assert!(entry.fetch_task.job().is_none());

    entry.mark_used(at(20));
    assert!(end_frame(&mut entry, at(20)));
    assert!(entry.status().get(CacheEntryStatus::ALIVE));

    // Unfocused.
    assert!(!refresh_due_given(&mut entry, slot, NUMBER, false, at(20), true));
    // Within the throttle of two seconds since the last request.
    assert!(!refresh_due_given(&mut entry, slot, NUMBER, true, at(11), true));
    assert!(entry.fetch_task.job().is_none());

    assert!(refresh_due_given(&mut entry, slot, NUMBER, true, at(12), true));
    assert_eq!(
        entry.fetch_task.job().unwrap().kind,
        JobKind::Fetch { intent: RevalidateIntent::REFRESH_INTERVAL }
    );
    assert!(entry.status().get(CacheEntryStatus::VALIDATING));
}

#[test]
fn a_retry_timer_fetches_only_while_the_error_stands() {
    let (mut entry, slot, _) = fresh();
    entry.mark_used(at(0));
    assert!(end_frame(&mut entry, at(0)));
    assert!(!retry_due(&mut entry, slot, NUMBER, at(10)));

    entry.insert_error(Arc::new(String::from("a")), at(10));
    assert!(!retry_due_given(&mut entry, slot, NUMBER, at(11), true));
    assert!(entry.fetch_task.job().is_none());
    assert!(retry_due_given(&mut entry, slot, NUMBER, at(12), true));
    assert_eq!(
        entry.fetch_task.job().unwrap().kind,
        JobKind::Fetch { intent: RevalidateIntent::RETRY_ON_ERROR }
    );
    assert!(entry.status().get(CacheEntryStatus::LOADING));
    // A redraw is due even where the running fetch keeps the new one out.
    assert!(retry_due(&mut entry, slot, NUMBER, at(13)));
}

#[test]
fn observation_collects_the_reasons() {
    let (mut entry, slot, recorder) = fresh();
    let _ = entry.insert(Arc::new(1), NUMBER, at(0));
    let _ = entry.revalidate_intent.add(RevalidateIntent::MUTATE);

    let shown = observe(&mut entry, slot, &NUMBER, None, true, at(5));
    assert_eq!(shown.data, Some(Arc::new(1)));
    assert!(shown.validating && !shown.loading);
    let expected =
        RevalidateIntent::MUTATE | RevalidateIntent::APPLICATION_FOCUSED | RevalidateIntent::STALE;
    assert_eq!(recorder.jobs.borrow()[0].1.kind, JobKind::Fetch { intent: expected });
    assert_eq!(entry.revalidate_intent().peek(), 0);
    assert_eq!(entry.last_draw_time(), at(5));

    // Stuck in loading with no fetch running: fetched as on first usage.
    let (mut stuck, slot, recorder) = fresh();
    let mut options: Options<u32> = Options::immutable();
    options.fallback = Some(Arc::new(3));
    let _ = launch_fetch(&mut stuck, slot, TaskStartMode::Soft, 8, NUMBER);
    let shown = observe_given(&mut stuck, slot, &NUMBER, options.fallback.as_ref(), false, at(1), true);
    assert_eq!(shown.data, Some(Arc::new(3)));
    assert!(shown.loading);
    assert_eq!(
        recorder.jobs.borrow()[1].1.kind,
        JobKind::Fetch { intent: RevalidateIntent::FIRST_USAGE }
    );

    // With a fallback and a fetch that runs, the reason is stale data.
    let (mut backed, slot, recorder) = fresh();
    let shown = observe(&mut backed, slot, &NUMBER, options.fallback.as_ref(), false, at(1));
    assert!(shown.loading);
    assert_eq!(recorder.jobs.borrow()[0].1.kind, JobKind::Fetch { intent: RevalidateIntent::STALE });
}

#[test]
fn the_end_of_a_frame_turns_use_into_liveness() {
    let (mut entry, _, _) = fresh();
    let mut options: Options<u32> = Options::immutable();
    options.garbage_collect_timeout = Some(Duration::from_secs(5));
    acquire(&mut entry, Some(&options));
    entry.mark_used(at(1));
    assert!(end_frame(&mut entry, at(1)));
    assert_eq!(flags(&entry), CacheEntryStatus::ALIVE);
    assert!(end_frame(&mut entry, at(100)));
    assert_eq!(flags(&entry), 0);
    // A handle refers to the entry.
    assert!(end_frame(&mut entry, at(100)));
    release(&mut entry);
    assert!(end_frame(&mut entry, at(5)));
    assert!(!end_frame(&mut entry, at(6)));
    assert!(entry.fetch_task.job().is_none());
}

#[test]
fn optimistic_data_and_rollback() {
    let (mut entry, _, _) = fresh();
    let _ = entry.insert(Arc::new(1), NUMBER, at(0));
    let previous = apply_optimistic(&mut entry, Some(Arc::new(2)), NUMBER, at(1));
    assert_eq!(*previous.as_ref().unwrap().value, 1);
    assert_eq!(entry.data(&NUMBER).unwrap().unwrap(), Arc::new(2));

    settle_mutation(&mut entry, None, NUMBER, false, false, None, at(2));
    assert_eq!(entry.data(&NUMBER).unwrap().unwrap(), Arc::new(2));

    settle_mutation(&mut entry, None, NUMBER, true, true, previous, at(3));
    assert_eq!(entry.data(&NUMBER).unwrap().unwrap(), Arc::new(1));
    assert_eq!(entry.last_request_time(), Some(at(3)));
    assert_eq!(entry.revalidate_intent().peek(), 0);

    assert!(apply_optimistic(&mut entry, None, NUMBER, at(4)).is_none());
    assert_eq!(entry.last_request_time(), Some(at(3)));
}

#[test]
fn the_cache_finds_entries_by_key_and_by_slot() {
    let recorder = Recorder::default();
    let mut cache: Cache<u32, String, Recorder> = Cache::new(recorder);
    assert_eq!(cache.len(), 0);
    assert!(cache.get(&1).is_none());
    let one = cache.get_or_create(&1, at(0));
    let two = cache.try_get_or_create(&2, at(1)).unwrap();
    assert_ne!(one, two);
    assert_eq!(cache.get_or_create(&1, at(5)), one);
    assert_eq!(cache.get(&2), Some(two));
    assert_eq!(cache.len(), 2);
    assert_eq!(*cache.entry(one).unwrap().key(), 1);
    assert_eq!(cache.entry(two).unwrap().last_draw_time(), at(1));
    let mut slots = cache.slots_in_use();
    slots.sort_by_key(|slot| slot.as_id());
    let mut expected = vec![one, two];
    expected.sort_by_key(|slot| slot.as_id());
    assert_eq!(slots, expected);
    assert!(cache.len() < MAX_SLOTS);
}
