//! The cache driven frame by frame with a hand-cranked clock and an executor
//! that runs the spawned jobs when the test says so.

use std::cell::{Cell, RefCell};
use std::rc::Rc;
use std::sync::Arc;

use swr::cache::entry::{CacheEntry, CacheEntryStatus};
use swr::options::{MutateOptions, Options};
use swr::result::{FetchResult, Persisted};
use swr::runtime::{Job, JobKind, Runtime, Task, TypeTag};
use swr::time::{Duration, Instant};
use swr::SWR;

#[derive(Debug, Clone, Copy, Hash, PartialEq, Eq)]
enum Key {
    Basic,
    AlwaysError,
    ErrorNTimes(usize),
}

#[derive(Default)]
struct TaskState {
    aborted: Cell<bool>,
    finished: Cell<bool>,
}

struct Handle(Rc<TaskState>);

impl Task for Handle {
    fn abort(self) {
        self.0.aborted.set(true);
        self.0.finished.set(true);
    }

    fn is_finished(&self) -> bool {
        self.0.finished.get()
    }
}

struct Spawned {
    key: Key,
    job: Job,
    due: u128,
    state: Rc<TaskState>,
}

#[derive(Clone, Default)]
struct Executor {
    now: Rc<Cell<u128>>,
    queue: Rc<RefCell<Vec<Spawned>>>,
}

impl Runtime for Executor {
    type Key = Key;
    type Task = Handle;

    fn spawn(&self, key: &Key, job: Job) -> Handle {
        let state = Rc::new(TaskState::default());
        let due = match job.kind {
            JobKind::Fetch { .. } => self.now.get(),
            JobKind::Refresh { interval } => self.now.get() + interval.as_nanos(),
            JobKind::Retry { interval } => self.now.get() + interval.as_nanos(),
        };
        self.queue.borrow_mut().push(Spawned { key: *key, job, due, state: Rc::clone(&state) });
        Handle(state)
    }
}

/// The fetcher of the tests: answers by key, and counts its calls.
#[derive(Default)]
struct Fetcher {
    fetch_count: usize,
    error_count: usize,
}

impl Fetcher {
    fn fetch<T, E>(&mut self, key: &Key, value: &dyn Fn() -> T, error: &dyn Fn() -> E) -> Result<Arc<T>, Arc<E>> {
        self.fetch_count += 1;
        match key {
            Key::Basic => Ok(Arc::new(value())),
            Key::AlwaysError => Err(Arc::new(error())),
            Key::ErrorNTimes(n) => {
                let seen = self.error_count;
                self.error_count += 1;
                if seen == *n {
                    Ok(Arc::new(value()))
                } else {
                    Err(Arc::new(error()))
                }
            }
        }
    }
}

const USIZE: TypeTag = TypeTag { id: 1, name: "usize" };

/// A window, a clock, an executor and a cache.
struct World<T, E> {
    swr: SWR<T, E, Executor>,
    executor: Executor,
    fetcher: Fetcher,
    focused: bool,
    focus_triggered: bool,
    wants_redraw: bool,
    value: Box<dyn Fn() -> T>,
    error: Box<dyn Fn() -> E>,
}

impl<T, E> World<T, E> {
    fn new(value: Box<dyn Fn() -> T>, error: Box<dyn Fn() -> E>) -> Self {
        let executor = Executor::default();
        World {
            swr: SWR::new_in(executor.clone()),
            executor,
            fetcher: Fetcher::default(),
            focused: false,
            focus_triggered: false,
            wants_redraw: false,
            value,
            error,
        }
    }

    fn now(&self) -> Instant {
        Instant::from_nanos(self.executor.now.get())
    }

    fn take_wants_redraw(&mut self) -> bool {
        std::mem::replace(&mut self.wants_redraw, false)
    }

    fn get_with(&mut self, key: Key, options: Options<T>) -> FetchResult<T, E> {
        assert!(self.swr.has_room(&key));
        let now = self.now();
        self.swr.get_with(&key, options, USIZE, self.focus_triggered, now)
    }

    fn end_frame(&mut self) {
        let now = self.now();
        self.swr.end_frame(now);
    }

    fn entry(&self, key: Key) -> Option<&CacheEntry<T, E, Executor>> {
        let slot = self.swr.inner.cache.get(&key)?;
        self.swr.inner.cache.entry(slot)
    }

    fn flag(&self, key: Key, flag: u8) -> bool {
        self.entry(key).unwrap().status().get(flag)
    }

    /// Runs what is ready now: the fetches that have been spawned.
    fn yield_now(&mut self) {
        self.run_due(true);
    }

    /// Moves the clock and lets the timers that have run out report.
    fn advance(&mut self, duration: Duration) {
        self.executor.now.set(self.executor.now.get() + duration.as_nanos());
        self.run_due(false);
    }

    fn run_due(&mut self, fetches: bool) {
        let now = self.executor.now.get();
        let ready: Vec<Spawned> = {
            let mut queue = self.executor.queue.borrow_mut();
            let mut ready = Vec::new();
            let mut waiting = Vec::new();
            for spawned in queue.drain(..) {
                let is_fetch = matches!(spawned.job.kind, JobKind::Fetch { .. });
                if spawned.state.aborted.get() {
                    continue;
                }
                if is_fetch == fetches && spawned.due <= now {
                    ready.push(spawned);
                } else {
                    waiting.push(spawned);
                }
            }
            *queue = waiting;
            ready
        };
        for spawned in ready {
            let at = self.now();
            let redraw = match spawned.job.kind {
                JobKind::Fetch { .. } => {
                    let outcome = self.fetcher.fetch(&spawned.key, &*self.value, &*self.error);
                    self.swr.inner.complete_fetch(spawned.job.slot, spawned.job.response, outcome, at)
                }
                JobKind::Refresh { .. } => {
                    self.swr.inner.refresh_due(spawned.job.slot, spawned.job.response, self.focused, at)
                }
                JobKind::Retry { .. } => self.swr.inner.retry_due(spawned.job.slot, spawned.job.response, at),
            };
            spawned.state.finished.set(true);
            self.wants_redraw |= redraw;
        }
    }
}

fn plain_world() -> World<usize, String> {
    World::new(Box::new(|| 42usize), Box::new(|| String::from("error")))
}

#[test]
fn liveness() {
    let mut world = plain_world();

    let _ = world.get_with(Key::Basic, Options::immutable());
    assert!(!world.flag(Key::Basic, CacheEntryStatus::ALIVE));
    assert!(world.flag(Key::Basic, CacheEntryStatus::USED_THIS_PASS));
    world.end_frame();

    assert!(world.flag(Key::Basic, CacheEntryStatus::ALIVE));
    assert!(!world.flag(Key::Basic, CacheEntryStatus::USED_THIS_PASS));

    world.end_frame();

    assert!(!world.flag(Key::Basic, CacheEntryStatus::ALIVE));
}

#[test]
fn garbage_collection() {
    let mut world = plain_world();

    let mut options = Options::immutable();
    options.garbage_collect_timeout = Some(Duration::from_secs(5));
    let _ = world.get_with(Key::Basic, options);
    world.end_frame();

    assert!(world.flag(Key::Basic, CacheEntryStatus::ALIVE));

    world.end_frame();

    assert!(!world.flag(Key::Basic, CacheEntryStatus::ALIVE));

    world.advance(Duration::from_secs(5));

    world.end_frame();

    assert!(world.entry(Key::Basic).is_none());
    assert!(world.swr.inner.cache.get(&Key::Basic).is_none());
}

#[test]
fn garbage_collection_waits_for_the_timeout() {
    let mut world = plain_world();

    let mut options = Options::immutable();
    options.garbage_collect_timeout = Some(Duration::from_secs(5));
    let _ = world.get_with(Key::Basic, options);
    world.end_frame();
    world.end_frame();
    world.advance(Duration::from_millis(4_999));
    world.end_frame();
    assert!(world.entry(Key::Basic).is_some());
    world.advance(Duration::from_millis(1));
    world.end_frame();
    assert!(world.entry(Key::Basic).is_none());
}

#[test]
fn garbage_collection_two_frames_after_expiry() {
    let mut world = plain_world();

    let mut options = Options::immutable();
    options.garbage_collect_timeout = Some(Duration::from_secs(5));
    let _ = world.get_with(Key::Basic, options);
    world.end_frame();

    world.advance(Duration::from_secs(5));

    world.end_frame();
    assert!(world.entry(Key::Basic).is_some());
    world.end_frame();
    assert!(world.entry(Key::Basic).is_none());
}

#[test]
fn a_failed_fetch_shows_its_error_and_keeps_the_data() {
    let mut world = plain_world();
    let now = world.now();
    let _ = world.swr.mutate(&Key::AlwaysError, Arc::new(7usize), USIZE, now);
    let shown = world.get_with(Key::AlwaysError, Options::immutable());
    assert!(shown.validating);
    world.yield_now();
    let shown = world.swr.get_shallow(&Key::AlwaysError, USIZE).unwrap();
    assert_eq!(shown.data, Some(Arc::new(7usize)));
    assert!(!shown.validating && !shown.loading);
    match shown.error {
        Some(swr::Error::Fetcher(error)) => assert_eq!(*error, "error"),
        _ => panic!("expected the fetcher's error"),
    }
    assert!(world.take_wants_redraw());
}

#[test]
fn persisted_handle_keeps_the_entry() {
    let mut world = plain_world();

    let mut options = Options::immutable();
    options.garbage_collect_timeout = Some(Duration::from_secs(5));
    let now = world.now();
    let handle = world.swr.persisted(&Key::Basic, options, USIZE, now);
    assert_eq!(world.entry(Key::Basic).unwrap().strong_count, 1);
    world.end_frame();
    world.end_frame();
    world.advance(Duration::from_secs(60));
    world.end_frame();
    assert!(world.entry(Key::Basic).is_some());

    handle.release(&mut world.swr.inner);
    assert_eq!(world.entry(Key::Basic).unwrap().strong_count, 0);
    world.end_frame();
    assert!(world.entry(Key::Basic).is_none());
}

#[test]
fn request_redraw() {
    let mut world = plain_world();

    let res = world.get_with(Key::Basic, Options::immutable());
    assert!(res.loading);
    assert!(!res.validating);
    assert!(res.data.is_none());
    world.end_frame();
    assert!(!world.take_wants_redraw());

    world.yield_now();

    assert!(world.take_wants_redraw());
    assert!(!world.flag(Key::Basic, CacheEntryStatus::LOADING));
    assert!(world.flag(Key::Basic, CacheEntryStatus::HAS_DATA));
    assert_eq!(world.fetcher.fetch_count, 1);
}

#[test]
fn refresh() {
    let mut world = plain_world();

    let mut options = Options::immutable();
    options.refresh_interval = Some(Duration::from_secs(5));
    let _ = world.get_with(Key::Basic, options);
    world.end_frame();

    world.focused = true;
    for _ in 0..3 {
        world.yield_now();
        world.advance(Duration::from_secs(5));
    }

    assert_eq!(world.fetcher.fetch_count, 3);
}

#[test]
fn refresh_waits_while_unfocused() {
    let mut world = plain_world();

    let mut options = Options::immutable();
    options.refresh_interval = Some(Duration::from_secs(5));
    let _ = world.get_with(Key::Basic, options);
    world.end_frame();

    for _ in 0..3 {
        world.yield_now();
        world.advance(Duration::from_secs(5));
    }
    assert_eq!(world.fetcher.fetch_count, 1);

    world.focused = true;
    world.advance(Duration::from_secs(5));
    world.yield_now();
    assert_eq!(world.fetcher.fetch_count, 2);
}

#[test]
fn retry() {
    let mut world = plain_world();

    let key = Key::ErrorNTimes(3);
    let mut options = Options::immutable();
    options.error_retry_interval = Some(Duration::from_secs(3));
    options.error_retry_count = Some(3);
    let _ = world.get_with(key, options);
    world.end_frame();

    world.yield_now();

    world.focused = true;
    for _ in 0..3 {
        assert!(world.flag(key, CacheEntryStatus::HAS_ERROR));

        world.advance(Duration::from_secs(3));
        world.yield_now();
    }

    assert!(!world.flag(key, CacheEntryStatus::HAS_ERROR));
    assert_eq!(world.entry(key).unwrap().retry_count, 0);

    assert_eq!(world.fetcher.fetch_count, 4);
}

#[test]
fn retry_budget_runs_out() {
    let mut world = plain_world();

    let key = Key::AlwaysError;
    let mut options = Options::immutable();
    options.error_retry_interval = Some(Duration::from_secs(3));
    options.error_retry_count = Some(2);
    let _ = world.get_with(key, options);
    world.end_frame();
    world.yield_now();
    for _ in 0..5 {
        world.advance(Duration::from_secs(3));
        world.yield_now();
    }
    // The first fetch and two retries.
    assert_eq!(world.fetcher.fetch_count, 3);
    assert_eq!(world.entry(key).unwrap().retry_count, 3);
    assert!(world.flag(key, CacheEntryStatus::HAS_ERROR));
}

struct DataWithDrop(Rc<Cell<bool>>);

impl Drop for DataWithDrop {
    fn drop(&mut self) {
        self.0.set(true);
    }
}

struct ErrorWithDrop(Rc<Cell<bool>>);

impl Drop for ErrorWithDrop {
    fn drop(&mut self) {
        self.0.set(true);
    }
}

fn set(
    world: &mut World<DataWithDrop, ErrorWithDrop>,
    handle: &Persisted<DataWithDrop>,
    ok: Option<Arc<DataWithDrop>>,
) {
    let now = world.now();
    match ok {
        Some(data) => {
            let (mutation, redraw) = handle.mutate_with(&mut world.swr.inner, MutateOptions::default(), now);
            assert!(!redraw);
            assert!(world.swr.inner.finish_mutation(mutation, Some(data), now));
        }
        None => {
            assert!(handle.revalidate(&mut world.swr.inner));
            let _ = handle.get(&mut world.swr.inner, false, now);
            world.yield_now();
        }
    }
}

#[test]
fn drop_values() {
    let data_dropped = Rc::new(Cell::new(false));
    let error_dropped = Rc::new(Cell::new(false));

    let for_data = Rc::clone(&data_dropped);
    let for_error = Rc::clone(&error_dropped);
    let mut world: World<DataWithDrop, ErrorWithDrop> = World::new(
        Box::new(move || DataWithDrop(Rc::clone(&for_data))),
        Box::new(move || ErrorWithDrop(Rc::clone(&for_error))),
    );

    let mut options = Options::default();
    options.fetch_on_first_use = false;
    let now = world.now();
    let persisted = world.swr.persisted(&Key::AlwaysError, options, USIZE, now);

    let fresh = |flag: &Rc<Cell<bool>>| Some(Arc::new(DataWithDrop(Rc::clone(flag))));

    let value = fresh(&data_dropped);
    set(&mut world, &persisted, value);
    assert!(!data_dropped.get());
    assert!(!error_dropped.replace(false));

    set(&mut world, &persisted, None);
    assert!(!data_dropped.get());
    assert!(!error_dropped.replace(false));

    let value = fresh(&data_dropped);
    set(&mut world, &persisted, value);
    assert!(data_dropped.get());
    assert!(error_dropped.replace(false));

    let value = fresh(&data_dropped);
    set(&mut world, &persisted, value);
    assert!(data_dropped.get());
    assert!(!error_dropped.replace(false));
}

#[test]
fn two_requests_in_one_frame_agree() {
    let mut world = plain_world();
    let first = world.get_with(Key::Basic, Options::immutable());
    let second = world.get_with(Key::Basic, Options::immutable());
    assert_eq!(first.loading, second.loading);
    assert_eq!(first.validating, second.validating);
    assert_eq!(first.data, second.data);
    assert!(first.error.is_none() && second.error.is_none());
    assert_eq!(first.slot, second.slot);
    world.yield_now();
    assert_eq!(world.fetcher.fetch_count, 1);
}

#[test]
fn mutate_then_get_shows_the_value() {
    let mut world = plain_world();
    let _ = world.get_with(Key::Basic, Options::immutable());
    world.end_frame();
    world.yield_now();
    let now = world.now();
    let _ = world.swr.mutate(&Key::Basic, Arc::new(7usize), USIZE, now);
    let result = world.get_with(Key::Basic, Options::immutable());
    assert_eq!(result.data, Some(Arc::new(7usize)));
    assert!(!result.loading);
    assert!(!result.validating);
}

#[test]
fn mutate_of_a_new_key_is_revalidated_when_first_seen() {
    let mut world = plain_world();
    let now = world.now();
    let _ = world.swr.mutate(&Key::Basic, Arc::new(7usize), USIZE, now);
    let result = world.get_with(Key::Basic, Options::immutable());
    assert_eq!(result.data, Some(Arc::new(7usize)));
    assert!(!result.loading);
    assert!(result.validating);
}

#[test]
fn revalidate_without_data_loads_like_first_usage() {
    let mut first = plain_world();
    let shown_first = first.get_with(Key::Basic, Options::immutable());

    let mut manual = plain_world();
    let now = manual.now();
    let handle = manual.swr.persisted(&Key::Basic, Options::immutable(), USIZE, now);
    manual.end_frame();
    assert!(manual.swr.revalidate(&Key::Basic));
    let shown_manual = handle.get(&mut manual.swr.inner, false, now);

    assert!(shown_first.loading && shown_manual.loading);
    assert!(!shown_first.validating && !shown_manual.validating);
    assert!(shown_first.data.is_none() && shown_manual.data.is_none());
    assert!(first.flag(Key::Basic, CacheEntryStatus::LOADING));
    assert!(manual.flag(Key::Basic, CacheEntryStatus::LOADING));
    first.yield_now();
    manual.yield_now();
    assert_eq!(first.fetcher.fetch_count, 1);
    assert_eq!(manual.fetcher.fetch_count, 1);
}

#[test]
fn revalidate_of_an_unknown_key_does_nothing() {
    let mut world = plain_world();
    assert!(!world.swr.revalidate(&Key::Basic));
    assert!(world.swr.get_shallow(&Key::Basic, USIZE).is_none());
    assert_eq!(world.swr.inner.cache.len(), 0);
}

#[test]
fn focus_revalidates_after_the_throttle_interval() {
    let mut world = plain_world();
    let _ = world.get_with(Key::Basic, Options::default());
    world.end_frame();
    world.yield_now();
    assert_eq!(world.fetcher.fetch_count, 1);

    world.focus_triggered = true;
    world.advance(Duration::from_secs(4));
    let throttled = world.get_with(Key::Basic, Options::default());
    assert!(!throttled.validating);
    world.end_frame();

    world.advance(Duration::from_secs(5));
    let due = world.get_with(Key::Basic, Options::default());
    assert!(due.validating);
    world.yield_now();
    assert_eq!(world.fetcher.fetch_count, 2);
}

#[test]
fn mismatched_type_shows_the_fallback_and_an_error() {
    let mut world = plain_world();
    let now = world.now();
    let _ = world.swr.mutate(&Key::Basic, Arc::new(7usize), USIZE, now);
    let other = TypeTag { id: 2, name: "String" };
    let mut options = Options::immutable();
    options.fallback = Some(Arc::new(9usize));
    let handle = world.swr.persisted(&Key::Basic, options, other, now);
    let result = handle.get_shallow(&world.swr.inner);
    assert_eq!(result.data, Some(Arc::new(9usize)));
    match result.error {
        Some(swr::Error::MismatchedType(error)) => {
            assert_eq!(error.contained_type, 1);
            assert_eq!(error.wanted_type, 2);
            assert_eq!(error.contained_type_name(), Some("usize"));
            assert_eq!(error.wanted_type_name(), Some("String"));
            assert_eq!(
                error.message(),
                "Data type mismatch - cache contains a value of type `usize`, but tried to retrieve a value of type `String`."
            );
        }
        _ => panic!("expected a type mismatch"),
    }
}

#[test]
fn rollback_restores_the_data_from_before_the_mutation() {
    let mut world = plain_world();
    let now = world.now();
    let _ = world.swr.mutate(&Key::Basic, Arc::new(1usize), USIZE, now);
    let mut options = MutateOptions::default();
    options.optimistic_data = Some(Arc::new(2usize));
    let (mutation, existing, redraw) = world.swr.mutate_with(&Key::Basic, options, USIZE, now);
    assert!(redraw);
    assert_eq!(existing, Some(Arc::new(1usize)));
    assert_eq!(world.swr.get_shallow(&Key::Basic, USIZE).unwrap().data, Some(Arc::new(2usize)));
    assert!(world.swr.inner.finish_mutation(mutation, None, now));
    assert_eq!(world.swr.get_shallow(&Key::Basic, USIZE).unwrap().data, Some(Arc::new(1usize)));
}

#[test]
fn mutation_with_revalidate_leaves_the_reason_pending() {
    let mut world = plain_world();
    let now = world.now();
    let mut options = MutateOptions::default();
    options.revalidate = true;
    let (mutation, existing, redraw) = world.swr.mutate_with(&Key::Basic, options, USIZE, now);
    assert!(!redraw);
    assert!(existing.is_none());
    assert!(world.swr.inner.finish_mutation(mutation, Some(Arc::new(5usize)), now));
    let entry = world.entry(Key::Basic).unwrap();
    assert_eq!(entry.revalidate_intent().peek(), swr::RevalidateIntent::MUTATE);
    assert!(entry.status().get(CacheEntryStatus::HAS_DATA));
}

#[test]
fn slots_are_not_reused_for_another_key() {
    let mut world = plain_world();
    let mut options = Options::immutable();
    options.garbage_collect_timeout = Some(Duration::from_secs(1));
    let first = world.get_with(Key::Basic, options).slot;
    world.end_frame();
    world.end_frame();
    world.advance(Duration::from_secs(1));
    world.end_frame();
    assert!(world.entry(Key::Basic).is_none());
    let second = world.get_with(Key::AlwaysError, Options::immutable()).slot;
    assert_ne!(first, second);
    assert!(world.swr.inner.cache.entry(first).is_none());
    assert!(world.swr.inner.cache.entry(second).is_some());
    let slots = world.swr.inner.cache.slots_in_use();
    assert_eq!(slots, vec![second]);
}
