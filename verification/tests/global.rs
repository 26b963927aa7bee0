use metrique::entry::{
    BoxEntry, Entry, EntryCall, EntryConfig, EntryDimensions, EntryWriter, UnixTime,
};
use metrique::global::{
    append_to_found, flush_found, AttachGlobalEntrySink, Context, GlobalEntrySink, GlobalSink,
    Registration, ShutdownStep,
};
use metrique::sink::{
    AnyEntrySink, BoxEntrySink, EntrySink, FlushFuture, FlushWait, SharedSink,
};
use metrique::tokio_metrics_reporter::Subscribed;
use metrique::value::{Float64, MetricCall, Millis, Observation, ValueCall};
use std::sync::atomic::{AtomicBool, AtomicUsize, Ordering};
use std::sync::{Arc, Mutex};
use std::task::{Wake, Waker};

struct TestEntry;

impl Entry for TestEntry {
    fn write<W: EntryWriter>(&self, writer: &mut W) {
        writer.timestamp(UnixTime { before_epoch: false, secs: 1749475336, nanos: 15781900 });
        writer.config(&EntryConfig::EntryDimensions(EntryDimensions {
            sets: vec![vec![String::from("Operation")]],
        }));
        writer.value("Time", &Millis(Float64::Bits(42.0f64.to_bits())));
        writer.value("Operation", &"MyOperation");
        writer.value("StringProp", &"some string value");
        writer.value("BasicIntCount", &1234u64);
    }
}

/// What was appended to a [`TestSink`].
#[derive(Clone)]
struct Inspector(Arc<Mutex<Vec<BoxEntry>>>);

impl Inspector {
    fn entries(&self) -> Vec<BoxEntry> {
        self.0.lock().unwrap().clone()
    }
}

struct TestSink(Inspector);

impl EntrySink<BoxEntry> for TestSink {
    fn append(&mut self, entry: BoxEntry) {
        self.0 .0.lock().unwrap().push(entry);
    }

    fn flush_async(&mut self) -> FlushWait {
        FlushWait::ready()
    }
}

impl SharedSink for TestSink {
    fn share(&self) -> Self {
        TestSink(self.0.clone())
    }
}

struct TestEntrySink {
    inspector: Inspector,
    sink: BoxEntrySink,
}

fn test_entry_sink() -> TestEntrySink {
    let inspector = Inspector(Arc::new(Mutex::new(Vec::new())));
    TestEntrySink { inspector: inspector.clone(), sink: BoxEntrySink::new(TestSink(inspector)) }
}

/// The value of a metric with one whole number.
fn metric(entry: &BoxEntry, name: &str) -> u64 {
    for call in entry.calls() {
        if let EntryCall::Value(n, value) = call {
            if n == name {
                if let ValueCall::Metric(MetricCall { observations, .. }) = &value.calls[0] {
                    if let Observation::Unsigned(v) = observations[0] {
                        return v;
                    }
                }
            }
        }
    }
    panic!("no such metric")
}

type Task = Box<dyn FnOnce() + Send>;

type ServiceMetrics = GlobalSink<(), Task>;

const HERE: Context = Context { thread: 1, runtime: None };

const ELSEWHERE: Context = Context { thread: 2, runtime: None };

/// Drops an attach handle and does what there is to do.
fn shut_down(global: &mut ServiceMetrics, handle: metrique::global::AttachHandle) {
    let mut shutdown = handle.drop(global);
    while let Some(step) = shutdown.step(global, &mut Subscribed::new()) {
        if let ShutdownStep::Call(task) = step {
            task();
        }
    }
}

#[test]
fn thread_local_sink_capture_entry() {
    let mut global = ServiceMetrics::new();
    let TestEntrySink { inspector, sink } = test_entry_sink();

    let _guard = global.set_test_sink(HERE, sink);

    // This should go to the thread-local sink
    global.append(HERE, TestEntry);
    assert_eq!(metric(&inspector.entries()[0], "BasicIntCount"), 1234);
}

#[test]
fn runtime_sink_for_runtime_works() {
    let mut global = ServiceMetrics::new();
    let TestEntrySink { inspector, sink } = test_entry_sink();
    let _guard = global.set_test_sink_for_tokio_runtime(7, sink);

    global.append(Context { thread: 1, runtime: Some(7) }, TestEntry);

    assert_eq!(inspector.entries().len(), 1);
    assert_eq!(metric(&inspector.entries()[0], "BasicIntCount"), 1234);
}

#[test]
fn runtime_sink_works_across_threads() {
    let mut global = ServiceMetrics::new();
    let TestEntrySink { inspector, sink } = test_entry_sink();
    let here = Context { thread: 0, runtime: Some(7) };
    let _guard = global.set_test_sink_on_current_tokio_runtime(here, sink);

    for thread in 0..4 {
        global.append(Context { thread, runtime: Some(7) }, TestEntry);
    }

    let entries = inspector.entries();
    assert_eq!(entries.len(), 4);
    for entry in &entries {
        assert_eq!(metric(entry, "BasicIntCount"), 1234);
    }
}

#[test]
fn runtime_sink_guard_is_send_sync() {
    fn is_send_sync<T: Send + Sync>(_: &T) {}
    let mut global = ServiceMetrics::new();
    let TestEntrySink { inspector, sink } = test_entry_sink();
    let here = Context { thread: 0, runtime: Some(7) };
    let guard = global.set_test_sink_on_current_tokio_runtime(here, sink);
    is_send_sync(&guard);

    // The guard can be dropped on a different thread.
    let there = Context { thread: 1, runtime: Some(7) };
    global.append(there, TestEntry);
    guard.drop(&mut global);

    assert_eq!(inspector.entries().len(), 1);
}

#[test]
fn runtime_sink_cleanup_on_drop() {
    let mut global = ServiceMetrics::new();
    let here = Context { thread: 0, runtime: Some(7) };
    let TestEntrySink { inspector: inspector1, sink: sink1 } = test_entry_sink();

    {
        let guard = global.set_test_sink_on_current_tokio_runtime(here, sink1);
        global.append(here, TestEntry);
        guard.drop(&mut global);
    }

    assert_eq!(inspector1.entries().len(), 1);
    assert!(!global.has_runtime_sink(7));

    // After guard is dropped, we should be able to install a new sink
    let TestEntrySink { inspector: inspector2, sink: sink2 } = test_entry_sink();
    let _guard2 = global.set_test_sink_on_current_tokio_runtime(here, sink2);
    global.append(here, TestEntry);

    // First inspector should still have 1 entry
    assert_eq!(inspector1.entries().len(), 1);
    // Second inspector should have 1 entry
    assert_eq!(inspector2.entries().len(), 1);
}

#[test]
fn with_test_sink() {
    let global = ServiceMetrics::new();
    let TestEntrySink { inspector, sink } = test_entry_sink();

    let (global, result) = global.with_test_sink(HERE, sink, |mut global: ServiceMetrics| {
        // This should go to the thread-local sink
        global.append(HERE, TestEntry);
        assert_eq!(metric(&inspector.entries()[0], "BasicIntCount"), 1234);
        (global, 42)
    });
    assert_eq!(result, 42);
    assert!(!global.has_thread_sink(HERE.thread));
}

#[test]
fn after_guard_dropped_use_global_queue() {
    let mut global = ServiceMetrics::new();
    let TestEntrySink { inspector: global_inspector, sink } = test_entry_sink();
    let _handle = ();
    let _handle = global.attach((sink, _handle));
    // this goes global
    global.append(HERE, TestEntry);
    let TestEntrySink { inspector: thread_local_inspector, sink } = test_entry_sink();

    {
        let tl = global.set_test_sink(HERE, sink);
        // local
        global.append(HERE, TestEntry);
        tl.drop(&mut global);
    }

    assert_eq!(global_inspector.entries().len(), 1);
    // one more back to global
    global.append(HERE, TestEntry);
    assert_eq!(global_inspector.entries().len(), 2);
    assert_eq!(thread_local_inspector.entries().len(), 1);
}

#[test]
fn sink_or_discard_without_attached_sink() {
    let mut global = ServiceMetrics::new();
    let sink = global.sink_or_discard();
    sink.append(&mut global, HERE, TestEntry);
}

#[test]
fn sink_or_discard_with_test_sink() {
    let mut global = ServiceMetrics::new();
    let TestEntrySink { inspector, sink } = test_entry_sink();
    let _guard = global.set_test_sink(HERE, sink);

    global.sink_or_discard().append(&mut global, HERE, TestEntry);
    assert_eq!(inspector.entries().len(), 1);
    assert_eq!(metric(&inspector.entries()[0], "BasicIntCount"), 1234);
}

#[test]
fn sink_or_discard_append_on_drop_without_sink() {
    let mut global = ServiceMetrics::new();
    let metric = global.sink_or_discard().append_on_drop(TestEntry);
    metric.drop_into(&mut global, HERE);
}

#[test]
fn sink_or_discard_append_on_drop_with_test_sink() {
    let mut global = ServiceMetrics::new();
    let TestEntrySink { inspector, sink } = test_entry_sink();
    let _guard = global.set_test_sink(HERE, sink);

    {
        let metric = global.sink_or_discard().append_on_drop(TestEntry);
        metric.drop_into(&mut global, HERE);
    }
    assert_eq!(inspector.entries().len(), 1);
}

#[test]
fn sink_or_discard_resolves_lazily() {
    let mut global = ServiceMetrics::new();
    let lazy_sink = global.sink_or_discard();

    let TestEntrySink { inspector, sink } = test_entry_sink();
    let _guard = global.set_test_sink(HERE, sink);

    lazy_sink.append(&mut global, HERE, TestEntry);
    assert_eq!(inspector.entries().len(), 1);
    assert_eq!(metric(&inspector.entries()[0], "BasicIntCount"), 1234);
}

#[test]
fn sink_or_discard_append_on_drop_resolves_lazily() {
    let mut global = ServiceMetrics::new();
    let lazy_sink = global.sink_or_discard();
    let wrapped = lazy_sink.append_on_drop(TestEntry);

    let TestEntrySink { inspector, sink } = test_entry_sink();
    let _guard = global.set_test_sink(HERE, sink);

    wrapped.drop_into(&mut global, HERE);
    assert_eq!(inspector.entries().len(), 1);
    assert_eq!(metric(&inspector.entries()[0], "BasicIntCount"), 1234);
}

#[test]
fn sink_or_discard_flush_without_sink() {
    let global = ServiceMetrics::new();
    let lazy_sink = global.sink_or_discard();
    let mut flush = lazy_sink.flush_async(&global, HERE);
    assert!(flush.poll(Waker::noop()));
}

#[test]
fn sink_or_discard_discards_then_forwards() {
    let mut global = ServiceMetrics::new();
    let lazy_sink = global.sink_or_discard();

    lazy_sink.append(&mut global, HERE, TestEntry);

    let TestEntrySink { inspector, sink } = test_entry_sink();
    let _guard = global.set_test_sink(HERE, sink);

    lazy_sink.append(&mut global, HERE, TestEntry);
    assert_eq!(inspector.entries().len(), 1);
}

#[test]
fn sink_or_discard_detach_stops_forwarding() {
    let mut global = ServiceMetrics::new();
    let lazy_sink = global.sink_or_discard();

    let TestEntrySink { inspector, sink } = test_entry_sink();
    let guard = global.set_test_sink(HERE, sink);

    lazy_sink.append(&mut global, HERE, TestEntry);
    assert_eq!(inspector.entries().len(), 1);

    guard.drop(&mut global);

    lazy_sink.append(&mut global, HERE, TestEntry);
    assert_eq!(inspector.entries().len(), 1);
}

#[test]
fn shutdown_fn_runs_on_drop() {
    let mut global = ServiceMetrics::new();
    let TestEntrySink { sink, .. } = test_entry_sink();
    let called = Arc::new(AtomicBool::new(false));
    let called2 = called.clone();

    let handle = global.attach((sink, ()));
    global.register_shutdown_fn(Box::new(move || {
        called2.store(true, Ordering::SeqCst);
    }));

    assert!(!called.load(Ordering::SeqCst));
    shut_down(&mut global, handle);
    assert!(called.load(Ordering::SeqCst));
}

#[test]
fn shutdown_fns_run_before_sink_detach() {
    let mut global = ServiceMetrics::new();
    let TestEntrySink { sink, .. } = test_entry_sink();

    // Track call order: subscriber = 1, sink detach = 2
    let order = Arc::new(Mutex::new(Vec::new()));
    let order2 = order.clone();

    let handle = global.attach((sink, ()));
    global.register_shutdown_fn(Box::new(move || {
        order2.lock().unwrap().push("subscriber");
    }));

    let mut shutdown = handle.drop(&mut global);
    while let Some(step) = shutdown.step(&mut global, &mut Subscribed::new()) {
        match step {
            ShutdownStep::Call(task) => {
                assert!(global.has_attached_sink());
                task();
            }
            ShutdownStep::Detached(join) => {
                assert_eq!(join, Some(()));
                order.lock().unwrap().push("detach");
            }
        }
    }

    // subscriber was prepended, so it runs first
    let calls = order.lock().unwrap();
    assert_eq!(calls[0], "subscriber");
    assert_eq!(calls[1], "detach");
    assert!(!global.has_attached_sink());
}

#[test]
fn forget_prevents_shutdown_fns_from_running() {
    let mut global = ServiceMetrics::new();
    let TestEntrySink { sink, .. } = test_entry_sink();
    let called = Arc::new(AtomicBool::new(false));
    let called2 = called.clone();

    let handle = global.attach((sink, ()));
    global.register_shutdown_fn(Box::new(move || {
        called2.store(true, Ordering::SeqCst);
    }));

    handle.forget(&mut global);
    assert!(!called.load(Ordering::SeqCst));
}

#[test]
fn forget_keeps_sink_attached() {
    let mut global = ServiceMetrics::new();
    let TestEntrySink { sink, .. } = test_entry_sink();

    let handle = global.attach((sink, ()));
    handle.forget(&mut global);

    // Sink should still be usable
    assert!(global.try_sink(HERE).is_some());
    assert_eq!(global.registration(), Registration::Forgotten);
}

#[test]
fn can_reattach_after_drop() {
    let mut global = ServiceMetrics::new();
    let TestEntrySink { sink, .. } = test_entry_sink();
    let called = Arc::new(AtomicUsize::new(0));

    // First attach + drop
    {
        let handle = global.attach((sink, ()));
        let called2 = called.clone();
        global.register_shutdown_fn(Box::new(move || {
            called2.fetch_add(1, Ordering::SeqCst);
        }));
        shut_down(&mut global, handle);
    }
    assert_eq!(called.load(Ordering::SeqCst), 1);
    assert_eq!(global.registration(), Registration::Dropped);

    // Second attach + drop: new registry, new shutdown fns
    let TestEntrySink { sink, .. } = test_entry_sink();
    {
        let handle = global.attach((sink, ()));
        let called2 = called.clone();
        global.register_shutdown_fn(Box::new(move || {
            called2.fetch_add(1, Ordering::SeqCst);
        }));
        shut_down(&mut global, handle);
    }
    assert_eq!(called.load(Ordering::SeqCst), 2);
}

#[test]
fn registering_needs_an_attached_sink() {
    let mut global = ServiceMetrics::new();
    assert_eq!(global.registration(), Registration::NeverAttached);
    let handle = global.attach((test_entry_sink().sink, ()));
    assert_eq!(global.registration(), Registration::Open);
    shut_down(&mut global, handle);
    assert_eq!(global.registration(), Registration::Dropped);
}

#[test]
fn tasks_are_done_last_registered_first() {
    let mut global = ServiceMetrics::new();
    let handle = global.attach((test_entry_sink().sink, ()));
    let order = Arc::new(Mutex::new(Vec::new()));
    for n in 0..3 {
        let order = order.clone();
        global.register_shutdown_fn(Box::new(move || order.lock().unwrap().push(n)));
    }
    shut_down(&mut global, handle);
    assert_eq!(*order.lock().unwrap(), vec![2, 1, 0]);
}

#[test]
fn try_append_hands_the_entry_back_without_a_sink() {
    struct Numbered(u64);
    impl Entry for Numbered {
        fn write<W: EntryWriter>(&self, writer: &mut W) {
            writer.value("n", &self.0);
        }
    }
    let mut global = ServiceMetrics::new();
    assert!(!global.is_attached(HERE));
    match global.try_append(HERE, Numbered(5)) {
        Err(entry) => assert_eq!(entry.0, 5),
        Ok(()) => panic!("there is no sink"),
    }
    let TestEntrySink { inspector, sink } = test_entry_sink();
    let _handle = global.attach((sink, ()));
    assert!(global.is_attached(HERE));
    assert!(global.try_append(HERE, Numbered(6)).is_ok());
    assert_eq!(metric(&inspector.entries()[0], "n"), 6);
}

#[test]
fn thread_sink_comes_before_runtime_sink_before_attached_sink() {
    let mut global = ServiceMetrics::new();
    let attached = test_entry_sink();
    let on_runtime = test_entry_sink();
    let on_thread = test_entry_sink();
    let _handle = global.attach((attached.sink, ()));
    let _runtime_guard = global.set_test_sink_for_tokio_runtime(7, on_runtime.sink);
    let _thread_guard = global.set_test_sink(HERE, on_thread.sink);

    global.append(Context { thread: 1, runtime: Some(7) }, TestEntry);
    global.append(Context { thread: 2, runtime: Some(7) }, TestEntry);
    global.append(Context { thread: 2, runtime: Some(7) }, TestEntry);
    global.append(ELSEWHERE, TestEntry);
    global.append(ELSEWHERE, TestEntry);
    global.append(Context { thread: 2, runtime: Some(8) }, TestEntry);
    assert_eq!(on_thread.inspector.entries().len(), 1);
    assert_eq!(on_runtime.inspector.entries().len(), 2);
    assert_eq!(attached.inspector.entries().len(), 3);
}

#[test]
fn append_on_drop_appends_the_entry_as_it_is_then() {
    #[derive(Default)]
    struct Counter {
        counter: u64,
    }
    impl Entry for Counter {
        fn write<W: EntryWriter>(&self, writer: &mut W) {
            writer.value("counter", &self.counter);
        }
    }
    let mut global = ServiceMetrics::new();
    let TestEntrySink { inspector, sink } = test_entry_sink();
    let _handle = global.attach((sink, ()));

    let mut wrapped = global.append_on_drop(HERE, Counter { counter: 0 });
    wrapped.deref_mut().counter += 1;
    assert_eq!(wrapped.deref().counter, 1);
    let _ = wrapped.drop();
    assert_eq!(metric(&inspector.entries()[0], "counter"), 1);

    let _ = global.append_on_drop_default::<Counter>(HERE).drop();
    assert_eq!(metric(&inspector.entries()[1], "counter"), 0);

    let _ = global.append_on_drop(HERE, Counter { counter: 3 }).forget();
    let (entry, _) = global.append_on_drop(HERE, Counter { counter: 4 }).into_entry();
    assert_eq!(entry.counter, 4);
    assert_eq!(inspector.entries().len(), 2);
}

#[test]
fn clones_of_a_sink_share_its_buffer() {
    let TestEntrySink { inspector, mut sink } = test_entry_sink();
    let mut other = sink.clone();
    sink.append(TestEntry);
    other.append_any(TestEntry);
    let mut third = sink.boxed();
    third.append(TestEntry);
    let _ = third.append_on_drop(TestEntry).drop();
    assert_eq!(inspector.entries().len(), 4);
    assert!(AnyEntrySink::flush_async(&mut third).poll(Waker::noop()));
}

#[test]
fn flush_wait_is_ready_when_its_future_is() {
    struct Countdown(u32);
    impl FlushFuture for Countdown {
        fn poll(&mut self, _waker: &Waker) -> bool {
            self.0 = self.0.saturating_sub(1);
            self.0 == 0
        }
    }
    let mut wait = FlushWait::from_future(Countdown(2));
    assert!(!wait.poll(Waker::noop()));
    assert!(wait.poll(Waker::noop()));
    assert!(wait.poll(Waker::noop()));
    assert!(FlushWait::ready().poll(Waker::noop()));
}

/// A sink that counts the flushes requested of it, none of which is done at first.
struct FlushCounter(Arc<AtomicUsize>);

impl EntrySink<BoxEntry> for FlushCounter {
    fn append(&mut self, _entry: BoxEntry) {}

    fn flush_async(&mut self) -> FlushWait {
        struct Later(bool);
        impl FlushFuture for Later {
            fn poll(&mut self, _waker: &Waker) -> bool {
                let done = self.0;
                self.0 = true;
                done
            }
        }
        self.0.fetch_add(1, Ordering::SeqCst);
        FlushWait::from_future(Later(false))
    }
}

impl SharedSink for FlushCounter {
    fn share(&self) -> Self {
        FlushCounter(self.0.clone())
    }
}

#[test]
fn flushes_are_passed_on_to_the_sink() {
    let count = Arc::new(AtomicUsize::new(0));
    let mut sink = BoxEntrySink::new(FlushCounter(count.clone()));
    let mut wait = AnyEntrySink::flush_async(&mut sink);
    assert_eq!(count.load(Ordering::SeqCst), 1);
    assert!(!wait.poll(Waker::noop()));
    assert!(wait.poll(Waker::noop()));
    let _ = EntrySink::<TestEntry>::flush_async(&mut sink.clone());
    assert_eq!(count.load(Ordering::SeqCst), 2);

    let mut global = ServiceMetrics::new();
    let _handle = global.attach((sink, ()));
    let mut wait = global.sink_or_discard().flush_async(&global, HERE);
    assert_eq!(count.load(Ordering::SeqCst), 3);
    assert!(!wait.poll(Waker::noop()));
    assert!(wait.poll(Waker::noop()));
}

#[test]
fn flush_wait_asks_its_future_with_the_same_waker() {
    struct CountWakes(AtomicUsize);
    impl Wake for CountWakes {
        fn wake(self: Arc<Self>) {
            self.0.fetch_add(1, Ordering::SeqCst);
        }
    }
    /// Wakes whoever asks, and is done when asked for the third time.
    struct Third(Arc<AtomicUsize>);
    impl FlushFuture for Third {
        fn poll(&mut self, waker: &Waker) -> bool {
            waker.wake_by_ref();
            self.0.fetch_add(1, Ordering::SeqCst) >= 2
        }
    }
    let asked = Arc::new(AtomicUsize::new(0));
    let wakes = Arc::new(CountWakes(AtomicUsize::new(0)));
    let waker = Waker::from(wakes.clone());
    let mut wait = FlushWait::from_future(Third(asked.clone()));
    assert_eq!(asked.load(Ordering::SeqCst), 0);
    assert!(!wait.poll(&waker));
    assert!(!wait.poll(Waker::noop()));
    assert_eq!(asked.load(Ordering::SeqCst), 2);
    assert!(wait.poll(&waker));
    assert_eq!(asked.load(Ordering::SeqCst), 3);
    assert_eq!(wakes.0.load(Ordering::SeqCst), 2);
}

#[test]
fn clones_are_appended_on_their_own() {
    #[derive(Clone)]
    struct Numbered(u64);
    impl Entry for Numbered {
        fn write<W: EntryWriter>(&self, writer: &mut W) {
            writer.value("n", &self.0);
        }
    }
    let TestEntrySink { inspector, sink } = test_entry_sink();
    let mut a = sink.append_on_drop(Numbered(0));
    let mut b = a.clone();
    a.deref_mut().0 = 1;
    b.deref_mut().0 = 2;
    assert!(inspector.entries().is_empty());
    let _ = b.drop();
    let _ = a.drop();
    let entries = inspector.entries();
    assert_eq!(entries.len(), 2);
    assert_eq!(metric(&entries[0], "n"), 2);
    assert_eq!(metric(&entries[1], "n"), 1);
}

#[test]
fn join_handle_is_kept_until_the_sink_is_detached() {
    let mut global: GlobalSink<Arc<()>, Task> = GlobalSink::new();
    let join = Arc::new(());
    let handle = global.attach((test_entry_sink().sink, join.clone()));
    assert_eq!(Arc::strong_count(&join), 2);
    let mut shutdown = handle.drop(&mut global);
    assert_eq!(Arc::strong_count(&join), 2);
    match shutdown.step(&mut global, &mut Subscribed::new()) {
        Some(ShutdownStep::Detached(Some(kept))) => assert!(Arc::ptr_eq(&kept, &join)),
        _ => panic!("expected the sink to be detached"),
    }
    assert!(shutdown.step(&mut global, &mut Subscribed::new()).is_none());
    assert_eq!(Arc::strong_count(&join), 1);
}

#[test]
fn what_a_look_up_found_is_used() {
    let TestEntrySink { inspector, sink } = test_entry_sink();
    assert!(append_to_found(Some(sink), TestEntry).is_ok());
    assert_eq!(inspector.entries().len(), 1);
    assert!(append_to_found(None, TestEntry).is_err());
    assert!(flush_found(None).poll(Waker::noop()));
}

#[test]
fn appending_requests_no_flush() {
    let count = Arc::new(AtomicUsize::new(0));
    let mut global = ServiceMetrics::new();
    let _handle = global.attach((FlushCounter(count.clone()), ()));
    global.append(HERE, TestEntry);
    assert_eq!(count.load(Ordering::SeqCst), 0);
}

#[test]
fn clones_feed_one_sink() {
    struct Numbered(u64);
    impl Entry for Numbered {
        fn write<W: EntryWriter>(&self, writer: &mut W) {
            writer.value("n", &self.0);
        }
    }
    let TestEntrySink { inspector, sink: mut b } = test_entry_sink();
    let mut c = b.clone();
    assert!(inspector.entries().is_empty());
    b.append(Numbered(1));
    c.append(Numbered(2));
    let mut d = c.clone();
    d.append(Numbered(3));
    b.append(Numbered(4));
    let numbers: Vec<u64> = inspector.entries().iter().map(|e| metric(e, "n")).collect();
    assert_eq!(numbers, vec![1, 2, 3, 4]);
}

#[test]
fn flush_wait_is_send_and_sync() {
    fn is_send_sync<T: Send + Sync>(_: &T) {}
    is_send_sync(&FlushWait::ready());
    is_send_sync(&test_entry_sink().sink);
}
