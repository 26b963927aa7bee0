use metrique::entry::{BoxEntry, EntryCall};
use metrique::global::{AttachGlobalEntrySink, Context, GlobalSink, Registration, ShutdownStep};
use metrique::inflect::InflectableEntry;
use metrique::namestyle::{Identity, KebabCase, PascalCase, SnakeCase};
use metrique::reporter::{CompositeAttachHandle, MetricReporter};
use metrique::runtime_snapshot::{
    HistogramBucket, PollTimeHistogram, RuntimeSnapshot, UnstableMetrics,
};
use metrique::sink::{BoxEntrySink, EntrySink, FlushWait, SharedSink};
use metrique::tokio_metrics_reporter::{
    AttachGlobalEntrySinkTokioMetricsExt, MetricNameStyle, ReporterAction, ReporterEvent,
    Subscribed, TokioRuntimeMetricsConfig,
};
use metrique::value::{Float64, Millis, NegativeScale, Observation, Unit, ValueCall};
use std::sync::{Arc, Mutex};
use std::time::Duration;

const HERE: Context = Context { thread: 1, runtime: None };

type Sink = GlobalSink<(), &'static str>;

type Buffer = Arc<Mutex<Vec<BoxEntry>>>;

struct TestSink(Buffer);

impl EntrySink<BoxEntry> for TestSink {
    fn append(&mut self, entry: BoxEntry) {
        self.0.lock().unwrap().push(entry);
    }

    fn flush_async(&mut self) -> FlushWait {
        FlushWait::ready()
    }
}

impl SharedSink for TestSink {
    fn share(&self) -> Self {
        TestSink(self.0.clone())
    }
}

fn test_sink() -> (Buffer, BoxEntrySink) {
    let buffer: Buffer = Arc::new(Mutex::new(Vec::new()));
    (buffer.clone(), BoxEntrySink::new(TestSink(buffer)))
}

fn snapshot() -> RuntimeSnapshot {
    RuntimeSnapshot {
        workers_count: 1,
        live_tasks_count: 2,
        total_park_count: 3,
        max_park_count: 4,
        min_park_count: 5,
        total_busy_duration: Millis(Float64::Zero),
        max_busy_duration: Millis(Float64::Zero),
        min_busy_duration: Millis(Float64::Zero),
        global_queue_depth: 6,
        elapsed: Millis(Float64::Bits(42.0f64.to_bits())),
        unstable: None,
    }
}

fn keys(entry: &BoxEntry) -> Vec<String> {
    let mut keys = Vec::new();
    for call in entry.calls() {
        if let EntryCall::Value(name, _) = call {
            keys.push(name.clone());
        }
    }
    keys
}

/// Subscribes, takes some snapshots at intervals, and gives the keys of the first entry.
fn keys_reported_in(name_style: MetricNameStyle) -> Vec<String> {
    let mut global = Sink::new();
    let (buffer, sink) = test_sink();
    let _handle = global.attach((sink, ()));
    let config = TokioRuntimeMetricsConfig::default()
        .with_interval(Duration::from_millis(50))
        .with_name_style(name_style);
    let mut subscribed = Subscribed::new();
    let subscription =
        global.subscribe_tokio_runtime_metrics(HERE, &mut subscribed, config, "stop");
    assert!(!subscription.duplicate);
    let mut reporter = subscription.reporter;

    let mut event = ReporterEvent::Started;
    let mut slept = Duration::ZERO;
    while slept < Duration::from_millis(200) {
        match reporter.next(event) {
            ReporterAction::Sample => {
                event = ReporterEvent::Sampled(snapshot());
            }
            ReporterAction::Sleep(interval) => {
                assert_eq!(interval, Duration::from_millis(50));
                slept += interval;
                event = ReporterEvent::Slept;
            }
            ReporterAction::Stop => panic!("there are more snapshots"),
        }
    }
    assert!(matches!(
        reporter.next(ReporterEvent::<RuntimeSnapshot>::Exhausted),
        ReporterAction::Stop
    ));
    let entries = buffer.lock().unwrap();
    assert_eq!(entries.len(), 4);
    keys(&entries[0])
}

#[test]
fn subscribe_appends_metrics_identity() {
    let keys = keys_reported_in(MetricNameStyle::Identity);
    assert_eq!(keys.len(), 10);
    assert_eq!(keys[0], "workers_count");
    assert_eq!(keys[2], "total_park_count");
    assert_eq!(keys[9], "elapsed");
}

#[test]
fn subscribe_appends_metrics_pascal_case() {
    let keys = keys_reported_in(MetricNameStyle::PascalCase);
    assert_eq!(keys.len(), 10);
    assert_eq!(keys[0], "WorkersCount");
    assert_eq!(keys[2], "TotalParkCount");
    assert_eq!(keys[9], "Elapsed");
}

#[test]
fn subscribe_appends_metrics_snake_case() {
    let keys = keys_reported_in(MetricNameStyle::SnakeCase);
    assert_eq!(keys.len(), 10);
    assert_eq!(keys[0], "workers_count");
    assert_eq!(keys[2], "total_park_count");
    assert_eq!(keys[9], "elapsed");
}

#[test]
fn subscribe_appends_metrics_kebab_case() {
    let keys = keys_reported_in(MetricNameStyle::KebabCase);
    assert_eq!(keys.len(), 10);
    assert_eq!(keys[0], "workers-count");
    assert_eq!(keys[2], "total-park-count");
    assert_eq!(keys[9], "elapsed");
}

#[test]
fn subscribe_aborted_on_handle_drop() {
    let mut global = Sink::new();
    let (_, sink) = test_sink();
    let handle = global.attach((sink, ()));
    let mut subscribed = Subscribed::new();
    let config = TokioRuntimeMetricsConfig::default();
    let first = global.subscribe_tokio_runtime_metrics(HERE, &mut subscribed, config, "stop 1");
    let second = global.subscribe_tokio_runtime_metrics(HERE, &mut subscribed, config, "stop 2");
    assert!(!first.duplicate);
    assert!(second.duplicate);

    // Both tasks are stopped before the sink is detached.
    let mut shutdown = handle.drop(&mut global);
    let mut stopped = Vec::new();
    while let Some(step) = shutdown.step(&mut global, &mut subscribed) {
        if let ShutdownStep::Call(task) = step {
            assert!(global.has_attached_sink());
            stopped.push(task);
        }
    }
    assert_eq!(stopped, vec!["stop 2", "stop 1"]);
    assert!(!global.has_attached_sink());

    // After attaching again, one can subscribe cleanly.
    let (_, sink) = test_sink();
    let _handle = global.attach((sink, ()));
    let again = global.subscribe_tokio_runtime_metrics(HERE, &mut subscribed, config, "stop 3");
    assert!(!again.duplicate);
}

#[test]
fn default_interval_is_half_a_minute() {
    let mut global = Sink::new();
    let (_, sink) = test_sink();
    let _handle = global.attach((sink, ()));
    let config = TokioRuntimeMetricsConfig::default();
    let mut reporter = global
        .subscribe_tokio_runtime_metrics(HERE, &mut Subscribed::new(), config, "stop")
        .reporter;
    match reporter.next(ReporterEvent::Sampled(snapshot())) {
        ReporterAction::Sleep(interval) => assert_eq!(interval, Duration::from_secs(30)),
        _ => panic!("expected a sleep"),
    }
}

/// Notes what happens to it.
struct Recorder(&'static str, Arc<Mutex<Vec<String>>>);

impl MetricReporter for Recorder {
    fn abort(&mut self) {
        self.1.lock().unwrap().push(format!("abort {}", self.0));
    }

    fn forget(&mut self) {
        self.1.lock().unwrap().push(format!("forget {}", self.0));
    }
}

#[test]
fn composite_handle_aborts_its_reporters_and_shuts_down() {
    let mut global = Sink::new();
    let (_, sink) = test_sink();
    let log = Arc::new(Mutex::new(Vec::new()));
    let mut handle = CompositeAttachHandle::new(global.attach((sink, ())));
    handle.add_reporter(Recorder("a", log.clone()));
    handle.add_reporter(Recorder("b", log.clone()));
    assert!(handle.try_sink(&global).is_some());
    let (told, mut shutdown) = handle.drop(&mut global);
    let mut subscribed = Subscribed::new();
    assert_eq!(told.reporters.len(), 2);
    assert_eq!(*log.lock().unwrap(), vec!["abort a", "abort b"]);
    while shutdown.step(&mut global, &mut subscribed).is_some() {}
    assert!(!global.has_attached_sink());
}

#[test]
fn composite_handle_forgets_its_reporters_and_stays_attached() {
    let mut global = Sink::new();
    let (_, sink) = test_sink();
    let log = Arc::new(Mutex::new(Vec::new()));
    let mut handle = CompositeAttachHandle::new(global.attach((sink, ())));
    handle.add_reporter(Recorder("a", log.clone()));
    let told = handle.forget(&mut global);
    assert_eq!(told.reporters.len(), 1);
    assert_eq!(*log.lock().unwrap(), vec!["forget a"]);
    assert!(global.has_attached_sink());
    assert_eq!(global.registration(), Registration::Forgotten);
}

#[test]
fn snapshots_keep_their_values() {
    let mut entry = BoxEntry::new();
    InflectableEntry::<Identity>::write(&snapshot(), &mut entry);
    let mut other = BoxEntry::new();
    InflectableEntry::<SnakeCase>::write(&snapshot(), &mut other);
    assert_eq!(keys(&entry), keys(&other));
    match &entry.calls()[9] {
        EntryCall::Value(_, value) => match &value.calls[0] {
            ValueCall::Metric(m) => {
                let bits = Float64::Bits(42.0f64.to_bits());
                assert_eq!(m.observations, vec![Observation::Floating(bits)]);
                assert_eq!(m.unit, Unit::Second(NegativeScale::Milli));
            }
            _ => panic!("expected a metric"),
        },
        _ => panic!("expected a field"),
    }
    match &entry.calls()[8] {
        EntryCall::Value(name, value) => {
            assert_eq!(name, "global_queue_depth");
            match &value.calls[0] {
                ValueCall::Metric(m) => {
                    assert_eq!(m.observations, vec![Observation::Unsigned(6)])
                }
                _ => panic!("expected a metric"),
            }
        }
        _ => panic!("expected a field"),
    }
}

#[test]
fn reporters_are_told_in_order() {
    let log = Arc::new(Mutex::new(Vec::new()));
    let attached = |global: &mut Sink| {
        let (_, sink) = test_sink();
        let mut handle = CompositeAttachHandle::new(global.attach((sink, ())));
        for name in ["a", "b", "c"] {
            handle.add_reporter(Recorder(name, log.clone()));
        }
        handle
    };
    let mut global = Sink::new();
    let handle = attached(&mut global);
    assert!(log.lock().unwrap().is_empty());
    let _ = handle.drop(&mut global);
    let mut global = Sink::new();
    let _ = attached(&mut global).forget(&mut global);
    assert_eq!(
        *log.lock().unwrap(),
        vec!["abort a", "abort b", "abort c", "forget a", "forget b", "forget c"]
    );
}

fn unstable() -> UnstableMetrics {
    UnstableMetrics {
        mean_poll_duration: Millis(Float64::Zero),
        mean_poll_duration_worker_min: Millis(Float64::Zero),
        mean_poll_duration_worker_max: Millis(Float64::Zero),
        poll_time_histogram: PollTimeHistogram {
            buckets: vec![
                HistogramBucket { count: 5, total_micros: Float64::Bits(250.0f64.to_bits()) },
                HistogramBucket { count: 0, total_micros: Float64::Zero },
                HistogramBucket { count: 3, total_micros: Float64::Bits(1050.0f64.to_bits()) },
            ],
        },
        total_noop_count: 1,
        max_noop_count: 2,
        min_noop_count: 3,
        total_steal_count: 4,
        max_steal_count: 5,
        min_steal_count: 6,
        total_steal_operations: 7,
        max_steal_operations: 8,
        min_steal_operations: 9,
        num_remote_schedules: 10,
        total_local_schedule_count: 11,
        max_local_schedule_count: 12,
        min_local_schedule_count: 13,
        total_overflow_count: 14,
        max_overflow_count: 15,
        min_overflow_count: 16,
        total_polls_count: 17,
        max_polls_count: 18,
        min_polls_count: 19,
        total_local_queue_depth: 20,
        max_local_queue_depth: 21,
        min_local_queue_depth: 22,
        blocking_queue_depth: 23,
        blocking_threads_count: 24,
        idle_blocking_threads_count: 25,
        budget_forced_yield_count: 26,
        io_driver_ready_count: 27,
    }
}

#[test]
fn unstable_metrics_follow_the_stable_ones() {
    let full = RuntimeSnapshot { unstable: Some(unstable()), ..snapshot() };
    let mut entry = BoxEntry::new();
    InflectableEntry::<PascalCase>::write(&full, &mut entry);
    let keys = keys(&entry);
    assert_eq!(keys.len(), 41);
    assert_eq!(keys[9], "Elapsed");
    assert_eq!(keys[13], "PollTimeHistogram");
    assert_eq!(keys[14], "TotalNoopCount");
    assert_eq!(keys[40], "IoDriverReadyCount");
    match &entry.calls()[40] {
        EntryCall::Value(_, value) => match &value.calls[0] {
            ValueCall::Metric(m) => assert_eq!(m.observations, vec![Observation::Unsigned(27)]),
            _ => panic!("expected a metric"),
        },
        _ => panic!("expected a field"),
    }
}

#[test]
fn histogram_is_a_distribution_of_its_buckets() {
    let full = RuntimeSnapshot { unstable: Some(unstable()), ..snapshot() };
    let mut entry = BoxEntry::new();
    InflectableEntry::<KebabCase>::write(&full, &mut entry);
    assert_eq!(keys(&entry)[13], "poll-time-histogram");
    match &entry.calls()[13] {
        EntryCall::Value(_, value) => match &value.calls[0] {
            ValueCall::Metric(m) => {
                assert_eq!(m.unit, Unit::Second(NegativeScale::Micro));
                assert_eq!(
                    m.observations,
                    vec![
                        Observation::Repeated {
                            total: Float64::Bits(250.0f64.to_bits()),
                            occurrences: 5
                        },
                        Observation::Repeated {
                            total: Float64::Bits(1050.0f64.to_bits()),
                            occurrences: 3
                        },
                    ]
                );
            }
            _ => panic!("expected a metric"),
        },
        _ => panic!("expected a field"),
    }
}
