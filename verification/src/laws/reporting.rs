//! What is reported of a runtime, and when.
use crate::close::CloseValue;
use crate::entry::{Entry, EntryCallView};
use crate::inflect::InflectableEntry;
use crate::namestyle::{self, Identity, KebabCase, NameStyle, PascalCase, SnakeCase};
use crate::runtime_snapshot::{
    self, HistogramBucket, PollTimeHistogram, RuntimeSnapshot, UnstableMetrics,
};
use crate::time;
use crate::tokio_metrics_reporter::{
    self, MetricNameStyle, ReporterAction, ReporterEvent, RootedEntry, RuntimeMetricsReporter,
    TokioRuntimeMetricsConfig,
};
use crate::value::{Millis, NegativeScale, Observation, Unit, Value, ValueCallView};
use std::time::Duration;
use vstd::prelude::*;

verus! {

/// The name of a field in the style `NS`. Unless restyled, it is in snake case.
pub open spec fn name<NS: NameStyle>(
    snake: Seq<char>,
    pascal: Seq<char>,
    kebab: Seq<char>,
) -> Seq<char> {
    NS::prefix() + namestyle::spelling(NS::style(), snake, pascal, snake, kebab)
}

/// Whether two lists of fields differ in the field at `at` alone, which has the same name in both
/// and writes these calls in the second.
pub open spec fn differs_in(
    before: Seq<EntryCallView>,
    after: Seq<EntryCallView>,
    name: Seq<char>,
    calls: Seq<ValueCallView>,
    at: int,
) -> bool {
    &&& after.len() == before.len()
    &&& 0 <= at < after.len()
    &&& after[at] == EntryCallView::Value(name, calls)
    &&& before[at] matches EntryCallView::Value(n, _) && n == name
    &&& forall|i: int| 0 <= i < after.len() && i != at ==> #[trigger] after[i] == before[i]
}

/// Each metric of a snapshot is written under its own name with its own value: two snapshots that
/// differ in one metric alone differ in the field of that name alone, which holds the value.
pub proof fn stable_metrics_have_their_own_fields<NS: NameStyle>(
    s: RuntimeSnapshot,
    n: u64,
    d: Millis,
)
    ensures
        differs_in(
            InflectableEntry::<NS>::fields(&s),
            InflectableEntry::<NS>::fields(&(RuntimeSnapshot { workers_count: n, ..s })),
            name::<NS>("workers_count"@, "WorkersCount"@, "workers-count"@),
            n.calls(),
            0,
        ),
        differs_in(
            InflectableEntry::<NS>::fields(&s),
            InflectableEntry::<NS>::fields(&(RuntimeSnapshot { live_tasks_count: n, ..s })),
            name::<NS>("live_tasks_count"@, "LiveTasksCount"@, "live-tasks-count"@),
            n.calls(),
            1,
        ),
        differs_in(
            InflectableEntry::<NS>::fields(&s),
            InflectableEntry::<NS>::fields(&(RuntimeSnapshot { total_park_count: n, ..s })),
            name::<NS>("total_park_count"@, "TotalParkCount"@, "total-park-count"@),
            n.calls(),
            2,
        ),
        differs_in(
            InflectableEntry::<NS>::fields(&s),
            InflectableEntry::<NS>::fields(&(RuntimeSnapshot { max_park_count: n, ..s })),
            name::<NS>("max_park_count"@, "MaxParkCount"@, "max-park-count"@),
            n.calls(),
            3,
        ),
        differs_in(
            InflectableEntry::<NS>::fields(&s),
            InflectableEntry::<NS>::fields(&(RuntimeSnapshot { min_park_count: n, ..s })),
            name::<NS>("min_park_count"@, "MinParkCount"@, "min-park-count"@),
            n.calls(),
            4,
        ),
        differs_in(
            InflectableEntry::<NS>::fields(&s),
            InflectableEntry::<NS>::fields(&(RuntimeSnapshot { total_busy_duration: d, ..s })),
            name::<NS>("total_busy_duration"@, "TotalBusyDuration"@, "total-busy-duration"@),
            d.calls(),
            5,
        ),
        differs_in(
            InflectableEntry::<NS>::fields(&s),
            InflectableEntry::<NS>::fields(&(RuntimeSnapshot { max_busy_duration: d, ..s })),
            name::<NS>("max_busy_duration"@, "MaxBusyDuration"@, "max-busy-duration"@),
            d.calls(),
            6,
        ),
        differs_in(
            InflectableEntry::<NS>::fields(&s),
            InflectableEntry::<NS>::fields(&(RuntimeSnapshot { min_busy_duration: d, ..s })),
            name::<NS>("min_busy_duration"@, "MinBusyDuration"@, "min-busy-duration"@),
            d.calls(),
            7,
        ),
        differs_in(
            InflectableEntry::<NS>::fields(&s),
            InflectableEntry::<NS>::fields(&(RuntimeSnapshot { global_queue_depth: n, ..s })),
            name::<NS>("global_queue_depth"@, "GlobalQueueDepth"@, "global-queue-depth"@),
            n.calls(),
            8,
        ),
        differs_in(
            InflectableEntry::<NS>::fields(&s),
            InflectableEntry::<NS>::fields(&(RuntimeSnapshot { elapsed: d, ..s })),
            name::<NS>("elapsed"@, "Elapsed"@, "elapsed"@),
            d.calls(),
            9,
        ),
{
}

/// Each metric on polling that a runtime offers only when it is built to is written under its own name
/// with its own value.
pub proof fn polling_metrics_have_their_own_fields<NS: NameStyle>(
    u: UnstableMetrics,
    n: u64,
    d: Millis,
    h: PollTimeHistogram,
)
    ensures
        differs_in(
            InflectableEntry::<NS>::fields(&u),
            InflectableEntry::<NS>::fields(&(UnstableMetrics { mean_poll_duration: d, ..u })),
            name::<NS>("mean_poll_duration"@, "MeanPollDuration"@, "mean-poll-duration"@),
            d.calls(),
            0,
        ),
        differs_in(
            InflectableEntry::<NS>::fields(&u),
            InflectableEntry::<NS>::fields(&(UnstableMetrics { mean_poll_duration_worker_min: d, ..u })),
            name::<NS>("mean_poll_duration_worker_min"@, "MeanPollDurationWorkerMin"@, "mean-poll-duration-worker-min"@),
            d.calls(),
            1,
        ),
        differs_in(
            InflectableEntry::<NS>::fields(&u),
            InflectableEntry::<NS>::fields(&(UnstableMetrics { mean_poll_duration_worker_max: d, ..u })),
            name::<NS>("mean_poll_duration_worker_max"@, "MeanPollDurationWorkerMax"@, "mean-poll-duration-worker-max"@),
            d.calls(),
            2,
        ),
        differs_in(
            InflectableEntry::<NS>::fields(&u),
            InflectableEntry::<NS>::fields(&(UnstableMetrics { poll_time_histogram: h, ..u })),
            name::<NS>("poll_time_histogram"@, "PollTimeHistogram"@, "poll-time-histogram"@),
            h.calls(),
            3,
        ),
        differs_in(
            InflectableEntry::<NS>::fields(&u),
            InflectableEntry::<NS>::fields(&(UnstableMetrics { total_noop_count: n, ..u })),
            name::<NS>("total_noop_count"@, "TotalNoopCount"@, "total-noop-count"@),
            n.calls(),
            4,
        ),
        differs_in(
            InflectableEntry::<NS>::fields(&u),
            InflectableEntry::<NS>::fields(&(UnstableMetrics { max_noop_count: n, ..u })),
            name::<NS>("max_noop_count"@, "MaxNoopCount"@, "max-noop-count"@),
            n.calls(),
            5,
        ),
        differs_in(
            InflectableEntry::<NS>::fields(&u),
            InflectableEntry::<NS>::fields(&(UnstableMetrics { min_noop_count: n, ..u })),
            name::<NS>("min_noop_count"@, "MinNoopCount"@, "min-noop-count"@),
            n.calls(),
            6,
        ),
{
}

/// Each metric on scheduling that a runtime offers only when it is built to is written under its own name
/// with its own value.
pub proof fn scheduling_metrics_have_their_own_fields<NS: NameStyle>(
    u: UnstableMetrics,
    n: u64,
)
    ensures
        differs_in(
            InflectableEntry::<NS>::fields(&u),
            InflectableEntry::<NS>::fields(&(UnstableMetrics { total_steal_count: n, ..u })),
            name::<NS>("total_steal_count"@, "TotalStealCount"@, "total-steal-count"@),
            n.calls(),
            7,
        ),
        differs_in(
            InflectableEntry::<NS>::fields(&u),
            InflectableEntry::<NS>::fields(&(UnstableMetrics { max_steal_count: n, ..u })),
            name::<NS>("max_steal_count"@, "MaxStealCount"@, "max-steal-count"@),
            n.calls(),
            8,
        ),
        differs_in(
            InflectableEntry::<NS>::fields(&u),
            InflectableEntry::<NS>::fields(&(UnstableMetrics { min_steal_count: n, ..u })),
            name::<NS>("min_steal_count"@, "MinStealCount"@, "min-steal-count"@),
            n.calls(),
            9,
        ),
        differs_in(
            InflectableEntry::<NS>::fields(&u),
            InflectableEntry::<NS>::fields(&(UnstableMetrics { total_steal_operations: n, ..u })),
            name::<NS>("total_steal_operations"@, "TotalStealOperations"@, "total-steal-operations"@),
            n.calls(),
            10,
        ),
        differs_in(
            InflectableEntry::<NS>::fields(&u),
            InflectableEntry::<NS>::fields(&(UnstableMetrics { max_steal_operations: n, ..u })),
            name::<NS>("max_steal_operations"@, "MaxStealOperations"@, "max-steal-operations"@),
            n.calls(),
            11,
        ),
        differs_in(
            InflectableEntry::<NS>::fields(&u),
            InflectableEntry::<NS>::fields(&(UnstableMetrics { min_steal_operations: n, ..u })),
            name::<NS>("min_steal_operations"@, "MinStealOperations"@, "min-steal-operations"@),
            n.calls(),
            12,
        ),
        differs_in(
            InflectableEntry::<NS>::fields(&u),
            InflectableEntry::<NS>::fields(&(UnstableMetrics { num_remote_schedules: n, ..u })),
            name::<NS>("num_remote_schedules"@, "NumRemoteSchedules"@, "num-remote-schedules"@),
            n.calls(),
            13,
        ),
        differs_in(
            InflectableEntry::<NS>::fields(&u),
            InflectableEntry::<NS>::fields(&(UnstableMetrics { total_local_schedule_count: n, ..u })),
            name::<NS>("total_local_schedule_count"@, "TotalLocalScheduleCount"@, "total-local-schedule-count"@),
            n.calls(),
            14,
        ),
        differs_in(
            InflectableEntry::<NS>::fields(&u),
            InflectableEntry::<NS>::fields(&(UnstableMetrics { max_local_schedule_count: n, ..u })),
            name::<NS>("max_local_schedule_count"@, "MaxLocalScheduleCount"@, "max-local-schedule-count"@),
            n.calls(),
            15,
        ),
        differs_in(
            InflectableEntry::<NS>::fields(&u),
            InflectableEntry::<NS>::fields(&(UnstableMetrics { min_local_schedule_count: n, ..u })),
            name::<NS>("min_local_schedule_count"@, "MinLocalScheduleCount"@, "min-local-schedule-count"@),
            n.calls(),
            16,
        ),
{
}

/// Each metric on queueing that a runtime offers only when it is built to is written under its own name
/// with its own value.
pub proof fn queueing_metrics_have_their_own_fields<NS: NameStyle>(
    u: UnstableMetrics,
    n: u64,
)
    ensures
        differs_in(
            InflectableEntry::<NS>::fields(&u),
            InflectableEntry::<NS>::fields(&(UnstableMetrics { total_overflow_count: n, ..u })),
            name::<NS>("total_overflow_count"@, "TotalOverflowCount"@, "total-overflow-count"@),
            n.calls(),
            17,
        ),
        differs_in(
            InflectableEntry::<NS>::fields(&u),
            InflectableEntry::<NS>::fields(&(UnstableMetrics { max_overflow_count: n, ..u })),
            name::<NS>("max_overflow_count"@, "MaxOverflowCount"@, "max-overflow-count"@),
            n.calls(),
            18,
        ),
        differs_in(
            InflectableEntry::<NS>::fields(&u),
            InflectableEntry::<NS>::fields(&(UnstableMetrics { min_overflow_count: n, ..u })),
            name::<NS>("min_overflow_count"@, "MinOverflowCount"@, "min-overflow-count"@),
            n.calls(),
            19,
        ),
        differs_in(
            InflectableEntry::<NS>::fields(&u),
            InflectableEntry::<NS>::fields(&(UnstableMetrics { total_polls_count: n, ..u })),
            name::<NS>("total_polls_count"@, "TotalPollsCount"@, "total-polls-count"@),
            n.calls(),
            20,
        ),
        differs_in(
            InflectableEntry::<NS>::fields(&u),
            InflectableEntry::<NS>::fields(&(UnstableMetrics { max_polls_count: n, ..u })),
            name::<NS>("max_polls_count"@, "MaxPollsCount"@, "max-polls-count"@),
            n.calls(),
            21,
        ),
        differs_in(
            InflectableEntry::<NS>::fields(&u),
            InflectableEntry::<NS>::fields(&(UnstableMetrics { min_polls_count: n, ..u })),
            name::<NS>("min_polls_count"@, "MinPollsCount"@, "min-polls-count"@),
            n.calls(),
            22,
        ),
        differs_in(
            InflectableEntry::<NS>::fields(&u),
            InflectableEntry::<NS>::fields(&(UnstableMetrics { total_local_queue_depth: n, ..u })),
            name::<NS>("total_local_queue_depth"@, "TotalLocalQueueDepth"@, "total-local-queue-depth"@),
            n.calls(),
            23,
        ),
        differs_in(
            InflectableEntry::<NS>::fields(&u),
            InflectableEntry::<NS>::fields(&(UnstableMetrics { max_local_queue_depth: n, ..u })),
            name::<NS>("max_local_queue_depth"@, "MaxLocalQueueDepth"@, "max-local-queue-depth"@),
            n.calls(),
            24,
        ),
        differs_in(
            InflectableEntry::<NS>::fields(&u),
            InflectableEntry::<NS>::fields(&(UnstableMetrics { min_local_queue_depth: n, ..u })),
            name::<NS>("min_local_queue_depth"@, "MinLocalQueueDepth"@, "min-local-queue-depth"@),
            n.calls(),
            25,
        ),
{
}

/// Each metric on blocking that a runtime offers only when it is built to is written under its own name
/// with its own value.
pub proof fn blocking_metrics_have_their_own_fields<NS: NameStyle>(
    u: UnstableMetrics,
    n: u64,
)
    ensures
        differs_in(
            InflectableEntry::<NS>::fields(&u),
            InflectableEntry::<NS>::fields(&(UnstableMetrics { blocking_queue_depth: n, ..u })),
            name::<NS>("blocking_queue_depth"@, "BlockingQueueDepth"@, "blocking-queue-depth"@),
            n.calls(),
            26,
        ),
        differs_in(
            InflectableEntry::<NS>::fields(&u),
            InflectableEntry::<NS>::fields(&(UnstableMetrics { blocking_threads_count: n, ..u })),
            name::<NS>("blocking_threads_count"@, "BlockingThreadsCount"@, "blocking-threads-count"@),
            n.calls(),
            27,
        ),
        differs_in(
            InflectableEntry::<NS>::fields(&u),
            InflectableEntry::<NS>::fields(&(UnstableMetrics { idle_blocking_threads_count: n, ..u })),
            name::<NS>("idle_blocking_threads_count"@, "IdleBlockingThreadsCount"@, "idle-blocking-threads-count"@),
            n.calls(),
            28,
        ),
        differs_in(
            InflectableEntry::<NS>::fields(&u),
            InflectableEntry::<NS>::fields(&(UnstableMetrics { budget_forced_yield_count: n, ..u })),
            name::<NS>("budget_forced_yield_count"@, "BudgetForcedYieldCount"@, "budget-forced-yield-count"@),
            n.calls(),
            29,
        ),
        differs_in(
            InflectableEntry::<NS>::fields(&u),
            InflectableEntry::<NS>::fields(&(UnstableMetrics { io_driver_ready_count: n, ..u })),
            name::<NS>("io_driver_ready_count"@, "IoDriverReadyCount"@, "io-driver-ready-count"@),
            n.calls(),
            30,
        ),
{
}

/// A snapshot writes the metrics that every runtime has, and then those that it offers only when
/// it is built to, if there are any. Closing it changes nothing of it.
pub proof fn snapshots_write_all_metrics<NS: NameStyle>(
    s: RuntimeSnapshot,
    u: UnstableMetrics,
    closed: RuntimeSnapshot,
    at: int,
)
    requires
        call_ensures(<RuntimeSnapshot as CloseValue>::close, (s,), closed),
    ensures
        closed == s,
        ({
            let without = InflectableEntry::<NS>::fields(&(RuntimeSnapshot { unstable: None, ..s }));
            let with = InflectableEntry::<NS>::fields(
                &(RuntimeSnapshot { unstable: Some(u), ..s }),
            );
            let more = InflectableEntry::<NS>::fields(&u);
            &&& without.len() == 10
            &&& more.len() == 31
            &&& with.len() == without.len() + more.len()
            &&& 0 <= at < without.len() ==> with[at] == without[at]
            &&& 0 <= at < more.len() ==> with[without.len() + at] == more[at]
        }),
{
}

/// Which buckets of a histogram are not empty.
pub open spec fn filled() -> spec_fn(HistogramBucket) -> bool {
    |bucket: HistogramBucket| bucket.count > 0
}

/// A histogram is one metric in microseconds. It has an observation for each bucket that is not
/// empty, in the order of the buckets, with the count and the total of that bucket.
pub proof fn histograms_hold_their_filled_buckets(histogram: PollTimeHistogram, at: int)
    ensures
        histogram.calls().len() == 1,
        histogram.calls()[0] matches ValueCallView::Metric {
            observations,
            unit,
            dimensions,
            flags,
        } && {
            let buckets = histogram.buckets@.filter(filled());
            &&& unit == Unit::Second(NegativeScale::Micro)
            &&& dimensions.len() == 0
            &&& flags.len() == 0
            &&& observations.len() == buckets.len()
            &&& 0 <= at < buckets.len() ==> observations[at] == (Observation::Repeated {
                total: buckets[at].total_micros,
                occurrences: buckets[at].count,
            })
        },
{
    buckets_are_chosen(histogram.buckets@, at);
}

/// The observations of some buckets are those of the buckets that are not empty.
proof fn buckets_are_chosen(buckets: Seq<HistogramBucket>, at: int)
    ensures
        ({
            let observations = runtime_snapshot::bucket_observations(buckets);
            let chosen = buckets.filter(filled());
            &&& observations.len() == chosen.len()
            &&& 0 <= at < chosen.len() ==> observations[at] == (Observation::Repeated {
                total: chosen[at].total_micros,
                occurrences: chosen[at].count,
            })
        }),
    decreases buckets.len(),
{
    reveal(Seq::filter);
    if buckets.len() > 0 {
        buckets_are_chosen(buckets.drop_last(), at);
    }
}

/// A rooted entry is written in the configured style, without a prefix.
pub proof fn rooted_entries_are_written_in_their_style<M>(entry: M) where
    M: InflectableEntry<Identity> + InflectableEntry<PascalCase> + InflectableEntry<
        SnakeCase,
    > + InflectableEntry<KebabCase>,

    ensures
        (RootedEntry { entry, name_style: MetricNameStyle::Identity }).content()
            == InflectableEntry::<Identity>::fields(&entry),
        (RootedEntry { entry, name_style: MetricNameStyle::PascalCase }).content()
            == InflectableEntry::<PascalCase>::fields(&entry),
        (RootedEntry { entry, name_style: MetricNameStyle::SnakeCase }).content()
            == InflectableEntry::<SnakeCase>::fields(&entry),
        (RootedEntry { entry, name_style: MetricNameStyle::KebabCase }).content()
            == InflectableEntry::<KebabCase>::fields(&entry),
{
}

/// Reporting a snapshot appends to the sink one entry, which is the snapshot in the configured
/// style, and requests no flush. What follows is a sleep of the configured interval.
pub proof fn reports_append_one_entry<M>(
    reporter: &mut RuntimeMetricsReporter,
    snapshot: M,
    action: ReporterAction,
) where
    M: InflectableEntry<Identity> + InflectableEntry<PascalCase> + InflectableEntry<
        SnakeCase,
    > + InflectableEntry<KebabCase>,

    requires
        call_ensures(RuntimeMetricsReporter::report::<M>, (reporter, snapshot), action),
    ensures
        ({
            let before = old(reporter).sink();
            let after = final(reporter).sink();
            let style = old(reporter).config().name_style();
            &&& final(reporter).config() == old(reporter).config()
            &&& action == ReporterAction::Sleep(old(reporter).config().interval())
            &&& after.destination == before.destination
            &&& after.flushes == before.flushes
            &&& after.history.len() == before.history.len() + 1
            &&& after.history.drop_last() =~= before.history
            &&& style is Identity ==> after.history.last() == InflectableEntry::<Identity>::fields(
                &snapshot,
            )
            &&& style is PascalCase ==> after.history.last() == InflectableEntry::<
                PascalCase,
            >::fields(&snapshot)
            &&& style is SnakeCase ==> after.history.last() == InflectableEntry::<
                SnakeCase,
            >::fields(&snapshot)
            &&& style is KebabCase ==> after.history.last() == InflectableEntry::<
                KebabCase,
            >::fields(&snapshot)
        }),
{
}

/// The task takes a snapshot when it has started and whenever it has slept, and stops when there
/// are no more. Neither appends anything. A snapshot is closed, appended and followed by a sleep.
pub proof fn the_task_samples_then_sleeps<S: CloseValue>(
    reporter: &mut RuntimeMetricsReporter,
    event: ReporterEvent<S>,
    action: ReporterAction,
) where
    S::Closed: InflectableEntry<Identity> + InflectableEntry<PascalCase> + InflectableEntry<
        SnakeCase,
    > + InflectableEntry<KebabCase>,

    requires
        call_ensures(RuntimeMetricsReporter::next::<S>, (reporter, event), action),
    ensures
        final(reporter).config() == old(reporter).config(),
        event is Started || event is Slept ==> action is Sample && final(reporter).sink()
            == old(reporter).sink(),
        event is Exhausted ==> action is Stop && final(reporter).sink() == old(reporter).sink(),
        event matches ReporterEvent::Sampled(snapshot) ==> {
            &&& action == ReporterAction::Sleep(old(reporter).config().interval())
            &&& final(reporter).sink().history.len() == old(reporter).sink().history.len() + 1
            &&& final(reporter).sink().history.drop_last() =~= old(reporter).sink().history
            &&& final(reporter).sink().flushes == old(reporter).sink().flushes
            &&& final(reporter).sink().destination == old(reporter).sink().destination
            &&& exists|closed: S::Closed|
                #[trigger] snapshot.closes_to(closed) && final(reporter).sink().history.last()
                    == (RootedEntry {
                    entry: closed,
                    name_style: old(reporter).config().name_style(),
                }).content()
        },
{
    if let ReporterEvent::Sampled(snapshot) = event {
        let style = old(reporter).config().name_style();
        let closed = choose|closed: S::Closed|
            #[trigger] snapshot.closes_to(closed) && final(reporter).sink()
                == crate::global::with_entry(
                old(reporter).sink(),
                tokio_metrics_reporter::styled_fields(&closed, style),
            );
        assert(snapshot.closes_to(closed));
        assert(final(reporter).sink().history.last() == (RootedEntry {
            entry: closed,
            name_style: style,
        }).content());
    }
}

/// Each of the two settings is set by its own function, which leaves the other.
pub proof fn settings_are_set_one_by_one(
    config: TokioRuntimeMetricsConfig,
    interval: Duration,
    style: MetricNameStyle,
    with_interval: TokioRuntimeMetricsConfig,
    with_style: TokioRuntimeMetricsConfig,
)
    requires
        call_ensures(
            TokioRuntimeMetricsConfig::with_interval,
            (config, interval),
            with_interval,
        ),
        call_ensures(TokioRuntimeMetricsConfig::with_name_style, (config, style), with_style),
    ensures
        with_interval.interval() == interval,
        with_interval.name_style() == config.name_style(),
        with_style.name_style() == style,
        with_style.interval() == config.interval(),
{
}

/// Unless configured otherwise, a snapshot is taken every thirty seconds, and names are kept.
pub proof fn the_default_is_half_a_minute(config: TokioRuntimeMetricsConfig)
    requires
        call_ensures(<TokioRuntimeMetricsConfig as Default>::default, (), config),
    ensures
        time::duration_nanos(config.interval()) == 30 * 1_000_000_000,
        config.name_style() is Identity,
{
}

} // verus!
