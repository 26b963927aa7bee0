//! Snapshots of the metrics of an asynchronous runtime, as entries.
//!
//! The names of the fields are in snake case unless they are restyled. Durations are written in
//! milliseconds. What is computed in floating point is taken as it comes.
use crate::close::CloseValue;
use crate::entry::{EntryCallView, EntryWriter};
use crate::inflect::InflectableEntry;
use crate::namestyle::{self, NameStyle};
use crate::value::{
    self, Float64, MetricFlag, Millis, NegativeScale, Observation, Unit, Value, ValueCallView,
    ValueWriter,
};
use vstd::prelude::*;

verus! {

/// A field of a snapshot.
pub open spec fn named_field<NS: NameStyle>(
    snake: Seq<char>,
    pascal: Seq<char>,
    kebab: Seq<char>,
    calls: Seq<ValueCallView>,
) -> EntryCallView {
    EntryCallView::Value(
        NS::prefix() + namestyle::spelling(NS::style(), snake, pascal, snake, kebab),
        calls,
    )
}

/// Writes a field of a snapshot.
fn write_field<NS: NameStyle, V: Value, W: EntryWriter>(
    snake: &str,
    pascal: &str,
    kebab: &str,
    value: &V,
    writer: &mut W,
)
    ensures
        final(writer).written() == old(writer).written().push(
            named_field::<NS>(snake@, pascal@, kebab@, value.calls()),
        ),
{
    let name = NS::inflect(snake, pascal, snake, kebab);
    writer.value(name.as_str(), value);
}

/// A bucket of a [`PollTimeHistogram`].
#[derive(Debug, Clone, Copy)]
pub struct HistogramBucket {
    /// How many polls fell into it.
    pub count: u64,
    /// What these polls took altogether, in microseconds: each counts as the middle of the range
    /// of the bucket, or as its start if the range has no end.
    pub total_micros: Float64,
}

/// How long polling a task takes, as a distribution.
#[derive(Debug, Clone)]
pub struct PollTimeHistogram {
    pub buckets: Vec<HistogramBucket>,
}

/// The observations that some buckets stand for. An empty bucket stands for none.
pub open spec fn bucket_observations(buckets: Seq<HistogramBucket>) -> Seq<Observation>
    decreases buckets.len(),
{
    if buckets.len() == 0 {
        Seq::empty()
    } else {
        let before = bucket_observations(buckets.drop_last());
        let last = buckets.last();
        if last.count > 0 {
            before.push(
                Observation::Repeated { total: last.total_micros, occurrences: last.count },
            )
        } else {
            before
        }
    }
}

/// A histogram is written as one metric, in microseconds.
impl Value for PollTimeHistogram {
    open spec fn calls(&self) -> Seq<ValueCallView> {
        seq![
            ValueCallView::Metric {
                observations: bucket_observations(self.buckets@),
                unit: Unit::Second(NegativeScale::Micro),
                dimensions: Seq::empty(),
                flags: Seq::empty(),
            },
        ]
    }

    fn write<W: ValueWriter>(&self, writer: &mut W) {
        let mut observations: Vec<Observation> = Vec::new();
        let n: usize = self.buckets.len();
        assert(self.buckets@.take(0) =~= Seq::empty());
        for i in 0..n
            invariant
                n == self.buckets.len(),
                observations@ == bucket_observations(self.buckets@.take(i as int)),
        {
            let bucket = self.buckets[i];
            assert(self.buckets@.take(i + 1).drop_last() =~= self.buckets@.take(i as int));
            if bucket.count > 0 {
                observations.push(
                    Observation::Repeated { total: bucket.total_micros, occurrences: bucket.count },
                );
            }
        }
        assert(self.buckets@.take(n as int) =~= self.buckets@);
        let dimensions: Vec<(String, String)> = Vec::new();
        let flags: Vec<MetricFlag> = Vec::new();
        writer.metric(&observations, Unit::Second(NegativeScale::Micro), &dimensions, &flags);
        proof {
            assert(value::dimension_texts(dimensions@) =~= Seq::empty());
            assert(flags@ =~= Seq::empty());
            assert(writer.received() =~= old(writer).received() + self.calls());
        }
    }
}

/// The metrics that a runtime offers only when it is built to.
#[derive(Debug, Clone)]
pub struct UnstableMetrics {
    /// How long polling a task takes on average.
    pub mean_poll_duration: Millis,
    /// The same, on the worker where it takes least.
    pub mean_poll_duration_worker_min: Millis,
    /// The same, on the worker where it takes most.
    pub mean_poll_duration_worker_max: Millis,
    /// How long polling a task takes, as a distribution.
    pub poll_time_histogram: PollTimeHistogram,
    /// How often workers have unparked and found no work.
    pub total_noop_count: u64,
    /// The same, of the worker with most.
    pub max_noop_count: u64,
    /// The same, of the worker with least.
    pub min_noop_count: u64,
    /// How many tasks workers have stolen.
    pub total_steal_count: u64,
    /// The same, of the worker with most.
    pub max_steal_count: u64,
    /// The same, of the worker with least.
    pub min_steal_count: u64,
    /// How often workers have stolen tasks.
    pub total_steal_operations: u64,
    /// The same, of the worker with most.
    pub max_steal_operations: u64,
    /// The same, of the worker with least.
    pub min_steal_operations: u64,
    /// How many tasks were scheduled from outside of the runtime.
    pub num_remote_schedules: u64,
    /// How many tasks were scheduled by workers.
    pub total_local_schedule_count: u64,
    /// The same, of the worker with most.
    pub max_local_schedule_count: u64,
    /// The same, of the worker with least.
    pub min_local_schedule_count: u64,
    /// How often local queues were full.
    pub total_overflow_count: u64,
    /// The same, of the worker with most.
    pub max_overflow_count: u64,
    /// The same, of the worker with least.
    pub min_overflow_count: u64,
    /// How often tasks were polled.
    pub total_polls_count: u64,
    /// The same, of the worker with most.
    pub max_polls_count: u64,
    /// The same, of the worker with least.
    pub min_polls_count: u64,
    /// Tasks in local queues.
    pub total_local_queue_depth: u64,
    /// The same, of the worker with most.
    pub max_local_queue_depth: u64,
    /// The same, of the worker with least.
    pub min_local_queue_depth: u64,
    /// Tasks that wait for a blocking thread.
    pub blocking_queue_depth: u64,
    /// Blocking threads.
    pub blocking_threads_count: u64,
    /// Blocking threads without work.
    pub idle_blocking_threads_count: u64,
    /// How often tasks had to yield.
    pub budget_forced_yield_count: u64,
    /// How many events of input and output were handled.
    pub io_driver_ready_count: u64,
}

impl UnstableMetrics {
    /// Fields on polling, and on workers without work.
    pub open spec fn polling_fields<NS: NameStyle>(&self) -> Seq<EntryCallView> {
        seq![
            named_field::<NS>(
                "mean_poll_duration"@,
                "MeanPollDuration"@,
                "mean-poll-duration"@,
                self.mean_poll_duration.calls(),
            ),
            named_field::<NS>(
                "mean_poll_duration_worker_min"@,
                "MeanPollDurationWorkerMin"@,
                "mean-poll-duration-worker-min"@,
                self.mean_poll_duration_worker_min.calls(),
            ),
            named_field::<NS>(
                "mean_poll_duration_worker_max"@,
                "MeanPollDurationWorkerMax"@,
                "mean-poll-duration-worker-max"@,
                self.mean_poll_duration_worker_max.calls(),
            ),
            named_field::<NS>(
                "poll_time_histogram"@,
                "PollTimeHistogram"@,
                "poll-time-histogram"@,
                self.poll_time_histogram.calls(),
            ),
            named_field::<NS>(
                "total_noop_count"@,
                "TotalNoopCount"@,
                "total-noop-count"@,
                self.total_noop_count.calls(),
            ),
            named_field::<NS>(
                "max_noop_count"@,
                "MaxNoopCount"@,
                "max-noop-count"@,
                self.max_noop_count.calls(),
            ),
            named_field::<NS>(
                "min_noop_count"@,
                "MinNoopCount"@,
                "min-noop-count"@,
                self.min_noop_count.calls(),
            ),
        ]
    }

    /// Fields on how tasks get to workers.
    pub open spec fn scheduling_fields<NS: NameStyle>(&self) -> Seq<EntryCallView> {
        seq![
            named_field::<NS>(
                "total_steal_count"@,
                "TotalStealCount"@,
                "total-steal-count"@,
                self.total_steal_count.calls(),
            ),
            named_field::<NS>(
                "max_steal_count"@,
                "MaxStealCount"@,
                "max-steal-count"@,
                self.max_steal_count.calls(),
            ),
            named_field::<NS>(
                "min_steal_count"@,
                "MinStealCount"@,
                "min-steal-count"@,
                self.min_steal_count.calls(),
            ),
            named_field::<NS>(
                "total_steal_operations"@,
                "TotalStealOperations"@,
                "total-steal-operations"@,
                self.total_steal_operations.calls(),
            ),
            named_field::<NS>(
                "max_steal_operations"@,
                "MaxStealOperations"@,
                "max-steal-operations"@,
                self.max_steal_operations.calls(),
            ),
            named_field::<NS>(
                "min_steal_operations"@,
                "MinStealOperations"@,
                "min-steal-operations"@,
                self.min_steal_operations.calls(),
            ),
            named_field::<NS>(
                "num_remote_schedules"@,
                "NumRemoteSchedules"@,
                "num-remote-schedules"@,
                self.num_remote_schedules.calls(),
            ),
            named_field::<NS>(
                "total_local_schedule_count"@,
                "TotalLocalScheduleCount"@,
                "total-local-schedule-count"@,
                self.total_local_schedule_count.calls(),
            ),
            named_field::<NS>(
                "max_local_schedule_count"@,
                "MaxLocalScheduleCount"@,
                "max-local-schedule-count"@,
                self.max_local_schedule_count.calls(),
            ),
            named_field::<NS>(
                "min_local_schedule_count"@,
                "MinLocalScheduleCount"@,
                "min-local-schedule-count"@,
                self.min_local_schedule_count.calls(),
            ),
        ]
    }

    /// Fields on queues and on polls.
    pub open spec fn queueing_fields<NS: NameStyle>(&self) -> Seq<EntryCallView> {
        seq![
            named_field::<NS>(
                "total_overflow_count"@,
                "TotalOverflowCount"@,
                "total-overflow-count"@,
                self.total_overflow_count.calls(),
            ),
            named_field::<NS>(
                "max_overflow_count"@,
                "MaxOverflowCount"@,
                "max-overflow-count"@,
                self.max_overflow_count.calls(),
            ),
            named_field::<NS>(
                "min_overflow_count"@,
                "MinOverflowCount"@,
                "min-overflow-count"@,
                self.min_overflow_count.calls(),
            ),
            named_field::<NS>(
                "total_polls_count"@,
                "TotalPollsCount"@,
                "total-polls-count"@,
                self.total_polls_count.calls(),
            ),
            named_field::<NS>(
                "max_polls_count"@,
                "MaxPollsCount"@,
                "max-polls-count"@,
                self.max_polls_count.calls(),
            ),
            named_field::<NS>(
                "min_polls_count"@,
                "MinPollsCount"@,
                "min-polls-count"@,
                self.min_polls_count.calls(),
            ),
            named_field::<NS>(
                "total_local_queue_depth"@,
                "TotalLocalQueueDepth"@,
                "total-local-queue-depth"@,
                self.total_local_queue_depth.calls(),
            ),
            named_field::<NS>(
                "max_local_queue_depth"@,
                "MaxLocalQueueDepth"@,
                "max-local-queue-depth"@,
                self.max_local_queue_depth.calls(),
            ),
            named_field::<NS>(
                "min_local_queue_depth"@,
                "MinLocalQueueDepth"@,
                "min-local-queue-depth"@,
                self.min_local_queue_depth.calls(),
            ),
        ]
    }

    /// Fields on blocking threads and on the drivers.
    pub open spec fn blocking_fields<NS: NameStyle>(&self) -> Seq<EntryCallView> {
        seq![
            named_field::<NS>(
                "blocking_queue_depth"@,
                "BlockingQueueDepth"@,
                "blocking-queue-depth"@,
                self.blocking_queue_depth.calls(),
            ),
            named_field::<NS>(
                "blocking_threads_count"@,
                "BlockingThreadsCount"@,
                "blocking-threads-count"@,
                self.blocking_threads_count.calls(),
            ),
            named_field::<NS>(
                "idle_blocking_threads_count"@,
                "IdleBlockingThreadsCount"@,
                "idle-blocking-threads-count"@,
                self.idle_blocking_threads_count.calls(),
            ),
            named_field::<NS>(
                "budget_forced_yield_count"@,
                "BudgetForcedYieldCount"@,
                "budget-forced-yield-count"@,
                self.budget_forced_yield_count.calls(),
            ),
            named_field::<NS>(
                "io_driver_ready_count"@,
                "IoDriverReadyCount"@,
                "io-driver-ready-count"@,
                self.io_driver_ready_count.calls(),
            ),
        ]
    }

    fn write_polling<NS: NameStyle, W: EntryWriter>(&self, writer: &mut W)
        ensures
            final(writer).written() == old(writer).written() + self.polling_fields::<NS>(),
    {
        write_field::<NS, Millis, W>(
            "mean_poll_duration",
            "MeanPollDuration",
            "mean-poll-duration",
            &self.mean_poll_duration,
            writer,
        );
        write_field::<NS, Millis, W>(
            "mean_poll_duration_worker_min",
            "MeanPollDurationWorkerMin",
            "mean-poll-duration-worker-min",
            &self.mean_poll_duration_worker_min,
            writer,
        );
        write_field::<NS, Millis, W>(
            "mean_poll_duration_worker_max",
            "MeanPollDurationWorkerMax",
            "mean-poll-duration-worker-max",
            &self.mean_poll_duration_worker_max,
            writer,
        );
        write_field::<NS, PollTimeHistogram, W>(
            "poll_time_histogram",
            "PollTimeHistogram",
            "poll-time-histogram",
            &self.poll_time_histogram,
            writer,
        );
        write_field::<NS, u64, W>(
            "total_noop_count",
            "TotalNoopCount",
            "total-noop-count",
            &self.total_noop_count,
            writer,
        );
        write_field::<NS, u64, W>(
            "max_noop_count",
            "MaxNoopCount",
            "max-noop-count",
            &self.max_noop_count,
            writer,
        );
        write_field::<NS, u64, W>(
            "min_noop_count",
            "MinNoopCount",
            "min-noop-count",
            &self.min_noop_count,
            writer,
        );
        assert(writer.written() =~= old(writer).written() + self.polling_fields::<NS>());
    }

    fn write_scheduling<NS: NameStyle, W: EntryWriter>(&self, writer: &mut W)
        ensures
            final(writer).written() == old(writer).written() + self.scheduling_fields::<NS>(),
    {
        write_field::<NS, u64, W>(
            "total_steal_count",
            "TotalStealCount",
            "total-steal-count",
            &self.total_steal_count,
            writer,
        );
        write_field::<NS, u64, W>(
            "max_steal_count",
            "MaxStealCount",
            "max-steal-count",
            &self.max_steal_count,
            writer,
        );
        write_field::<NS, u64, W>(
            "min_steal_count",
            "MinStealCount",
            "min-steal-count",
            &self.min_steal_count,
            writer,
        );
        write_field::<NS, u64, W>(
            "total_steal_operations",
            "TotalStealOperations",
            "total-steal-operations",
            &self.total_steal_operations,
            writer,
        );
        write_field::<NS, u64, W>(
            "max_steal_operations",
            "MaxStealOperations",
            "max-steal-operations",
            &self.max_steal_operations,
            writer,
        );
        write_field::<NS, u64, W>(
            "min_steal_operations",
            "MinStealOperations",
            "min-steal-operations",
            &self.min_steal_operations,
            writer,
        );
        write_field::<NS, u64, W>(
            "num_remote_schedules",
            "NumRemoteSchedules",
            "num-remote-schedules",
            &self.num_remote_schedules,
            writer,
        );
        write_field::<NS, u64, W>(
            "total_local_schedule_count",
            "TotalLocalScheduleCount",
            "total-local-schedule-count",
            &self.total_local_schedule_count,
            writer,
        );
        write_field::<NS, u64, W>(
            "max_local_schedule_count",
            "MaxLocalScheduleCount",
            "max-local-schedule-count",
            &self.max_local_schedule_count,
            writer,
        );
        write_field::<NS, u64, W>(
            "min_local_schedule_count",
            "MinLocalScheduleCount",
            "min-local-schedule-count",
            &self.min_local_schedule_count,
            writer,
        );
        assert(writer.written() =~= old(writer).written() + self.scheduling_fields::<NS>());
    }

    fn write_queueing<NS: NameStyle, W: EntryWriter>(&self, writer: &mut W)
        ensures
            final(writer).written() == old(writer).written() + self.queueing_fields::<NS>(),
    {
        write_field::<NS, u64, W>(
            "total_overflow_count",
            "TotalOverflowCount",
            "total-overflow-count",
            &self.total_overflow_count,
            writer,
        );
        write_field::<NS, u64, W>(
            "max_overflow_count",
            "MaxOverflowCount",
            "max-overflow-count",
            &self.max_overflow_count,
            writer,
        );
        write_field::<NS, u64, W>(
            "min_overflow_count",
            "MinOverflowCount",
            "min-overflow-count",
            &self.min_overflow_count,
            writer,
        );
        write_field::<NS, u64, W>(
            "total_polls_count",
            "TotalPollsCount",
            "total-polls-count",
            &self.total_polls_count,
            writer,
        );
        write_field::<NS, u64, W>(
            "max_polls_count",
            "MaxPollsCount",
            "max-polls-count",
            &self.max_polls_count,
            writer,
        );
        write_field::<NS, u64, W>(
            "min_polls_count",
            "MinPollsCount",
            "min-polls-count",
            &self.min_polls_count,
            writer,
        );
        write_field::<NS, u64, W>(
            "total_local_queue_depth",
            "TotalLocalQueueDepth",
            "total-local-queue-depth",
            &self.total_local_queue_depth,
            writer,
        );
        write_field::<NS, u64, W>(
            "max_local_queue_depth",
            "MaxLocalQueueDepth",
            "max-local-queue-depth",
            &self.max_local_queue_depth,
            writer,
        );
        write_field::<NS, u64, W>(
            "min_local_queue_depth",
            "MinLocalQueueDepth",
            "min-local-queue-depth",
            &self.min_local_queue_depth,
            writer,
        );
        assert(writer.written() =~= old(writer).written() + self.queueing_fields::<NS>());
    }

    fn write_blocking<NS: NameStyle, W: EntryWriter>(&self, writer: &mut W)
        ensures
            final(writer).written() == old(writer).written() + self.blocking_fields::<NS>(),
    {
        write_field::<NS, u64, W>(
            "blocking_queue_depth",
            "BlockingQueueDepth",
            "blocking-queue-depth",
            &self.blocking_queue_depth,
            writer,
        );
        write_field::<NS, u64, W>(
            "blocking_threads_count",
            "BlockingThreadsCount",
            "blocking-threads-count",
            &self.blocking_threads_count,
            writer,
        );
        write_field::<NS, u64, W>(
            "idle_blocking_threads_count",
            "IdleBlockingThreadsCount",
            "idle-blocking-threads-count",
            &self.idle_blocking_threads_count,
            writer,
        );
        write_field::<NS, u64, W>(
            "budget_forced_yield_count",
            "BudgetForcedYieldCount",
            "budget-forced-yield-count",
            &self.budget_forced_yield_count,
            writer,
        );
        write_field::<NS, u64, W>(
            "io_driver_ready_count",
            "IoDriverReadyCount",
            "io-driver-ready-count",
            &self.io_driver_ready_count,
            writer,
        );
        assert(writer.written() =~= old(writer).written() + self.blocking_fields::<NS>());
    }
}

impl<NS: NameStyle> InflectableEntry<NS> for UnstableMetrics {
    open spec fn fields(&self) -> Seq<EntryCallView> {
        self.polling_fields::<NS>() + self.scheduling_fields::<NS>() + self.queueing_fields::<NS>()
            + self.blocking_fields::<NS>()
    }

    fn write<W: EntryWriter>(&self, writer: &mut W) {
        self.write_polling::<NS, W>(writer);
        self.write_scheduling::<NS, W>(writer);
        self.write_queueing::<NS, W>(writer);
        self.write_blocking::<NS, W>(writer);
        assert(writer.written() =~= old(writer).written() + InflectableEntry::<NS>::fields(self));
    }
}

/// A snapshot of the metrics of a runtime.
#[derive(Debug, Clone)]
pub struct RuntimeSnapshot {
    /// Workers of the runtime.
    pub workers_count: u64,
    /// Tasks that are alive.
    pub live_tasks_count: u64,
    /// How often workers have parked.
    pub total_park_count: u64,
    /// How often the worker that has parked most has.
    pub max_park_count: u64,
    /// How often the worker that has parked least has.
    pub min_park_count: u64,
    /// How long workers were busy.
    pub total_busy_duration: Millis,
    /// How long the busiest worker was.
    pub max_busy_duration: Millis,
    /// How long the least busy worker was.
    pub min_busy_duration: Millis,
    /// Tasks in the global queue.
    pub global_queue_depth: u64,
    /// Time since the snapshot before.
    pub elapsed: Millis,
    /// The metrics that the runtime offers only when it is built to, if it is.
    pub unstable: Option<UnstableMetrics>,
}

impl CloseValue for RuntimeSnapshot {
    type Closed = RuntimeSnapshot;

    open spec fn closes_to(self, closed: RuntimeSnapshot) -> bool {
        closed == self
    }

    fn close(self) -> RuntimeSnapshot {
        self
    }
}

impl RuntimeSnapshot {
    /// The fields that every runtime has.
    pub open spec fn stable_fields<NS: NameStyle>(&self) -> Seq<EntryCallView> {
        seq![
            named_field::<NS>(
                "workers_count"@,
                "WorkersCount"@,
                "workers-count"@,
                self.workers_count.calls(),
            ),
            named_field::<NS>(
                "live_tasks_count"@,
                "LiveTasksCount"@,
                "live-tasks-count"@,
                self.live_tasks_count.calls(),
            ),
            named_field::<NS>(
                "total_park_count"@,
                "TotalParkCount"@,
                "total-park-count"@,
                self.total_park_count.calls(),
            ),
            named_field::<NS>(
                "max_park_count"@,
                "MaxParkCount"@,
                "max-park-count"@,
                self.max_park_count.calls(),
            ),
            named_field::<NS>(
                "min_park_count"@,
                "MinParkCount"@,
                "min-park-count"@,
                self.min_park_count.calls(),
            ),
            named_field::<NS>(
                "total_busy_duration"@,
                "TotalBusyDuration"@,
                "total-busy-duration"@,
                self.total_busy_duration.calls(),
            ),
            named_field::<NS>(
                "max_busy_duration"@,
                "MaxBusyDuration"@,
                "max-busy-duration"@,
                self.max_busy_duration.calls(),
            ),
            named_field::<NS>(
                "min_busy_duration"@,
                "MinBusyDuration"@,
                "min-busy-duration"@,
                self.min_busy_duration.calls(),
            ),
            named_field::<NS>(
                "global_queue_depth"@,
                "GlobalQueueDepth"@,
                "global-queue-depth"@,
                self.global_queue_depth.calls(),
            ),
            named_field::<NS>(
                "elapsed"@,
                "Elapsed"@,
                "elapsed"@,
                self.elapsed.calls(),
            ),
        ]
    }

    fn write_stable<NS: NameStyle, W: EntryWriter>(&self, writer: &mut W)
        ensures
            final(writer).written() == old(writer).written() + self.stable_fields::<NS>(),
    {
        write_field::<NS, u64, W>(
            "workers_count",
            "WorkersCount",
            "workers-count",
            &self.workers_count,
            writer,
        );
        write_field::<NS, u64, W>(
            "live_tasks_count",
            "LiveTasksCount",
            "live-tasks-count",
            &self.live_tasks_count,
            writer,
        );
        write_field::<NS, u64, W>(
            "total_park_count",
            "TotalParkCount",
            "total-park-count",
            &self.total_park_count,
            writer,
        );
        write_field::<NS, u64, W>(
            "max_park_count",
            "MaxParkCount",
            "max-park-count",
            &self.max_park_count,
            writer,
        );
        write_field::<NS, u64, W>(
            "min_park_count",
            "MinParkCount",
            "min-park-count",
            &self.min_park_count,
            writer,
        );
        write_field::<NS, Millis, W>(
            "total_busy_duration",
            "TotalBusyDuration",
            "total-busy-duration",
            &self.total_busy_duration,
            writer,
        );
        write_field::<NS, Millis, W>(
            "max_busy_duration",
            "MaxBusyDuration",
            "max-busy-duration",
            &self.max_busy_duration,
            writer,
        );
        write_field::<NS, Millis, W>(
            "min_busy_duration",
            "MinBusyDuration",
            "min-busy-duration",
            &self.min_busy_duration,
            writer,
        );
        write_field::<NS, u64, W>(
            "global_queue_depth",
            "GlobalQueueDepth",
            "global-queue-depth",
            &self.global_queue_depth,
            writer,
        );
        write_field::<NS, Millis, W>(
            "elapsed",
            "Elapsed",
            "elapsed",
            &self.elapsed,
            writer,
        );
        assert(writer.written() =~= old(writer).written() + self.stable_fields::<NS>());
    }
}

/// The fields that every runtime has are followed by the others.
impl<NS: NameStyle> InflectableEntry<NS> for RuntimeSnapshot {
    open spec fn fields(&self) -> Seq<EntryCallView> {
        self.stable_fields::<NS>() + match self.unstable {
            Some(unstable) => InflectableEntry::<NS>::fields(&unstable),
            None => Seq::empty(),
        }
    }

    fn write<W: EntryWriter>(&self, writer: &mut W) {
        self.write_stable::<NS, W>(writer);
        if let Some(unstable) = &self.unstable {
            InflectableEntry::<NS>::write(unstable, writer);
        }
        assert(writer.written() =~= old(writer).written() + InflectableEntry::<NS>::fields(self));
    }
}

} // verus!
