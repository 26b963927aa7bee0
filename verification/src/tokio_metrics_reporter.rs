//! The bridge that reports the metrics of an asynchronous runtime to a global sink: periodically a
//! snapshot of them is taken and appended to the sink.
//!
//! Taking the snapshots, sleeping and running in the background are left to the caller. What is
//! decided in between is here.
use crate::close::CloseValue;
use crate::entry::{Entry, EntryCallView, EntryWriter};
use crate::global::{
    self, AttachGlobalEntrySink, Context, GlobalEntrySink, GlobalView, RegistryView, ShutdownFn,
};
use crate::inflect::InflectableEntry;
use crate::namestyle::{self, DynamicNameStyle, Identity, KebabCase, PascalCase, SnakeCase};
use crate::sink::{AnyEntrySink, BoxEntrySink};
use crate::time;
use std::time::Duration;
use vstd::prelude::*;

verus! {

/// How often a snapshot is taken unless configured otherwise, in seconds.
pub const DEFAULT_METRIC_SAMPLING_INTERVAL_SECS: u64 = 30;

/// How the bridge spells the names of the fields.
pub type MetricNameStyle = DynamicNameStyle;

/// Configures a subscription.
#[derive(Debug, Clone, Copy)]
#[non_exhaustive]
#[must_use]
pub struct TokioRuntimeMetricsConfig {
    interval: Duration,
    name_style: MetricNameStyle,
}

impl Default for TokioRuntimeMetricsConfig {
    fn default() -> (r: Self)
        ensures
            time::duration_nanos(r.interval()) == DEFAULT_METRIC_SAMPLING_INTERVAL_SECS
                * time::NANOS_PER_SEC,
            r.name_style() == MetricNameStyle::Identity,
    {
        TokioRuntimeMetricsConfig {
            interval: time::duration_from_secs(DEFAULT_METRIC_SAMPLING_INTERVAL_SECS),
            name_style: MetricNameStyle::default(),
        }
    }
}

impl TokioRuntimeMetricsConfig {
    /// How long to sleep between snapshots.
    pub closed spec fn interval(&self) -> Duration {
        self.interval
    }

    /// How to spell the names of the fields.
    pub closed spec fn name_style(&self) -> MetricNameStyle {
        self.name_style
    }

    /// The same with another interval.
    pub fn with_interval(self, interval: Duration) -> (r: Self)
        ensures
            r.interval() == interval,
            r.name_style() == self.name_style(),
    {
        TokioRuntimeMetricsConfig { interval, ..self }
    }

    /// The same with another style.
    pub fn with_name_style(self, name_style: MetricNameStyle) -> (r: Self)
        ensures
            r.interval() == self.interval(),
            r.name_style() == name_style,
    {
        TokioRuntimeMetricsConfig { name_style, ..self }
    }
}

/// An inflectable entry, rooted: written in the configured style.
pub struct RootedEntry<M> {
    pub entry: M,
    pub name_style: MetricNameStyle,
}

/// What an inflectable entry writes in a style without a prefix.
pub open spec fn styled_fields<M>(entry: &M, name_style: MetricNameStyle) -> Seq<EntryCallView> where
    M: InflectableEntry<Identity> + InflectableEntry<PascalCase> + InflectableEntry<
        SnakeCase,
    > + InflectableEntry<KebabCase>,
 {
    namestyle::spelling(
        name_style,
        InflectableEntry::<Identity>::fields(entry),
        InflectableEntry::<PascalCase>::fields(entry),
        InflectableEntry::<SnakeCase>::fields(entry),
        InflectableEntry::<KebabCase>::fields(entry),
    )
}

impl<M> Entry for RootedEntry<M> where
    M: InflectableEntry<Identity> + InflectableEntry<PascalCase> + InflectableEntry<
        SnakeCase,
    > + InflectableEntry<KebabCase>,
 {
    open spec fn content(&self) -> Seq<EntryCallView> {
        styled_fields(&self.entry, self.name_style)
    }

    fn write<W: EntryWriter>(&self, writer: &mut W) {
        match self.name_style {
            DynamicNameStyle::Identity => {
                InflectableEntry::<Identity>::write(&self.entry, writer)
            },
            DynamicNameStyle::PascalCase => {
                InflectableEntry::<PascalCase>::write(&self.entry, writer)
            },
            DynamicNameStyle::SnakeCase => {
                InflectableEntry::<SnakeCase>::write(&self.entry, writer)
            },
            DynamicNameStyle::KebabCase => {
                InflectableEntry::<KebabCase>::write(&self.entry, writer)
            },
        }
    }
}

/// What the background task has come to.
pub enum ReporterEvent<S> {
    /// It has started.
    Started,
    /// It has taken a snapshot.
    Sampled(S),
    /// There are no more snapshots.
    Exhausted,
    /// It has slept for as long as it was to.
    Slept,
}

/// What the background task is to do next.
pub enum ReporterAction {
    /// Take a snapshot.
    Sample,
    /// Sleep for so long.
    Sleep(Duration),
    /// Stop.
    Stop,
}

/// The state of the background task.
pub struct RuntimeMetricsReporter {
    sink: BoxEntrySink,
    config: TokioRuntimeMetricsConfig,
}

impl RuntimeMetricsReporter {
    /// The sink to which it appends.
    pub closed spec fn sink(&self) -> global::SinkView {
        global::sink_view(self.sink)
    }

    /// Its configuration.
    pub closed spec fn config(&self) -> TokioRuntimeMetricsConfig {
        self.config
    }

    /// A task that has not started yet.
    pub fn new(sink: BoxEntrySink, config: TokioRuntimeMetricsConfig) -> (r: Self)
        ensures
            r.sink() == global::sink_view(sink),
            r.config() == config,
    {
        RuntimeMetricsReporter { sink, config }
    }

    /// Appends a closed snapshot to the sink, in the configured style. What follows is a sleep.
    pub fn report<M>(&mut self, snapshot: M) -> (r: ReporterAction) where
        M: InflectableEntry<Identity> + InflectableEntry<PascalCase> + InflectableEntry<
            SnakeCase,
        > + InflectableEntry<KebabCase>,

        ensures
            final(self).config() == old(self).config(),
            final(self).sink() == global::with_entry(
                old(self).sink(),
                styled_fields(&snapshot, old(self).config().name_style()),
            ),
            r == ReporterAction::Sleep(old(self).config().interval()),
    {
        self.sink.append_any(
            RootedEntry { entry: snapshot, name_style: self.config.name_style },
        );
        ReporterAction::Sleep(self.config.interval)
    }

    /// Decides what comes next. Each snapshot is closed and reported before anything else.
    pub fn next<S: CloseValue>(&mut self, event: ReporterEvent<S>) -> (r: ReporterAction) where
        S::Closed: InflectableEntry<Identity> + InflectableEntry<PascalCase> + InflectableEntry<
            SnakeCase,
        > + InflectableEntry<KebabCase>,

        ensures
            proceeds(*old(self), event, *final(self), r),
    {
        match event {
            ReporterEvent::Started => ReporterAction::Sample,
            ReporterEvent::Slept => ReporterAction::Sample,
            ReporterEvent::Exhausted => ReporterAction::Stop,
            ReporterEvent::Sampled(snapshot) => {
                let closed = snapshot.close();
                self.report(closed)
            },
        }
    }
}

/// How the background task proceeds: each snapshot is closed, appended to the sink in the
/// configured style, and followed by a sleep. Anything else leaves the sink as it is.
pub open spec fn proceeds<S: CloseValue>(
    before: RuntimeMetricsReporter,
    event: ReporterEvent<S>,
    after: RuntimeMetricsReporter,
    action: ReporterAction,
) -> bool where
    S::Closed: InflectableEntry<Identity> + InflectableEntry<PascalCase> + InflectableEntry<
        SnakeCase,
    > + InflectableEntry<KebabCase>,
 {
    &&& after.config() == before.config()
    &&& match event {
        ReporterEvent::Started | ReporterEvent::Slept => action is Sample && after.sink()
            == before.sink(),
        ReporterEvent::Exhausted => action is Stop && after.sink() == before.sink(),
        ReporterEvent::Sampled(snapshot) => {
            &&& action == ReporterAction::Sleep(before.config().interval())
            &&& exists|closed: S::Closed|
                #[trigger] snapshot.closes_to(closed) && after.sink() == global::with_entry(
                    before.sink(),
                    styled_fields(&closed, before.config().name_style()),
                )
        },
    }
}

/// A sink after closed snapshots were appended to it in a style, in their order.
pub open spec fn with_reports<M>(
    sink: global::SinkView,
    closed: Seq<M>,
    name_style: MetricNameStyle,
) -> global::SinkView where
    M: InflectableEntry<Identity> + InflectableEntry<PascalCase> + InflectableEntry<
        SnakeCase,
    > + InflectableEntry<KebabCase>,
 {
    global::SinkView {
        history: sink.history + closed.map_values(|c: M| styled_fields(&c, name_style)),
        ..sink
    }
}

/// Whether `closed` is what closing the first `n` snapshots may produce.
pub open spec fn all_close_to<S: CloseValue>(
    snapshots: Seq<S>,
    n: int,
    closed: Seq<S::Closed>,
) -> bool {
    &&& closed.len() == n
    &&& forall|i: int| 0 <= i < n ==> (#[trigger] snapshots[i]).closes_to(closed[i])
}

/// A run of the background task over some snapshots. Round `i` begins in the state `states[i]`,
/// after the start or after a sleep; the task does `asked[i]`, which leads to the state
/// `between[i]`; it has then taken the snapshot at `i`, and does `slept[i]`.
pub open spec fn is_run<S: CloseValue>(
    snapshots: Seq<S>,
    states: Seq<RuntimeMetricsReporter>,
    asked: Seq<ReporterAction>,
    between: Seq<RuntimeMetricsReporter>,
    slept: Seq<ReporterAction>,
) -> bool where
    S::Closed: InflectableEntry<Identity> + InflectableEntry<PascalCase> + InflectableEntry<
        SnakeCase,
    > + InflectableEntry<KebabCase>,
 {
    &&& states.len() == snapshots.len() + 1
    &&& asked.len() == snapshots.len()
    &&& between.len() == snapshots.len()
    &&& slept.len() == snapshots.len()
    &&& forall|i: int|
        0 <= i < snapshots.len() ==> {
            &&& proceeds(
                #[trigger] states[i],
                if i == 0 {
                    ReporterEvent::<S>::Started
                } else {
                    ReporterEvent::Slept
                },
                between[i],
                asked[i],
            )
            &&& proceeds(
                between[i],
                ReporterEvent::Sampled(snapshots[i]),
                states[i + 1],
                slept[i],
            )
        }
}

/// In a run, the sink gets one entry for each snapshot, in the order of the snapshots and in the
/// configured style, and nothing else. The first snapshot is taken without a sleep before it. Each
/// is followed by a sleep of the configured interval, after which the next one is taken.
pub proof fn every_snapshot_is_reported<S: CloseValue>(
    snapshots: Seq<S>,
    states: Seq<RuntimeMetricsReporter>,
    asked: Seq<ReporterAction>,
    between: Seq<RuntimeMetricsReporter>,
    slept: Seq<ReporterAction>,
) where
    S::Closed: InflectableEntry<Identity> + InflectableEntry<PascalCase> + InflectableEntry<
        SnakeCase,
    > + InflectableEntry<KebabCase>,

    requires
        is_run(snapshots, states, asked, between, slept),
    ensures
        forall|i: int| 0 <= i < snapshots.len() ==> #[trigger] asked[i] is Sample,
        forall|i: int|
            0 <= i < snapshots.len() ==> #[trigger] slept[i] == ReporterAction::Sleep(
                states[0].config().interval(),
            ),
        states.last().config() == states[0].config(),
        exists|closed: Seq<S::Closed>|
            #[trigger] all_close_to(snapshots, snapshots.len() as int, closed)
                && states.last().sink() == with_reports(
                states[0].sink(),
                closed,
                states[0].config().name_style(),
            ),
{
    let n = snapshots.len() as int;
    assert forall|i: int| 0 <= i < n implies #[trigger] asked[i] is Sample && slept[i]
        == ReporterAction::Sleep(states[0].config().interval()) by {
        reported_up_to(snapshots, states, asked, between, slept, i);
        assert(proceeds(
            between[i],
            ReporterEvent::Sampled(snapshots[i]),
            states[i + 1],
            slept[i],
        ));
    }
    assert forall|i: int| 0 <= i < n implies #[trigger] slept[i] == ReporterAction::Sleep(
        states[0].config().interval(),
    ) by {
        assert(asked[i] is Sample);
    }
    reported_up_to(snapshots, states, asked, between, slept, n);
}

/// [`every_snapshot_is_reported`], of the first `n` snapshots.
proof fn reported_up_to<S: CloseValue>(
    snapshots: Seq<S>,
    states: Seq<RuntimeMetricsReporter>,
    asked: Seq<ReporterAction>,
    between: Seq<RuntimeMetricsReporter>,
    slept: Seq<ReporterAction>,
    n: int,
) where
    S::Closed: InflectableEntry<Identity> + InflectableEntry<PascalCase> + InflectableEntry<
        SnakeCase,
    > + InflectableEntry<KebabCase>,

    requires
        is_run(snapshots, states, asked, between, slept),
        0 <= n <= snapshots.len(),
    ensures
        states[n].config() == states[0].config(),
        exists|closed: Seq<S::Closed>|
            #[trigger] all_close_to(snapshots, n, closed) && states[n].sink() == with_reports(
                states[0].sink(),
                closed,
                states[0].config().name_style(),
            ),
    decreases n,
{
    let style = states[0].config().name_style();
    if n == 0 {
        let closed = Seq::<S::Closed>::empty();
        assert(with_reports(states[0].sink(), closed, style).history
            =~= states[0].sink().history);
        assert(all_close_to(snapshots, 0, closed));
    } else {
        let i = n - 1;
        reported_up_to(snapshots, states, asked, between, slept, i);
        let before = choose|closed: Seq<S::Closed>|
            #[trigger] all_close_to(snapshots, i, closed) && states[i].sink() == with_reports(
                states[0].sink(),
                closed,
                style,
            );
        assert(proceeds(
            between[i],
            ReporterEvent::Sampled(snapshots[i]),
            states[i + 1],
            slept[i],
        ));
        let last = choose|closed: S::Closed|
            #[trigger] snapshots[i].closes_to(closed) && states[n].sink() == global::with_entry(
                between[i].sink(),
                styled_fields(&closed, style),
            );
        let closed = before.push(last);
        assert(with_reports(states[0].sink(), closed, style).history =~= with_reports(
            states[0].sink(),
            before,
            style,
        ).history.push(styled_fields(&last, style)));
        assert(all_close_to(snapshots, n, closed));
    }
}

/// Guards against more than one subscription within one attach cycle.
#[derive(Debug)]
pub struct Subscribed(bool);

impl Subscribed {
    /// Whether there is a subscription.
    pub closed spec fn active(&self) -> bool {
        self.0
    }

    /// There is no subscription yet.
    pub fn new() -> (r: Self)
        ensures
            !r.active(),
    {
        Subscribed(false)
    }

    /// Notes a subscription. Tells whether there was one already.
    fn subscribe(&mut self) -> (r: bool)
        ensures
            r == old(self).active(),
            final(self).active(),
    {
        let before = self.0;
        self.0 = true;
        before
    }

    /// Notes that the subscriptions have ended, as a shutdown does. After that one can subscribe
    /// again.
    pub fn reset(&mut self)
        ensures
            !final(self).active(),
    {
        self.0 = false;
    }
}

/// A new subscription.
pub struct Subscription {
    /// The background task, to be started.
    pub reporter: RuntimeMetricsReporter,
    /// Whether there was a subscription already, so that metrics will be reported twice.
    pub duplicate: bool,
}

/// Subscribes the metrics of a runtime to a global sink.
pub trait AttachGlobalEntrySinkTokioMetricsExt: AttachGlobalEntrySink + GlobalEntrySink {
    /// Subscribes: makes a task that appends to the sink to which entries go, and registers `stop`,
    /// which has to stop that task, to be done after the attach handle was dropped. The shutdown
    /// then also notes that the subscription has ended. If the handle is forgotten, the task runs
    /// indefinitely.
    fn subscribe_tokio_runtime_metrics(
        &mut self,
        context: Context,
        subscribed: &mut Subscribed,
        config: TokioRuntimeMetricsConfig,
        stop: Self::Action,
    ) -> (r: Subscription)
        requires
            old(self).rendezvous().resolved(context) is Some,
            old(self).rendezvous().current is Some,
            old(self).rendezvous().held(old(self).rendezvous().current->0),
        ensures
            final(self).rendezvous() == old(self).rendezvous().registering(
                ShutdownFn::Unsubscribe(stop),
            ),
            final(subscribed).active(),
            r.duplicate == old(subscribed).active(),
            r.reporter.config() == config,
            r.reporter.sink() == global::fresh_sink(
                old(self).rendezvous().resolved(context)->0.destination,
            ),
    {
        let duplicate = subscribed.subscribe();
        let sink = self.try_sink(context).unwrap();
        self.register_unsubscribe_fn(stop);
        Subscription { reporter: RuntimeMetricsReporter::new(sink, config), duplicate }
    }
}

impl<T: AttachGlobalEntrySink + GlobalEntrySink> AttachGlobalEntrySinkTokioMetricsExt for T {

}

/// After a subscription, and whatever is registered after it, a shutdown leaves no subscription
/// and no sink, so that another sink can be attached and a subscription to it is no duplicate.
pub proof fn resubscribing_is_no_duplicate<H, F>(
    state: GlobalView<H, F>,
    registry: int,
    stop: F,
    later: Seq<ShutdownFn<F>>,
)
    requires
        global::orderly(state),
        state.held(registry),
        forall|i: int| 0 <= i < later.len() ==> !(#[trigger] later[i] is Detach),
    ensures
        ({
            let subscribed = state.registering(ShutdownFn::Unsubscribe(stop));
            let after = global::registering_all(subscribed, later);
            let steps = after.registries[registry]->Held_0;
            let begun = after.with_registry(registry, RegistryView::Gone);
            &&& after.held(registry)
            &&& !global::subscribed_after(true, steps)
            &&& global::after_steps(begun, steps).attached is None
            &&& global::orderly(global::after_steps(begun, steps))
        }),
{
    let subscribed = state.registering(ShutdownFn::Unsubscribe(stop));
    keeps_orderly(state, ShutdownFn::Unsubscribe(stop));
    let fns = state.registries[registry]->Held_0;
    assert(state.current == Some(registry));
    assert((seq![ShutdownFn::Unsubscribe(stop)] + fns)[0] is Unsubscribe);
    still_unsubscribes(subscribed, registry, later, 0);
    let after = global::registering_all(subscribed, later);
    let steps = after.registries[registry]->Held_0;
    let at = choose|i: int| 0 <= i < steps.len() && #[trigger] steps[i] is Unsubscribe;
    assert(steps[at] is Unsubscribe);
    global::shutdown_ends_subscriptions(true, steps);
    global::shutdown_detaches_last(after, registry);
}

/// Registering something other than a detachment with the handle in use keeps a state orderly.
proof fn keeps_orderly<H, F>(state: GlobalView<H, F>, f: ShutdownFn<F>)
    requires
        global::orderly(state),
        state.current is Some,
        state.held(state.current->0),
        !(f is Detach),
    ensures
        global::orderly(state.registering(f)),
{
    let context = Context { thread: 0, runtime: None };
    global::operations_keep_order(
        state,
        context,
        Seq::empty(),
        f,
        state.attached->0,
        state.join->0,
        0,
    );
}

/// A registry that holds the end of a subscription at some place still holds one after more was
/// registered.
proof fn still_unsubscribes<H, F>(
    state: GlobalView<H, F>,
    registry: int,
    later: Seq<ShutdownFn<F>>,
    at: int,
)
    requires
        global::orderly(state),
        state.held(registry),
        0 <= at < state.registries[registry]->Held_0.len(),
        state.registries[registry]->Held_0[at] is Unsubscribe,
        forall|i: int| 0 <= i < later.len() ==> !(#[trigger] later[i] is Detach),
    ensures
        ({
            let after = global::registering_all(state, later);
            &&& global::orderly(after)
            &&& after.held(registry)
            &&& exists|i: int|
                0 <= i < after.registries[registry]->Held_0.len()
                    && #[trigger] after.registries[registry]->Held_0[i] is Unsubscribe
        }),
    decreases later.len(),
{
    assert(state.current == Some(registry));
    if later.len() > 0 {
        let shorter = later.drop_last();
        assert forall|i: int| 0 <= i < shorter.len() implies !(
        #[trigger] shorter[i] is Detach) by {
            assert(shorter[i] == later[i]);
        }
        still_unsubscribes(state, registry, shorter, at);
        let before = global::registering_all(state, shorter);
        let fns = before.registries[registry]->Held_0;
        let i = choose|i: int| 0 <= i < fns.len() && #[trigger] fns[i] is Unsubscribe;
        assert(before.current == Some(registry));
        assert(!(later[later.len() - 1] is Detach));
        keeps_orderly(before, later.last());
        let more = seq![later.last()] + fns;
        assert(more[i + 1] == fns[i]);
        assert(global::registering_all(state, later).registries[registry]->Held_0 == more);
    } else {
        assert(state.registries[registry]->Held_0[at] is Unsubscribe);
    }
}

} // verus!
