//! A handle that manages an [`AttachHandle`] alongside background [`MetricReporter`]s.
use crate::boxed_reporter::{BoxReporter, Journal};
use crate::global::{self, AttachHandle, GlobalSink, RegistryView, Shutdown};
use crate::sink::BoxEntrySink;
use vstd::prelude::*;

verus! {

/// What a reporter can be told.
#[derive(Debug, Clone, Copy, PartialEq, Eq, Structural)]
pub enum ReporterCall {
    /// To abort its task.
    Abort,
    /// To let its task run indefinitely.
    Forget,
}

/// The lifecycle of a background task that periodically collects metrics from some source and
/// appends them to a sink.
pub trait MetricReporter: Send {
    /// Which task it is.
    open spec fn task(&self) -> int {
        0
    }

    /// What it was told, oldest first.
    open spec fn told(&self) -> Seq<ReporterCall> {
        Seq::empty()
    }

    /// Aborts the task.
    fn abort(&mut self)
        ensures
            final(self).told() == old(self).told().push(ReporterCall::Abort),
            final(self).task() == old(self).task(),
    ;

    /// Detaches the reporter, so that the task runs indefinitely.
    fn forget(&mut self)
        ensures
            final(self).told() == old(self).told().push(ReporterCall::Forget),
            final(self).task() == old(self).task(),
    ;
}

/// Whether each of some reporters was told one thing more, and nothing else.
pub open spec fn all_told(
    before: Seq<BoxReporter>,
    after: Seq<BoxReporter>,
    call: ReporterCall,
) -> bool {
    &&& after.len() == before.len()
    &&& forall|i: int| 0 <= i < before.len() ==> (#[trigger] after[i]).is_after(before[i], call)
}

/// Reporters after all of them were told something, and the order in which that was done.
pub struct Told {
    pub reporters: Vec<BoxReporter>,
    pub journal: Journal,
}

impl Told {
    /// Whether this is what becomes of some reporters that are told something: each is told that
    /// one thing, and they are told one after the other, in their order.
    pub open spec fn is_after(&self, before: Seq<BoxReporter>, call: ReporterCall) -> bool {
        &&& all_told(before, self.reporters@, call)
        &&& self.journal.entries() == calls_in_order(before, call)
    }
}

/// The calls by which reporters are told something in their order, each with the reporter as it
/// was before the call.
pub open spec fn calls_in_order(before: Seq<BoxReporter>, call: ReporterCall) -> Seq<
    (BoxReporter, ReporterCall),
> {
    before.map_values(|r: BoxReporter| (r, call))
}

/// Tells all reporters something, in their order.
fn tell_all(reporters: Vec<BoxReporter>, call: ReporterCall) -> (r: Told)
    ensures
        r.is_after(reporters@, call),
{
    let ghost before = reporters@;
    let mut reporters = reporters;
    let mut journal = Journal::new();
    let n: usize = reporters.len();
    assert(journal.entries() =~= calls_in_order(before, call).take(0));
    for i in 0..n
        invariant
            n == reporters.len(),
            n == before.len(),
            forall|j: int| 0 <= j < i ==> (#[trigger] reporters@[j]).is_after(before[j], call),
            forall|j: int| i <= j < n ==> #[trigger] reporters@[j] == before[j],
            journal.entries() == calls_in_order(before, call).take(i as int),
    {
        reporters[i].tell(call, &mut journal);
        assert(calls_in_order(before, call).take(i + 1) =~= calls_in_order(before, call).take(
            i as int,
        ).push((before[i as int], call)));
    }
    assert(calls_in_order(before, call).take(n as int) =~= calls_in_order(before, call));
    Told { reporters, journal }
}

/// Wraps an [`AttachHandle`] and zero or more [`MetricReporter`]s. [`CompositeAttachHandle::drop`]
/// has to be called to stop them.
#[must_use]
pub struct CompositeAttachHandle {
    attach_handle: AttachHandle,
    reporters: Vec<BoxReporter>,
}

impl CompositeAttachHandle {
    /// The registry of the attach handle.
    pub closed spec fn registry(&self) -> int {
        self.attach_handle.registry()
    }

    /// The reporters, in the order in which they were added.
    pub closed spec fn reporters(&self) -> Seq<BoxReporter> {
        self.reporters@
    }

    /// Wraps an attach handle.
    pub fn new(attach_handle: AttachHandle) -> (r: Self)
        ensures
            r.registry() == attach_handle.registry(),
            r.reporters() == Seq::<BoxReporter>::empty(),
    {
        CompositeAttachHandle { attach_handle, reporters: Vec::new() }
    }

    /// Adds a reporter.
    pub fn add_reporter<R: MetricReporter + 'static>(&mut self, reporter: R)
        ensures
            final(self).registry() == old(self).registry(),
            final(self).reporters().len() == old(self).reporters().len() + 1,
            final(self).reporters().drop_last() == old(self).reporters(),
            final(self).reporters().last().task() == reporter.task(),
            final(self).reporters().last().told() == reporter.told(),
    {
        self.reporters.push(BoxReporter::new(reporter));
        assert(self.reporters@.drop_last() =~= old(self).reporters@);
    }

    /// Keeps the sink attached and all reporters running indefinitely. The reporters, which are
    /// handed back, no longer control their tasks.
    pub fn forget<H, F>(self, global: &mut GlobalSink<H, F>) -> (r: Told)
        requires
            old(global).state().held(self.registry()),
        ensures
            final(global).state() == old(global).state().with_registry(
                self.registry(),
                RegistryView::Forgotten(Seq::empty()),
            ),
            r.is_after(self.reporters(), ReporterCall::Forget),
    {
        self.attach_handle.forget(global);
        tell_all(self.reporters, ReporterCall::Forget)
    }

    /// A handle to the attached sink, if it is still attached.
    pub fn try_sink<H, F>(&self, global: &GlobalSink<H, F>) -> (r: Option<BoxEntrySink>)
        ensures
            match global.state().attached {
                Some(sink) => r matches Some(s) && global::sink_view(s) == global::fresh_sink(
                    sink.destination,
                ),
                None => r is None,
            },
    {
        self.attach_handle.try_sink(global)
    }

    /// Aborts all reporters, which are handed back, then begins the shutdown of the sink: what it
    /// consists of is still to be done.
    pub fn drop<H, F>(self, global: &mut GlobalSink<H, F>) -> (r: (Told, Shutdown<F>))
        requires
            old(global).state().held(self.registry()),
        ensures
            r.0.is_after(self.reporters(), ReporterCall::Abort),
            final(global).state() == old(global).state().with_registry(
                self.registry(),
                RegistryView::Gone,
            ),
            r.1.steps() == old(global).state().registries[self.registry()]->Held_0,
    {
        let told = tell_all(self.reporters, ReporterCall::Abort);
        (told, self.attach_handle.drop(global))
    }
}

} // verus!
