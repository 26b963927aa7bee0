//! How entries are handed to sinks, how flushes are waited for, and how reporters are stopped.
use crate::boxed_reporter::BoxReporter;
use crate::entry::Entry;
use crate::global::{AttachHandle, GlobalSink, RegistryView, Shutdown};
use crate::reporter::{self, CompositeAttachHandle, MetricReporter, ReporterCall, Told};
use crate::sink::{
    AnyEntrySink, AppendOnDrop, BoxEntrySink, EntrySink, FlushFuture, FlushWait, SharedSink,
};
use crate::time;
use crate::tokio_metrics_reporter::Subscribed;
use std::task::Waker;
use std::time::SystemTime;
use vstd::prelude::*;

verus! {

/// A handle of erased type leads to the buffer of the sink, and so does each clone of a handle.
/// Nothing has gone through either yet.
pub proof fn handles_lead_to_one_buffer<Q: SharedSink + Send + Sync + 'static>(
    sink: Q,
    handle: BoxEntrySink,
    clone: BoxEntrySink,
)
    requires
        call_ensures(BoxEntrySink::new::<Q>, (sink,), handle),
        call_ensures(BoxEntrySink::clone, (&handle,), clone),
    ensures
        handle.destination() == sink.buffer(),
        clone.destination() == sink.buffer(),
        handle.history().len() == 0,
        clone.history().len() == 0,
        handle.flush_history().len() == 0,
        clone.flush_history().len() == 0,
{
}

/// Appending through a handle, in either way, adds the entry to what has gone through it, requests
/// no flush, and leaves where it leads.
pub proof fn appending_adds_one_entry<E: Entry>(
    any: &mut BoxEntrySink,
    one: &mut BoxEntrySink,
    entry: E,
)
    requires
        call_ensures(<BoxEntrySink as AnyEntrySink>::append_any::<E>, (any, entry), ()),
        call_ensures(<BoxEntrySink as EntrySink<E>>::append, (one, entry), ()),
    ensures
        final(any).history() == old(any).history().push(entry.content()),
        final(any).flush_history() == old(any).flush_history(),
        final(any).destination() == old(any).destination(),
        final(one).history() == old(one).history().push(entry.content()),
        final(one).flush_history() == old(one).flush_history(),
        final(one).destination() == old(one).destination(),
{
}

/// Requesting a flush through a handle, in either way, notes how many entries came before it,
/// appends nothing, leaves where it leads, and gives what that buffer gives.
pub proof fn requesting_a_flush_appends_nothing<E: Entry>(
    any: &mut BoxEntrySink,
    one: &mut BoxEntrySink,
    wait_any: FlushWait,
    wait_one: FlushWait,
)
    requires
        call_ensures(<BoxEntrySink as AnyEntrySink>::flush_async, (any,), wait_any),
        call_ensures(<BoxEntrySink as EntrySink<E>>::flush_async, (one,), wait_one),
    ensures
        final(any).history() == old(any).history(),
        final(any).flush_history() == old(any).flush_history().push(old(any).history().len()),
        final(any).destination() == old(any).destination(),
        old(any).destination().waits.contains(wait_any),
        final(one).history() == old(one).history(),
        final(one).flush_history() == old(one).flush_history().push(old(one).history().len()),
        final(one).destination() == old(one).destination(),
        old(one).destination().waits.contains(wait_one),
{
}

/// Dropping a wrapped entry appends it, as it is then, once. Forgetting it, or taking it out, leaves
/// the sink as it is.
pub proof fn wrapped_entries_are_appended_by_dropping<E: Entry>(
    wrapped: AppendOnDrop<E, BoxEntrySink>,
    dropped: BoxEntrySink,
    forgotten: BoxEntrySink,
    taken: (E, BoxEntrySink),
)
    requires
        call_ensures(AppendOnDrop::<E, BoxEntrySink>::drop, (wrapped,), dropped),
        call_ensures(AppendOnDrop::<E, BoxEntrySink>::forget, (wrapped,), forgotten),
        call_ensures(AppendOnDrop::<E, BoxEntrySink>::into_entry, (wrapped,), taken),
    ensures
        dropped.history() == wrapped.sink().history().push(wrapped.entry().content()),
        dropped.flush_history() == wrapped.sink().flush_history(),
        dropped.destination() == wrapped.sink().destination(),
        forgotten == wrapped.sink(),
        taken.0 == wrapped.entry(),
        taken.1 == wrapped.sink(),
{
}

/// A wrapped entry can be looked at and changed without touching the sink.
pub proof fn wrapped_entries_can_be_changed<E>(
    looked_at: AppendOnDrop<E, BoxEntrySink>,
    seen: &E,
    changed: &mut AppendOnDrop<E, BoxEntrySink>,
    inside: &mut E,
)
    requires
        call_ensures(AppendOnDrop::<E, BoxEntrySink>::deref, (&looked_at,), seen),
        call_ensures(AppendOnDrop::<E, BoxEntrySink>::deref_mut, (changed,), inside),
    ensures
        *seen == looked_at.entry(),
        *old(inside) == old(changed).entry(),
        final(changed).entry() == *final(inside),
        final(changed).sink() == old(changed).sink(),
{
}

/// A wait answers what its future answers, asking it once with the waker that was given. A wait
/// without a future is done.
pub proof fn waits_answer_as_their_future<F: FlushFuture + 'static>(
    future: F,
    wait: FlushWait,
    ready: FlushWait,
    polled: &mut FlushWait,
    waker: Waker,
    answer: bool,
)
    requires
        call_ensures(FlushWait::from_future::<F>, (future,), wait),
        call_ensures(FlushWait::ready, (), ready),
        call_ensures(FlushWait::poll, (polled, &waker), answer),
    ensures
        wait.flushed() == future.done(),
        wait.answers() == Some(future.answers()),
        ready.flushed() && ready.answers() is None,
        answer == final(polled).flushed(),
        old(polled).flushed() ==> answer,
        old(polled).answers() is None ==> answer && final(polled).answers() is None,
        old(polled).answers() is Some ==> final(polled).answers() == Some(
            old(polled).answers()->0.push((waker, answer)),
        ),
{
}

/// A reporter is kept as it is when it is added, behind those that were there.
pub proof fn reporters_are_added_behind<R: MetricReporter + 'static>(
    attached: AttachHandle,
    handle: CompositeAttachHandle,
    extended: &mut CompositeAttachHandle,
    reporter: R,
)
    requires
        call_ensures(CompositeAttachHandle::new, (attached,), handle),
        call_ensures(CompositeAttachHandle::add_reporter::<R>, (extended, reporter), ()),
    ensures
        handle.registry() == attached.registry(),
        handle.reporters().len() == 0,
        final(extended).registry() == old(extended).registry(),
        final(extended).reporters().len() == old(extended).reporters().len() + 1,
        final(extended).reporters().drop_last() =~= old(extended).reporters(),
        final(extended).reporters().last().task() == reporter.task(),
        final(extended).reporters().last().told() == reporter.told(),
{
}

/// Whether all reporters were told something: each was told that one thing and is else the same,
/// and the calls were made in the order of the reporters.
pub open spec fn told_in_order(
    before: Seq<BoxReporter>,
    told: Told,
    call: ReporterCall,
) -> bool {
    let calls = told.journal.entries();
    &&& told.reporters@.len() == before.len()
    &&& calls.len() == before.len()
    &&& forall|i: int|
        0 <= i < before.len() ==> {
            &&& (#[trigger] told.reporters@[i]).task() == before[i].task()
            &&& told.reporters@[i].told() == before[i].told().push(call)
            &&& calls[i].0 == before[i]
            &&& calls[i].1 == call
        }
}

/// Dropping a composite handle aborts every reporter, once and in order, and begins the shutdown
/// with all that was registered. The sink is still attached. Forgetting one forgets every reporter,
/// once and in order, and leaves nothing to be done for the sink, which stays attached.
pub proof fn composite_handles_tell_all_reporters<H, F>(
    handle: CompositeAttachHandle,
    dropped: &mut GlobalSink<H, F>,
    forgotten: &mut GlobalSink<H, F>,
    r: (Told, Shutdown<F>),
    told: Told,
)
    requires
        old(dropped).state().held(handle.registry()),
        old(forgotten).state().held(handle.registry()),
        call_ensures(CompositeAttachHandle::drop::<H, F>, (handle, dropped), r),
        call_ensures(CompositeAttachHandle::forget::<H, F>, (handle, forgotten), told),
    ensures
        told_in_order(handle.reporters(), r.0, ReporterCall::Abort),
        told_in_order(handle.reporters(), told, ReporterCall::Forget),
        old(dropped).state().registries[handle.registry()] == RegistryView::Held(r.1.steps()),
        final(dropped).state().attached == old(dropped).state().attached,
        final(dropped).state().threads == old(dropped).state().threads,
        final(dropped).state().runtimes == old(dropped).state().runtimes,
        !final(dropped).state().reachable(handle.registry()),
        final(forgotten).state().attached == old(forgotten).state().attached,
        final(forgotten).state().threads == old(forgotten).state().threads,
        final(forgotten).state().runtimes == old(forgotten).state().runtimes,
        final(forgotten).state().registries[handle.registry()] matches RegistryView::Forgotten(
            steps,
        ) && steps.len() == 0,
{
    let before = handle.reporters();
    assert(reporter::calls_in_order(before, ReporterCall::Abort).len() == before.len());
    assert(reporter::calls_in_order(before, ReporterCall::Forget).len() == before.len());
}

/// A composite handle leads to the attached sink, whatever test sinks there are.
pub proof fn composite_handles_lead_to_the_attached_sink<H, F>(
    handle: CompositeAttachHandle,
    global: GlobalSink<H, F>,
    found: Option<BoxEntrySink>,
)
    requires
        call_ensures(CompositeAttachHandle::try_sink::<H, F>, (&handle, &global), found),
    ensures
        found is Some <==> global.state().attached is Some,
        found matches Some(sink) ==> sink.destination() == global.state().attached->0.destination
            && sink.history().len() == 0,
{
}

/// A time lies as many seconds from the epoch as asked for, on the side asked for, unless the
/// platform has no such time: then it is the epoch.
pub proof fn times_lie_where_asked_for(
    before_epoch: bool,
    secs: u64,
    r: SystemTime,
    offered: Option<SystemTime>,
    taken: SystemTime,
)
    requires
        call_ensures(time::from_epoch_secs, (before_epoch, secs), r),
        call_ensures(time::or_epoch, (offered,), taken),
    ensures
        time::epoch_nanos(r) == 0 || time::epoch_nanos(r) == if before_epoch {
            -(secs * 1_000_000_000)
        } else {
            secs * 1_000_000_000
        },
        offered matches Some(t) ==> taken == t,
        offered is None ==> time::epoch_nanos(taken) == 0,
{
}

/// There is no subscription at first, nor after the subscriptions have ended.
pub proof fn subscriptions_end(new: Subscribed, ended: &mut Subscribed)
    requires
        call_ensures(Subscribed::new, (), new),
        call_ensures(Subscribed::reset, (ended,), ()),
    ensures
        !new.active(),
        !final(ended).active(),
{
}

} // verus!
