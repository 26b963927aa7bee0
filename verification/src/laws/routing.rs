//! To which sink entries go, and what attaching, test sinks and the shutdown change of that.
use crate::entry::{Entry, EntryCallView};
use crate::global::{
    self, AttachGlobalEntrySink, AttachHandle, Context, GlobalEntrySink, GlobalSink, GlobalView,
    LazySink, Registration, RegistryView, Shutdown, ShutdownFn, ShutdownStep, SinkView,
    ThreadLocalTestSinkGuard, TokioRuntimeTestSinkGuard,
};
use crate::sink::{AppendOnDrop, BoxEntrySink, Buffer, FlushWait, SharedSink};
use crate::tokio_metrics_reporter::{
    AttachGlobalEntrySinkTokioMetricsExt, Subscribed, Subscription, TokioRuntimeMetricsConfig,
};
use vstd::prelude::*;

verus! {

/// Whether a sink has one entry more, and nothing else of it has changed.
pub open spec fn has_one_more(before: SinkView, after: SinkView, entry: Seq<EntryCallView>) -> bool {
    &&& after.history.len() == before.history.len() + 1
    &&& after.history.drop_last() =~= before.history
    &&& after.history.last() == entry
    &&& after.destination == before.destination
    &&& after.flushes == before.flushes
}

/// Whether the caller's thread has a test sink.
pub open spec fn on_thread<H, F>(state: GlobalView<H, F>, context: Context) -> bool {
    state.threads.contains_key(context.thread)
}

/// Whether the caller's runtime has a test sink.
pub open spec fn on_runtime<H, F>(state: GlobalView<H, F>, context: Context) -> bool {
    context.runtime matches Some(runtime) && state.runtimes.contains_key(runtime)
}

/// Whether an entry has arrived where it has to: at the test sink of the thread if there is one,
/// else at that of the runtime if there is one, else at the attached sink if there is one, and else
/// nowhere. Nothing else has changed.
pub open spec fn has_arrived<H, F>(
    before: GlobalView<H, F>,
    after: GlobalView<H, F>,
    context: Context,
    entry: Seq<EntryCallView>,
) -> bool {
    &&& after.join == before.join
    &&& after.registries == before.registries
    &&& after.current == before.current
    &&& after.threads.dom() =~= before.threads.dom()
    &&& after.runtimes.dom() =~= before.runtimes.dom()
    &&& forall|n: u64| #[trigger]
        before.threads.contains_key(n) ==> if n == context.thread {
            has_one_more(before.threads[n], after.threads[n], entry)
        } else {
            after.threads[n] == before.threads[n]
        }
    &&& forall|n: u64| #[trigger]
        before.runtimes.contains_key(n) ==> if !on_thread(before, context) && context.runtime
            == Some(n) {
            has_one_more(before.runtimes[n], after.runtimes[n], entry)
        } else {
            after.runtimes[n] == before.runtimes[n]
        }
    &&& after.attached is Some <==> before.attached is Some
    &&& before.attached is Some ==> if on_thread(before, context) || on_runtime(before, context) {
        after.attached == before.attached
    } else {
        has_one_more(before.attached->0, after.attached->0, entry)
    }
}

/// If a sink is attached, an entry resolves to some sink, whoever asks. If neither the caller's
/// thread nor its runtime has a test sink, it resolves to the attached one, whatever the thread and
/// the runtime. A test sink of the thread comes first, one of the runtime second.
pub proof fn an_attached_sink_is_always_reached<H, F>(state: GlobalView<H, F>, context: Context)
    ensures
        state.attached is Some ==> state.resolved(context) is Some,
        !state.threads.contains_key(context.thread) && (context.runtime is None
            || !state.runtimes.contains_key(context.runtime->0)) ==> state.resolved(context)
            == state.attached,
        state.threads.contains_key(context.thread) ==> state.resolved(context) == Some(
            state.threads[context.thread],
        ),
        !state.threads.contains_key(context.thread) && context.runtime is Some
            && state.runtimes.contains_key(context.runtime->0) ==> state.resolved(context) == Some(
            state.runtimes[context.runtime->0],
        ),
{
}

/// Two callers on threads and runtimes without a test sink reach the same sink.
pub proof fn callers_without_test_sinks_reach_the_same_sink<H, F>(
    state: GlobalView<H, F>,
    a: Context,
    b: Context,
)
    requires
        !on_thread(state, a) && !on_runtime(state, a),
        !on_thread(state, b) && !on_runtime(state, b),
    ensures
        state.resolved(a) == state.resolved(b),
        state.resolved(a) == state.attached,
{
}

/// Appending hands the entry over to the sink that it has to arrive at, and hands it back if and
/// only if there is none: no test sink of the thread or the runtime, and no attached sink.
pub proof fn appended_entries_arrive<H, F, E: Entry>(
    global: &mut GlobalSink<H, F>,
    context: Context,
    entry: E,
    r: Result<(), E>,
)
    requires
        call_ensures(
            <GlobalSink<H, F> as AttachGlobalEntrySink>::try_append::<E>,
            (global, context, entry),
            r,
        ),
    ensures
        has_arrived(old(global).state(), final(global).state(), context, entry.content()),
        r is Err <==> !on_thread(old(global).state(), context) && !on_runtime(
            old(global).state(),
            context,
        ) && old(global).state().attached is None,
        r matches Err(e) ==> e == entry && final(global).state() == old(global).state(),
{
}

/// An entry arrives in the same way when it must, when it is appended lazily, and when a lazily
/// wrapped entry is dropped.
pub proof fn entries_arrive_in_every_way<H, F, E: Entry>(
    must: &mut GlobalSink<H, F>,
    lazy: &mut GlobalSink<H, F>,
    dropped: &mut GlobalSink<H, F>,
    context: Context,
    entry: E,
    sink: LazySink,
    wrapped: AppendOnDrop<E, LazySink>,
)
    requires
        old(must).state().resolved(context) is Some,
        call_ensures(
            <GlobalSink<H, F> as GlobalEntrySink>::append::<E>,
            (must, context, entry),
            (),
        ),
        call_ensures(
            LazySink::append::<GlobalSink<H, F>, E>,
            (&sink, lazy, context, entry),
            (),
        ),
        call_ensures(
            AppendOnDrop::<E, LazySink>::drop_into::<GlobalSink<H, F>>,
            (wrapped, dropped, context),
            (),
        ),
    ensures
        has_arrived(old(must).state(), final(must).state(), context, entry.content()),
        has_arrived(old(lazy).state(), final(lazy).state(), context, entry.content()),
        has_arrived(
            old(dropped).state(),
            final(dropped).state(),
            context,
            wrapped.entry().content(),
        ),
{
}

/// A look-up finds a fresh handle to the buffer of the sink at which an entry would arrive, and
/// nothing if and only if an entry would not arrive anywhere.
pub proof fn look_ups_find_where_entries_arrive<H, F>(
    global: GlobalSink<H, F>,
    context: Context,
    found: Option<BoxEntrySink>,
    attached: bool,
)
    requires
        call_ensures(
            <GlobalSink<H, F> as AttachGlobalEntrySink>::try_sink,
            (&global, context),
            found,
        ),
        call_ensures(
            <GlobalSink<H, F> as AttachGlobalEntrySink>::is_attached,
            (&global, context),
            attached,
        ),
    ensures
        attached <==> found is Some,
        found is Some <==> on_thread(global.state(), context) || on_runtime(global.state(), context)
            || global.state().attached is Some,
        found matches Some(sink) ==> {
            &&& sink.history().len() == 0
            &&& sink.flush_history().len() == 0
            &&& sink.destination() == if on_thread(global.state(), context) {
                global.state().threads[context.thread].destination
            } else if on_runtime(global.state(), context) {
                global.state().runtimes[context.runtime->0].destination
            } else {
                global.state().attached->0.destination
            }
        },
{
}

/// A sink that must be found is the one that a look-up finds.
pub proof fn the_sink_is_where_look_ups_lead<H, F>(
    global: GlobalSink<H, F>,
    context: Context,
    sink: BoxEntrySink,
)
    requires
        global.state().resolved(context) is Some,
        call_ensures(<GlobalSink<H, F> as GlobalEntrySink>::sink, (&global, context), sink),
    ensures
        sink.history().len() == 0,
        sink.flush_history().len() == 0,
        sink.destination() == if on_thread(global.state(), context) {
            global.state().threads[context.thread].destination
        } else if on_runtime(global.state(), context) {
            global.state().runtimes[context.runtime->0].destination
        } else {
            global.state().attached->0.destination
        },
{
}

/// A fresh sink leads to its buffer, with nothing appended and nothing requested yet. A sink with
/// an entry more has that entry last, and is else the same.
pub proof fn views_of_sinks_are_what_they_say(
    sink: BoxEntrySink,
    view: SinkView,
    buffer: Buffer,
    entry: Seq<EntryCallView>,
)
    ensures
        global::sink_view(sink).destination == sink.destination(),
        global::sink_view(sink).history == sink.history(),
        global::sink_view(sink).flushes == sink.flush_history(),
        global::fresh_sink(buffer).destination == buffer,
        global::fresh_sink(buffer).history.len() == 0,
        global::fresh_sink(buffer).flushes.len() == 0,
        has_one_more(view, global::with_entry(view, entry), entry),
{
}

/// An entry goes to the sink that a look-up has found, and back to the caller if it found none. A
/// flush is requested of that sink, and is done at once if there is none.
pub proof fn what_was_found_is_used<E: Entry>(
    found: Option<BoxEntrySink>,
    entry: E,
    r: Result<BoxEntrySink, E>,
    wait: FlushWait,
)
    requires
        call_ensures(global::append_to_found::<E>, (found, entry), r),
        call_ensures(global::flush_found, (found,), wait),
    ensures
        r is Ok <==> found is Some,
        r matches Err(e) ==> e == entry,
        found is Some ==> {
            &&& r->Ok_0.history() == found->0.history().push(entry.content())
            &&& r->Ok_0.flush_history() == found->0.flush_history()
            &&& r->Ok_0.destination() == found->0.destination()
            &&& found->0.destination().waits.contains(wait)
        },
        found is None ==> wait.flushed(),
{
}

/// A lazy flush is one of the sink at which an entry would arrive, and is done at once if it would
/// not arrive anywhere.
pub proof fn lazy_flushes_go_where_entries_arrive<H, F>(
    global: GlobalSink<H, F>,
    context: Context,
    sink: LazySink,
    wait: FlushWait,
)
    requires
        call_ensures(
            LazySink::flush_async::<GlobalSink<H, F>>,
            (&sink, &global, context),
            wait,
        ),
    ensures
        on_thread(global.state(), context)
            ==> global.state().threads[context.thread].destination.waits.contains(wait),
        !on_thread(global.state(), context) && on_runtime(global.state(), context)
            ==> global.state().runtimes[context.runtime->0].destination.waits.contains(wait),
        !on_thread(global.state(), context) && !on_runtime(global.state(), context)
            && global.state().attached is Some
            ==> global.state().attached->0.destination.waits.contains(wait),
        !on_thread(global.state(), context) && !on_runtime(global.state(), context)
            && global.state().attached is None ==> wait.flushed(),
{
}

/// Attaching makes the given sink the attached one, with nothing appended to it yet, and keeps what
/// came with it. Test sinks and the registries of earlier handles stay. The new handle has a
/// registry of its own, in which nothing but the detachment stands.
pub proof fn attaching_attaches<H, F, Q: SharedSink + Send + Sync + 'static>(
    global: &mut GlobalSink<H, F>,
    queue: Q,
    join: H,
    handle: AttachHandle,
)
    requires
        old(global).state().attached is None,
        call_ensures(
            <GlobalSink<H, F> as AttachGlobalEntrySink>::attach::<Q>,
            (global, (queue, join)),
            handle,
        ),
    ensures
        ({
            let before = old(global).state();
            let after = final(global).state();
            let registry = handle.registry();
            &&& after.attached matches Some(sink) && sink.destination == queue.buffer()
                && sink.history.len() == 0 && sink.flushes.len() == 0
            &&& after.join == Some(join)
            &&& after.threads == before.threads
            &&& after.runtimes == before.runtimes
            &&& after.current == Some(registry)
            &&& after.registries.len() == before.registries.len() + 1
            &&& registry == before.registries.len()
            &&& after.registries.drop_last() =~= before.registries
            &&& after.registries[registry] matches RegistryView::Held(steps) && steps.len() == 1
                && steps[0] is Detach
        }),
{
    let pair = (queue, join);
    assert(final(global).rendezvous() == old(global).rendezvous().attaching(pair.0.buffer(), pair.1));
}

/// Whether only one registry may have changed.
pub open spec fn only_registry_changed<H, F>(
    before: GlobalView<H, F>,
    after: GlobalView<H, F>,
    registry: int,
) -> bool {
    &&& after.attached == before.attached
    &&& after.join == before.join
    &&& after.threads == before.threads
    &&& after.runtimes == before.runtimes
    &&& after.current == before.current
    &&& after.registries.len() == before.registries.len()
    &&& forall|i: int|
        0 <= i < before.registries.len() && i != registry ==> #[trigger] after.registries[i]
            == before.registries[i]
}

/// Registering puts something before all else in the registry of the sink that was attached last,
/// and leaves the rest of it in its order.
pub proof fn registering_goes_first<H, F>(
    called: &mut GlobalSink<H, F>,
    unsubscribed: &mut GlobalSink<H, F>,
    f: F,
    at: int,
)
    requires
        old(called).state().current is Some,
        old(called).state().held(old(called).state().current->0),
        old(unsubscribed).state().current is Some,
        old(unsubscribed).state().held(old(unsubscribed).state().current->0),
        call_ensures(
            <GlobalSink<H, F> as AttachGlobalEntrySink>::register_shutdown_fn,
            (called, f),
            (),
        ),
        call_ensures(
            <GlobalSink<H, F> as AttachGlobalEntrySink>::register_unsubscribe_fn,
            (unsubscribed, f),
            (),
        ),
    ensures
        ({
            let c = old(called).state().current->0;
            let before = old(called).state().registries[c]->Held_0;
            &&& only_registry_changed(old(called).state(), final(called).state(), c)
            &&& final(called).state().registries[c] matches RegistryView::Held(after) && {
                &&& after.len() == before.len() + 1
                &&& after[0] == ShutdownFn::Call(f)
                &&& 0 <= at < before.len() ==> after[at + 1] == before[at]
            }
        }),
        ({
            let c = old(unsubscribed).state().current->0;
            let before = old(unsubscribed).state().registries[c]->Held_0;
            &&& only_registry_changed(old(unsubscribed).state(), final(unsubscribed).state(), c)
            &&& final(unsubscribed).state().registries[c] matches RegistryView::Held(after) && {
                &&& after.len() == before.len() + 1
                &&& after[0] == ShutdownFn::Unsubscribe(f)
                &&& 0 <= at < before.len() ==> after[at + 1] == before[at]
            }
        }),
{
    assert(final(called).rendezvous() == old(called).rendezvous().registering(ShutdownFn::Call(f)));
    assert(final(unsubscribed).rendezvous() == old(unsubscribed).rendezvous().registering(
        ShutdownFn::Unsubscribe(f),
    ));
}

/// What is registered with a forgotten handle never becomes part of a shutdown: the registry stays
/// forgotten.
pub proof fn forgotten_registries_stay_forgotten<H, F>(global: &mut GlobalSink<H, F>, f: F)
    requires
        old(global).state().current is Some,
        old(global).state().reachable(old(global).state().current->0),
        !old(global).state().held(old(global).state().current->0),
        call_ensures(
            <GlobalSink<H, F> as AttachGlobalEntrySink>::register_shutdown_fn,
            (global, f),
            (),
        ),
    ensures
        only_registry_changed(
            old(global).state(),
            final(global).state(),
            old(global).state().current->0,
        ),
        !final(global).state().held(old(global).state().current->0),
        final(global).state().reachable(old(global).state().current->0),
{
    assert(final(global).rendezvous() == old(global).rendezvous().registering(ShutdownFn::Call(f)));
}

/// Dropping a handle hands out all that was registered with it, in its order, and leaves the
/// registry unreachable. Nothing else changes: in particular the sink is still attached.
pub proof fn dropping_a_handle_begins_the_shutdown<H, F>(
    handle: AttachHandle,
    global: &mut GlobalSink<H, F>,
    shutdown: Shutdown<F>,
)
    requires
        old(global).state().held(handle.registry()),
        call_ensures(AttachHandle::drop::<H, F>, (handle, global), shutdown),
    ensures
        only_registry_changed(old(global).state(), final(global).state(), handle.registry()),
        !final(global).state().reachable(handle.registry()),
        old(global).state().registries[handle.registry()] == RegistryView::Held(shutdown.steps()),
{
}

/// Forgetting a handle leaves nothing to be done with it. Nothing else changes: in particular the
/// sink is still attached.
pub proof fn forgetting_a_handle_ends_it<H, F>(handle: AttachHandle, global: &mut GlobalSink<H, F>)
    requires
        old(global).state().held(handle.registry()),
        call_ensures(AttachHandle::forget::<H, F>, (handle, global), ()),
    ensures
        only_registry_changed(old(global).state(), final(global).state(), handle.registry()),
        !final(global).state().held(handle.registry()),
        final(global).state().registries[handle.registry()] matches RegistryView::Forgotten(steps)
            && steps.len() == 0,
{
}

/// Each step of a shutdown takes the first of what is still to be done. A detachment leaves no sink
/// attached and hands out what was kept; anything else leaves the global sink as it is and is
/// handed to the caller. Only the end of a subscription changes whether there is one.
pub proof fn shutdowns_go_step_by_step<H, F>(
    shutdown: &mut Shutdown<F>,
    global: &mut GlobalSink<H, F>,
    subscribed: &mut Subscribed,
    r: Option<ShutdownStep<H, F>>,
)
    requires
        call_ensures(Shutdown::<F>::step::<H>, (shutdown, global, subscribed), r),
    ensures
        r is None <==> old(shutdown).steps().len() == 0,
        r is None ==> final(global).state() == old(global).state() && final(subscribed).active()
            == old(subscribed).active() && final(shutdown).steps().len() == 0,
        r matches Some(step) ==> {
            let first = old(shutdown).steps()[0];
            let before = old(global).state();
            let after = final(global).state();
            &&& old(shutdown).steps() =~= seq![first] + final(shutdown).steps()
            &&& after.threads == before.threads
            &&& after.runtimes == before.runtimes
            &&& after.registries == before.registries
            &&& after.current == before.current
            &&& match step {
                ShutdownStep::Detached(join) => first is Detach && join == before.join
                    && after.attached is None && after.join is None,
                ShutdownStep::Call(f) => (first == ShutdownFn::Call(f) || first
                    == ShutdownFn::Unsubscribe(f)) && after.attached == before.attached
                    && after.join == before.join,
            }
            &&& final(subscribed).active() == (old(subscribed).active() && !(first is Unsubscribe))
        },
{
    if old(shutdown).steps().len() > 0 {
        let steps = old(shutdown).steps();
        assert(seq![steps[0]] + steps.drop_first() =~= steps);
    }
}

/// Whether only the test sink of one thread may have changed.
pub open spec fn only_thread_changed<H, F>(
    before: GlobalView<H, F>,
    after: GlobalView<H, F>,
    thread: u64,
) -> bool {
    &&& after.attached == before.attached
    &&& after.join == before.join
    &&& after.runtimes == before.runtimes
    &&& after.registries == before.registries
    &&& after.current == before.current
    &&& forall|n: u64|
        n != thread ==> (#[trigger] after.threads.contains_key(n) <==> before.threads.contains_key(
            n,
        ))
    &&& forall|n: u64|
        n != thread && before.threads.contains_key(n) ==> #[trigger] after.threads[n]
            == before.threads[n]
}

/// Whether only the test sink of one runtime may have changed.
pub open spec fn only_runtime_changed<H, F>(
    before: GlobalView<H, F>,
    after: GlobalView<H, F>,
    runtime: u64,
) -> bool {
    &&& after.attached == before.attached
    &&& after.join == before.join
    &&& after.threads == before.threads
    &&& after.registries == before.registries
    &&& after.current == before.current
    &&& forall|n: u64|
        n != runtime ==> (#[trigger] after.runtimes.contains_key(n)
            <==> before.runtimes.contains_key(n))
    &&& forall|n: u64|
        n != runtime && before.runtimes.contains_key(n) ==> #[trigger] after.runtimes[n]
            == before.runtimes[n]
}

/// Installing a test sink on a thread puts that sink there and changes nothing else. Dropping the
/// guard takes it away and changes nothing else.
pub proof fn thread_sinks_come_and_go<H, F>(
    installed: &mut GlobalSink<H, F>,
    removed: &mut GlobalSink<H, F>,
    context: Context,
    sink: BoxEntrySink,
    guard: ThreadLocalTestSinkGuard,
)
    requires
        !old(installed).state().threads.contains_key(context.thread),
        call_ensures(GlobalSink::<H, F>::set_test_sink, (installed, context, sink), guard),
        call_ensures(ThreadLocalTestSinkGuard::drop::<H, F>, (guard, removed), ()),
    ensures
        only_thread_changed(old(installed).state(), final(installed).state(), context.thread),
        final(installed).state().threads.contains_key(context.thread),
        ({
            let view = final(installed).state().threads[context.thread];
            view.destination == sink.destination() && view.history == sink.history() && view.flushes
                == sink.flush_history()
        }),
        only_thread_changed(old(removed).state(), final(removed).state(), context.thread),
        !final(removed).state().threads.contains_key(context.thread),
{
}

/// Installing a test sink on a runtime puts that sink there and changes nothing else. Dropping the
/// guard takes it away and changes nothing else.
pub proof fn runtime_sinks_come_and_go<H, F>(
    installed: &mut GlobalSink<H, F>,
    current: &mut GlobalSink<H, F>,
    removed: &mut GlobalSink<H, F>,
    context: Context,
    runtime: u64,
    sink: BoxEntrySink,
    guard: TokioRuntimeTestSinkGuard,
    current_guard: TokioRuntimeTestSinkGuard,
)
    requires
        context.runtime == Some(runtime),
        !old(installed).state().runtimes.contains_key(runtime),
        !old(current).state().runtimes.contains_key(runtime),
        call_ensures(
            GlobalSink::<H, F>::set_test_sink_for_tokio_runtime,
            (installed, runtime, sink),
            guard,
        ),
        call_ensures(
            GlobalSink::<H, F>::set_test_sink_on_current_tokio_runtime,
            (current, context, sink),
            current_guard,
        ),
        call_ensures(TokioRuntimeTestSinkGuard::drop::<H, F>, (guard, removed), ()),
    ensures
        only_runtime_changed(old(installed).state(), final(installed).state(), runtime),
        final(installed).state().runtimes.contains_key(runtime),
        ({
            let view = final(installed).state().runtimes[runtime];
            view.destination == sink.destination() && view.history == sink.history() && view.flushes
                == sink.flush_history()
        }),
        only_runtime_changed(old(current).state(), final(current).state(), runtime),
        final(current).state().runtimes.contains_key(runtime),
        final(current).state().runtimes[runtime] == final(installed).state().runtimes[runtime],
        current_guard.on_runtime() == guard.on_runtime(),
        only_runtime_changed(old(removed).state(), final(removed).state(), runtime),
        !final(removed).state().runtimes.contains_key(runtime),
{
}

/// What is asked of a global sink before it is used is answered truly.
pub proof fn questions_are_answered_truly<H, F>(
    global: GlobalSink<H, F>,
    n: u64,
    attached: bool,
    thread: bool,
    runtime: bool,
    registration: Registration,
)
    requires
        call_ensures(GlobalSink::<H, F>::has_attached_sink, (&global,), attached),
        call_ensures(GlobalSink::<H, F>::has_thread_sink, (&global, n), thread),
        call_ensures(GlobalSink::<H, F>::has_runtime_sink, (&global, n), runtime),
        call_ensures(GlobalSink::<H, F>::registration, (&global,), registration),
    ensures
        attached <==> global.state().attached is Some,
        thread <==> global.state().threads.contains_key(n),
        runtime <==> global.state().runtimes.contains_key(n),
        registration is NeverAttached <==> global.state().current is None,
        global.state().current matches Some(c) ==> (0 <= c < global.state().registries.len() ==> {
            &&& registration is Open <==> global.state().registries[c] is Held
            &&& registration is Forgotten <==> global.state().registries[c] is Forgotten
            &&& registration is Dropped <==> global.state().registries[c] is Gone
        }),
{
}

/// The sink that an attach handle stands for is the attached one, whatever test sinks there are.
pub proof fn handles_lead_to_the_attached_sink<H, F>(
    handle: AttachHandle,
    global: GlobalSink<H, F>,
    found: Option<BoxEntrySink>,
)
    requires
        call_ensures(AttachHandle::try_sink::<H, F>, (&handle, &global), found),
    ensures
        found is Some <==> global.state().attached is Some,
        found matches Some(sink) ==> sink.destination() == global.state().attached->0.destination
            && sink.history().len() == 0 && sink.flush_history().len() == 0,
{
}

/// A new global sink has no sink, no test sinks and no registries.
pub proof fn new_global_sinks_are_empty<H, F>(global: GlobalSink<H, F>, n: u64)
    requires
        call_ensures(GlobalSink::<H, F>::new, (), global),
    ensures
        global.state().attached is None,
        global.state().join is None,
        !global.state().threads.contains_key(n),
        !global.state().runtimes.contains_key(n),
        global.state().registries.len() == 0,
        global.state().current is None,
{
}

/// Subscribing tells truly whether there was a subscription, notes that there is one, makes a task
/// with the given settings that appends to the sink at which entries arrive, and puts the end of
/// the subscription before all else that the shutdown does.
pub proof fn subscribing_registers_the_end<H, F>(
    global: &mut GlobalSink<H, F>,
    context: Context,
    subscribed: &mut Subscribed,
    config: TokioRuntimeMetricsConfig,
    stop: F,
    r: Subscription,
)
    requires
        old(global).state().resolved(context) is Some,
        old(global).state().current is Some,
        old(global).state().held(old(global).state().current->0),
        call_ensures(
            <GlobalSink<
                H,
                F,
            > as AttachGlobalEntrySinkTokioMetricsExt>::subscribe_tokio_runtime_metrics,
            (global, context, subscribed, config, stop),
            r,
        ),
    ensures
        r.duplicate == old(subscribed).active(),
        final(subscribed).active(),
        r.reporter.config() == config,
        r.reporter.sink().history.len() == 0,
        r.reporter.sink().destination == if on_thread(old(global).state(), context) {
            old(global).state().threads[context.thread].destination
        } else if on_runtime(old(global).state(), context) {
            old(global).state().runtimes[context.runtime->0].destination
        } else {
            old(global).state().attached->0.destination
        },
        ({
            let c = old(global).state().current->0;
            let before = old(global).state().registries[c]->Held_0;
            &&& only_registry_changed(old(global).state(), final(global).state(), c)
            &&& final(global).state().registries[c] matches RegistryView::Held(after) && after
                =~= seq![ShutdownFn::Unsubscribe(stop)] + before
        }),
{
    assert(final(global).rendezvous() == old(global).rendezvous().registering(
        ShutdownFn::Unsubscribe(stop),
    ));
}

/// What runs with a test sink on its thread starts from a state with that sink there and nothing
/// else changed, and leaves no test sink there.
pub proof fn test_sinks_are_there_while_something_runs<
    H,
    F,
    R,
    C: FnOnce(GlobalSink<H, F>) -> (GlobalSink<H, F>, R),
>(
    global: GlobalSink<H, F>,
    context: Context,
    sink: BoxEntrySink,
    f: C,
    r: (GlobalSink<H, F>, R),
)
    requires
        !global.state().threads.contains_key(context.thread),
        forall|g: GlobalSink<H, F>|
            g.state() == global.state().with_thread_sink(context.thread, global::sink_view(sink))
                ==> #[trigger] f.requires((g,)),
        call_ensures(GlobalSink::<H, F>::with_test_sink::<R, C>, (global, context, sink, f), r),
    ensures
        exists|before: GlobalSink<H, F>, after: (GlobalSink<H, F>, R)|
            {
                &&& only_thread_changed(global.state(), before.state(), context.thread)
                &&& before.state().threads.contains_key(context.thread)
                &&& before.state().threads[context.thread].destination == sink.destination()
                &&& before.state().threads[context.thread].history == sink.history()
                &&& #[trigger] f.ensures((before,), after)
                &&& only_thread_changed(after.0.state(), r.0.state(), context.thread)
                &&& !r.0.state().threads.contains_key(context.thread)
                &&& r.1 == after.1
            },
{
}

} // verus!
