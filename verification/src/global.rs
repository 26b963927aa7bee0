//! Global sinks: rendezvous points between metric sources and metric sinks.
//!
//! A [`GlobalSink`] holds what one rendezvous point knows: the sink attached to it, the test sinks
//! that stand in for it on a thread or on a runtime, and what is to happen on shutdown. Where it
//! is kept (a lock, a thread-local) is the caller's affair. What depends on who asks takes a
//! [`Context`].
use crate::entry::{Entry, EntryCallView};
use crate::sink::{AnyEntrySink, AppendOnDrop, BoxEntrySink, Buffer, FlushWait, SharedSink};
use crate::tokio_metrics_reporter::Subscribed;
use std::collections::HashMap;
use vstd::prelude::*;

verus! {

/// Who asks: a thread, and the runtime on which it runs, if any.
#[derive(Debug, Clone, Copy)]
pub struct Context {
    pub thread: u64,
    pub runtime: Option<u64>,
}

/// A sink, as far as its users can tell: the buffer to which it leads, the entries that were
/// handed over, and for each flush that was requested how many of them came before it.
pub struct SinkView {
    pub destination: Buffer,
    pub history: Seq<Seq<EntryCallView>>,
    pub flushes: Seq<nat>,
}

/// The view of a sink.
pub open spec fn sink_view(sink: BoxEntrySink) -> SinkView {
    SinkView {
        destination: sink.destination(),
        history: sink.history(),
        flushes: sink.flush_history(),
    }
}

/// A sink to which nothing was handed over, and of which nothing was requested, yet.
pub open spec fn fresh_sink(destination: Buffer) -> SinkView {
    SinkView { destination, history: Seq::empty(), flushes: Seq::empty() }
}

/// A sink after one more entry. No flush is requested by that.
pub open spec fn with_entry(sink: SinkView, entry: Seq<EntryCallView>) -> SinkView {
    SinkView { history: sink.history.push(entry), ..sink }
}

/// What is to be done on shutdown.
pub enum ShutdownFn<F> {
    /// Detach the attached sink.
    Detach,
    /// Do this.
    Call(F),
    /// Note that the subscription to the metrics of a runtime has ended, and do this.
    Unsubscribe(F),
}

/// The list of what is to be done after [`AttachHandle::drop`].
pub enum ShutdownRegistry<F> {
    /// The handle is in use.
    Held(Vec<ShutdownFn<F>>),
    /// The handle was forgotten. Nothing on the list is ever done.
    Forgotten(Vec<ShutdownFn<F>>),
    /// The handle was dropped.
    Gone,
}

/// The view of a [`ShutdownRegistry`].
pub enum RegistryView<F> {
    Held(Seq<ShutdownFn<F>>),
    Forgotten(Seq<ShutdownFn<F>>),
    Gone,
}

impl<F> View for ShutdownRegistry<F> {
    type V = RegistryView<F>;

    open spec fn view(&self) -> RegistryView<F> {
        match self {
            ShutdownRegistry::Held(fns) => RegistryView::Held(fns@),
            ShutdownRegistry::Forgotten(fns) => RegistryView::Forgotten(fns@),
            ShutdownRegistry::Gone => RegistryView::Gone,
        }
    }
}

/// The views of a list of registries.
pub open spec fn registry_views<F>(registries: Seq<ShutdownRegistry<F>>) -> Seq<RegistryView<F>> {
    registries.map_values(|r: ShutdownRegistry<F>| r@)
}

/// The state of a global sink.
pub struct GlobalView<H, F> {
    /// The attached sink.
    pub attached: Option<SinkView>,
    /// What is kept for as long as a sink is attached.
    pub join: Option<H>,
    /// The test sinks, by the thread on which they stand in.
    pub threads: Map<u64, SinkView>,
    /// The test sinks, by the runtime on which they stand in.
    pub runtimes: Map<u64, SinkView>,
    /// One registry for each handle that was ever made.
    pub registries: Seq<RegistryView<F>>,
    /// The registry of the sink that was attached last.
    pub current: Option<int>,
}

/// Where an entry goes.
pub enum Route {
    /// To the test sink of the thread.
    Thread,
    /// To the test sink of this runtime.
    Runtime(u64),
    /// To the attached sink.
    Attached,
    /// Nowhere: there is no sink.
    Nowhere,
}

impl<H, F> GlobalView<H, F> {
    /// Where an entry goes: a test sink of the thread comes before one of the runtime, and that
    /// one before the attached sink.
    pub open spec fn route(self, context: Context) -> Route {
        if self.threads.contains_key(context.thread) {
            Route::Thread
        } else if context.runtime is Some && self.runtimes.contains_key(context.runtime->0) {
            Route::Runtime(context.runtime->0)
        } else if self.attached is Some {
            Route::Attached
        } else {
            Route::Nowhere
        }
    }

    /// The sink to which an entry goes.
    pub open spec fn resolved(self, context: Context) -> Option<SinkView> {
        match self.route(context) {
            Route::Thread => Some(self.threads[context.thread]),
            Route::Runtime(runtime) => Some(self.runtimes[runtime]),
            Route::Attached => self.attached,
            Route::Nowhere => None,
        }
    }

    /// The state after an entry: the sink to which it goes has one more, nothing else changes.
    pub open spec fn appended(self, context: Context, entry: Seq<EntryCallView>) -> Self {
        match self.route(context) {
            Route::Thread => GlobalView {
                threads: self.threads.insert(
                    context.thread,
                    with_entry(self.threads[context.thread], entry),
                ),
                ..self
            },
            Route::Runtime(runtime) => GlobalView {
                runtimes: self.runtimes.insert(runtime, with_entry(self.runtimes[runtime], entry)),
                ..self
            },
            Route::Attached => GlobalView {
                attached: Some(with_entry(self.attached->0, entry)),
                ..self
            },
            Route::Nowhere => self,
        }
    }

    /// The state after a sink was attached with what is kept along with it: it has a registry of its own, which holds
    /// the sink's detachment.
    pub open spec fn attaching(self, destination: Buffer, join: H) -> Self {
        GlobalView {
            attached: Some(fresh_sink(destination)),
            join: Some(join),
            registries: self.registries.push(RegistryView::Held(seq![ShutdownFn::Detach])),
            current: Some(self.registries.len() as int),
            ..self
        }
    }

    /// The state after the sink was detached. What was kept along with it is kept no longer.
    pub open spec fn detached(self) -> Self {
        GlobalView { attached: None, join: None, ..self }
    }

    /// Whether the handle of a registry is in use.
    pub open spec fn held(self, registry: int) -> bool {
        0 <= registry < self.registries.len() && self.registries[registry] is Held
    }

    /// Whether a registry can still be reached: the handle was not dropped.
    pub open spec fn reachable(self, registry: int) -> bool {
        0 <= registry < self.registries.len() && !(self.registries[registry] is Gone)
    }

    /// The state after `f` was put at the front of the current registry.
    pub open spec fn registering(self, f: ShutdownFn<F>) -> Self {
        let c = self.current->0;
        GlobalView {
            registries: self.registries.update(
                c,
                match self.registries[c] {
                    RegistryView::Held(fns) => RegistryView::Held(seq![f] + fns),
                    RegistryView::Forgotten(fns) => RegistryView::Forgotten(seq![f] + fns),
                    RegistryView::Gone => RegistryView::Gone,
                },
            ),
            ..self
        }
    }

    /// The state with another value for one registry.
    pub open spec fn with_registry(self, registry: int, value: RegistryView<F>) -> Self {
        GlobalView { registries: self.registries.update(registry, value), ..self }
    }

    /// The state with a test sink on a thread.
    pub open spec fn with_thread_sink(self, thread: u64, sink: SinkView) -> Self {
        GlobalView { threads: self.threads.insert(thread, sink), ..self }
    }

    /// The state without the test sink on a thread.
    pub open spec fn without_thread_sink(self, thread: u64) -> Self {
        GlobalView { threads: self.threads.remove(thread), ..self }
    }

    /// The state with a test sink on a runtime.
    pub open spec fn with_runtime_sink(self, runtime: u64, sink: SinkView) -> Self {
        GlobalView { runtimes: self.runtimes.insert(runtime, sink), ..self }
    }

    /// The state without the test sink on a runtime.
    pub open spec fn without_runtime_sink(self, runtime: u64) -> Self {
        GlobalView { runtimes: self.runtimes.remove(runtime), ..self }
    }
}

/// Refers to a registry without keeping it alive.
#[derive(Debug, Clone, Copy)]
pub struct WeakRegistry {
    index: usize,
}

impl WeakRegistry {
    /// The place of the registry among those that were ever made.
    pub closed spec fn registry(&self) -> int {
        self.index as int
    }
}

/// What one rendezvous point knows. `H` is kept for as long as a sink is attached, and dropped
/// when it is detached. `F` is what there is to do on shutdown.
pub struct GlobalSink<H, F> {
    attached: Option<(BoxEntrySink, H)>,
    threads: HashMap<u64, BoxEntrySink>,
    runtimes: HashMap<u64, BoxEntrySink>,
    registries: Vec<ShutdownRegistry<F>>,
    current: Option<WeakRegistry>,
}

/// The views of the sinks of a map.
spec fn sink_views(sinks: Map<u64, BoxEntrySink>) -> Map<u64, SinkView> {
    sinks.map_values(|s: BoxEntrySink| sink_view(s))
}

/// Taking a sink out of a map, changing it and putting it back changes its view in the map alone.
proof fn replaced_sink(sinks: Map<u64, BoxEntrySink>, key: u64, sink: BoxEntrySink)
    ensures
        sink_views(sinks.insert(key, sink)) == sink_views(sinks).insert(key, sink_view(sink)),
        sink_views(sinks.remove(key).insert(key, sink)) == sink_views(sinks).insert(
            key,
            sink_view(sink),
        ),
{
    assert(sink_views(sinks.insert(key, sink)) =~= sink_views(sinks).insert(key, sink_view(sink)));
    assert(sinks.remove(key).insert(key, sink) =~= sinks.insert(key, sink));
}

/// Taking a sink out of a map takes its view out.
proof fn removed_sink(sinks: Map<u64, BoxEntrySink>, key: u64)
    ensures
        sink_views(sinks.remove(key)) == sink_views(sinks).remove(key),
{
    assert(sink_views(sinks.remove(key)) =~= sink_views(sinks).remove(key));
}

/// Hands an entry over to a sink of a map.
fn append_to<E: Entry>(sinks: &mut HashMap<u64, BoxEntrySink>, key: u64, entry: E)
    requires
        old(sinks)@.contains_key(key),
    ensures
        sink_views(final(sinks)@) == sink_views(old(sinks)@).insert(
            key,
            with_entry(sink_views(old(sinks)@)[key], entry.content()),
        ),
{
    broadcast use vstd::std_specs::hash::group_hash_axioms;

    if let Some(mut sink) = sinks.remove(&key) {
        sink.append_any(entry);
        proof {
            replaced_sink(old(sinks)@, key, sink);
        }
        sinks.insert(key, sink);
    }
}

impl<H, F> GlobalSink<H, F> {
    /// The state.
    pub closed spec fn state(&self) -> GlobalView<H, F> {
        GlobalView {
            attached: match self.attached {
                Some(a) => Some(sink_view(a.0)),
                None => None,
            },
            join: match self.attached {
                Some(a) => Some(a.1),
                None => None,
            },
            threads: sink_views(self.threads@),
            runtimes: sink_views(self.runtimes@),
            registries: registry_views(self.registries@),
            current: match self.current {
                Some(w) => Some(w.registry()),
                None => None,
            },
        }
    }

    /// A global sink to which nothing was attached yet.
    pub fn new() -> (r: Self)
        ensures
            orderly(r.state()),
            r.state() == (GlobalView::<H, F> {
                attached: None,
                join: None,
                threads: Map::empty(),
                runtimes: Map::empty(),
                registries: Seq::empty(),
                current: None,
            }),
    {
        let r = GlobalSink {
            attached: None,
            threads: HashMap::new(),
            runtimes: HashMap::new(),
            registries: Vec::new(),
            current: None,
        };
        assert(r.state().threads =~= Map::empty());
        assert(r.state().runtimes =~= Map::empty());
        assert(r.state().registries =~= Seq::empty());
        r
    }
}

/// Whether something can be registered for the shutdown.
#[derive(Debug, Clone, Copy, PartialEq, Eq, Structural)]
pub enum Registration {
    /// No sink was attached yet.
    NeverAttached,
    /// The handle of the sink that was attached last was dropped.
    Dropped,
    /// The handle was forgotten. What is registered is never done.
    Forgotten,
    /// The handle is in use.
    Open,
}

impl<H, F> GlobalSink<H, F> {
    /// Whether a sink is attached. Test sinks do not count.
    pub fn has_attached_sink(&self) -> (r: bool)
        ensures
            r == (self.state().attached is Some),
    {
        self.attached.is_some()
    }

    /// Whether a test sink is installed on a thread.
    pub fn has_thread_sink(&self, thread: u64) -> (r: bool)
        ensures
            r == self.state().threads.contains_key(thread),
    {
        broadcast use vstd::std_specs::hash::group_hash_axioms;

        self.threads.contains_key(&thread)
    }

    /// Whether a test sink is installed on a runtime.
    pub fn has_runtime_sink(&self, runtime: u64) -> (r: bool)
        ensures
            r == self.state().runtimes.contains_key(runtime),
    {
        broadcast use vstd::std_specs::hash::group_hash_axioms;

        self.runtimes.contains_key(&runtime)
    }

    /// Whether something can be registered for the shutdown.
    pub fn registration(&self) -> (r: Registration)
        ensures
            self.state().current is None ==> r is NeverAttached,
            self.state().current matches Some(c) ==> match r {
                Registration::NeverAttached => false,
                Registration::Dropped => !self.state().reachable(c),
                Registration::Forgotten => self.state().reachable(c) && !self.state().held(c),
                Registration::Open => self.state().held(c),
            },
    {
        match self.current {
            None => Registration::NeverAttached,
            Some(weak) => if weak.index < self.registries.len() {
                match &self.registries[weak.index] {
                    ShutdownRegistry::Held(_) => Registration::Open,
                    ShutdownRegistry::Forgotten(_) => Registration::Forgotten,
                    ShutdownRegistry::Gone => Registration::Dropped,
                }
            } else {
                Registration::Dropped
            },
        }
    }
}

/// A global version of [`crate::sink::EntrySink`], to which any thread or component can refer.
pub trait GlobalEntrySink {
    /// What is kept for as long as a sink is attached.
    type Kept;

    /// What there is to do on shutdown.
    type Task;

    /// The state.
    spec fn global(&self) -> GlobalView<Self::Kept, Self::Task>;

    /// A handle to the sink to which entries go.
    fn sink(&self, context: Context) -> (r: BoxEntrySink)
        requires
            self.global().resolved(context) is Some,
        ensures
            sink_view(r) == fresh_sink(self.global().resolved(context)->0.destination),
    ;

    /// Appends `entry` to the sink to which entries go.
    fn append<E: Entry>(&mut self, context: Context, entry: E)
        requires
            old(self).global().resolved(context) is Some,
        ensures
            final(self).global() == old(self).global().appended(context, entry.content()),
    ;

    /// Wraps `entry`. It is appended, as it is then, by a call of [`AppendOnDrop::drop`].
    fn append_on_drop<E: Entry>(&self, context: Context, entry: E) -> (r: AppendOnDrop<
        E,
        BoxEntrySink,
    >)
        requires
            self.global().resolved(context) is Some,
        ensures
            r.entry() == entry,
            sink_view(r.sink()) == fresh_sink(self.global().resolved(context)->0.destination),
    {
        AppendOnDrop::new(entry, self.sink(context))
    }

    /// As [`GlobalEntrySink::append_on_drop`], with the default entry.
    fn append_on_drop_default<E: Default + Entry>(&self, context: Context) -> (r: AppendOnDrop<
        E,
        BoxEntrySink,
    >)
        requires
            self.global().resolved(context) is Some,
        ensures
            call_ensures(E::default, (), r.entry()),
            sink_view(r.sink()) == fresh_sink(self.global().resolved(context)->0.destination),
    {
        self.append_on_drop(context, E::default())
    }
}

/// A [`GlobalEntrySink`] that can do nothing until a sink is attached to it.
pub trait AttachGlobalEntrySink {
    /// What is kept for as long as a sink is attached.
    type Join;

    /// What there is to do on shutdown.
    type Action;

    /// The state.
    spec fn rendezvous(&self) -> GlobalView<Self::Join, Self::Action>;

    /// Whether there is a sink to which entries go.
    fn is_attached(&self, context: Context) -> (r: bool)
        ensures
            r == (self.rendezvous().resolved(context) is Some),
    {
        self.try_sink(context).is_some()
    }

    /// Attaches the given sink. What comes with it is kept until the sink is detached.
    fn attach<Q: SharedSink + Send + Sync + 'static>(
        &mut self,
        queue_and_handle: (Q, Self::Join),
    ) -> (r: AttachHandle)
        requires
            old(self).rendezvous().attached is None,
        ensures
            final(self).rendezvous() == old(self).rendezvous().attaching(
                queue_and_handle.0.buffer(),
                queue_and_handle.1,
            ),
            r.registry() == old(self).rendezvous().registries.len(),
    ;

    /// A handle to the sink to which entries go, if there is one.
    fn try_sink(&self, context: Context) -> (r: Option<BoxEntrySink>)
        ensures
            match self.rendezvous().resolved(context) {
                Some(sink) => r matches Some(s) && sink_view(s) == fresh_sink(sink.destination),
                None => r is None,
            },
    ;

    /// Appends `entry` to the sink to which entries go, or hands it back if there is none.
    fn try_append<E: Entry>(&mut self, context: Context, entry: E) -> (r: Result<(), E>)
        ensures
            final(self).rendezvous() == old(self).rendezvous().appended(context, entry.content()),
            old(self).rendezvous().resolved(context) is Some <==> r is Ok,
            r matches Err(e) ==> e == entry,
    ;

    /// Puts `f` before everything else that is to be done after [`AttachHandle::drop`].
    fn register_shutdown_fn(&mut self, f: Self::Action)
        requires
            old(self).rendezvous().current is Some,
            old(self).rendezvous().reachable(old(self).rendezvous().current->0),
        ensures
            final(self).rendezvous() == old(self).rendezvous().registering(ShutdownFn::Call(f)),
    ;

    /// As [`AttachGlobalEntrySink::register_shutdown_fn`], for what ends a subscription to the
    /// metrics of a runtime.
    fn register_unsubscribe_fn(&mut self, f: Self::Action)
        requires
            old(self).rendezvous().current is Some,
            old(self).rendezvous().reachable(old(self).rendezvous().current->0),
        ensures
            final(self).rendezvous() == old(self).rendezvous().registering(
                ShutdownFn::Unsubscribe(f),
            ),
    ;
}

impl<Q: AttachGlobalEntrySink> GlobalEntrySink for Q {
    type Kept = Q::Join;

    type Task = Q::Action;

    open spec fn global(&self) -> GlobalView<Q::Join, Q::Action> {
        self.rendezvous()
    }

    fn sink(&self, context: Context) -> BoxEntrySink {
        self.try_sink(context).unwrap()
    }

    fn append<E: Entry>(&mut self, context: Context, entry: E) {
        let _ = self.try_append(context, entry);
    }
}

/// Stands for an attached sink. [`AttachHandle::drop`] has to be called to have what was registered
/// done and the sink detached: nothing happens to a handle that merely goes out of scope.
#[must_use]
pub struct AttachHandle {
    shutdown_registry: WeakRegistry,
}

impl AttachHandle {
    /// The place of its registry among those that were ever made.
    pub closed spec fn registry(&self) -> int {
        self.shutdown_registry.registry()
    }

    /// A handle with a registry of its own, which holds `join`.
    pub fn new<H, F>(global: &mut GlobalSink<H, F>, join: ShutdownFn<F>) -> (r: Self)
        ensures
            final(global).state() == (GlobalView {
                registries: old(global).state().registries.push(RegistryView::Held(seq![join])),
                ..old(global).state()
            }),
            r.registry() == old(global).state().registries.len(),
    {
        let index: usize = global.registries.len();
        let fns = vec![join];
        assert(fns@ =~= seq![join]);
        global.registries.push(ShutdownRegistry::Held(fns));
        proof {
            assert(global.state().registries =~= old(global).state().registries.push(
                RegistryView::Held(seq![join]),
            ));
        }
        AttachHandle { shutdown_registry: WeakRegistry { index } }
    }

    /// Refers to the registry of this handle without keeping it alive.
    pub fn shutdown_registry_weak(&self) -> (r: WeakRegistry)
        ensures
            r.registry() == self.registry(),
    {
        self.shutdown_registry
    }

    /// Causes the attached sink to remain attached forever. What was registered is never done.
    pub fn forget<H, F>(self, global: &mut GlobalSink<H, F>)
        requires
            old(global).state().held(self.registry()),
        ensures
            final(global).state() == old(global).state().with_registry(
                self.registry(),
                RegistryView::Forgotten(Seq::empty()),
            ),
    {
        let fns: Vec<ShutdownFn<F>> = Vec::new();
        assert(fns@ =~= Seq::empty());
        global.set_registry(self.shutdown_registry.index, ShutdownRegistry::Forgotten(fns));
    }

    /// Begins the shutdown: the registry is emptied, and what it held is to be done in its order.
    pub fn drop<H, F>(self, global: &mut GlobalSink<H, F>) -> (r: Shutdown<F>)
        requires
            old(global).state().held(self.registry()),
        ensures
            final(global).state() == old(global).state().with_registry(
                self.registry(),
                RegistryView::Gone,
            ),
            r.steps() == old(global).state().registries[self.registry()]->Held_0,
    {
        let index: usize = self.shutdown_registry.index;
        match global.set_registry(index, ShutdownRegistry::Gone) {
            ShutdownRegistry::Held(steps) => Shutdown { steps },
            _ => Shutdown { steps: Vec::new() },
        }
    }

    /// A handle to the attached sink, if it is still attached.
    pub fn try_sink<H, F>(&self, global: &GlobalSink<H, F>) -> (r: Option<BoxEntrySink>)
        ensures
            match global.state().attached {
                Some(sink) => r matches Some(s) && sink_view(s) == fresh_sink(sink.destination),
                None => r is None,
            },
    {
        match &global.attached {
            Some((sink, _)) => Some(sink.clone()),
            None => None,
        }
    }
}

/// A step of a shutdown.
pub enum ShutdownStep<H, F> {
    /// The sink was detached. What was kept along with it is handed out, to be dropped.
    Detached(Option<H>),
    /// This is to be done.
    Call(F),
}

/// A shutdown that is under way.
pub struct Shutdown<F> {
    steps: Vec<ShutdownFn<F>>,
}

impl<F> Shutdown<F> {
    /// What is still to be done, in its order.
    pub closed spec fn steps(&self) -> Seq<ShutdownFn<F>> {
        self.steps@
    }

    /// Takes the next step. The sink is detached here, and the end of a subscription is noted here;
    /// anything else is to be done by the caller.
    pub fn step<H>(&mut self, global: &mut GlobalSink<H, F>, subscribed: &mut Subscribed) -> (r:
        Option<ShutdownStep<H, F>>)
        ensures
            old(self).steps().len() == 0 ==> r is None && final(self).steps()
                == old(self).steps() && final(global).state() == old(global).state()
                && final(subscribed).active() == old(subscribed).active(),
            old(self).steps().len() > 0 ==> final(self).steps() == old(self).steps().drop_first(),
            old(self).steps().len() > 0 ==> match old(self).steps()[0] {
                ShutdownFn::Detach => {
                    &&& r == Some(ShutdownStep::<H, F>::Detached(old(global).state().join))
                    &&& final(global).state() == old(global).state().detached()
                    &&& final(subscribed).active() == old(subscribed).active()
                },
                ShutdownFn::Call(f) => {
                    &&& r == Some(ShutdownStep::<H, F>::Call(f))
                    &&& final(global).state() == old(global).state()
                    &&& final(subscribed).active() == old(subscribed).active()
                },
                ShutdownFn::Unsubscribe(f) => {
                    &&& r == Some(ShutdownStep::<H, F>::Call(f))
                    &&& final(global).state() == old(global).state()
                    &&& !final(subscribed).active()
                },
            },
    {
        if self.steps.len() == 0 {
            return None;
        }
        let step = self.steps.remove(0);
        assert(self.steps@ =~= old(self).steps@.drop_first());
        match step {
            ShutdownFn::Detach => Some(ShutdownStep::Detached(global.detach())),
            ShutdownFn::Call(f) => Some(ShutdownStep::Call(f)),
            ShutdownFn::Unsubscribe(f) => {
                subscribed.reset();
                Some(ShutdownStep::Call(f))
            },
        }
    }
}

impl<H, F> GlobalSink<H, F> {
    /// Detaches the sink, and hands out what was kept along with it.
    fn detach(&mut self) -> (r: Option<H>)
        ensures
            final(self).state() == old(self).state().detached(),
            r == old(self).state().join,
    {
        match self.attached.take() {
            Some((_, join)) => Some(join),
            None => None,
        }
    }

    /// Puts `f` before everything else in the current registry.
    fn register(&mut self, f: ShutdownFn<F>)
        requires
            old(self).state().current is Some,
            old(self).state().reachable(old(self).state().current->0),
        ensures
            final(self).state() == old(self).state().registering(f),
    {
        if let Some(weak) = self.current {
            let index: usize = weak.index;
            let value = match self.set_registry(index, ShutdownRegistry::Gone) {
                ShutdownRegistry::Held(mut fns) => {
                    let ghost before = fns@;
                    fns.insert(0, f);
                    assert(fns@ =~= seq![f] + before);
                    ShutdownRegistry::Held(fns)
                },
                ShutdownRegistry::Forgotten(mut fns) => {
                    let ghost before = fns@;
                    fns.insert(0, f);
                    assert(fns@ =~= seq![f] + before);
                    ShutdownRegistry::Forgotten(fns)
                },
                ShutdownRegistry::Gone => ShutdownRegistry::Gone,
            };
            let _ = self.set_registry(index, value);
            assert(self.state().registries =~= old(self).state().registering(
                f,
            ).registries);
        }
    }

    /// Gives one registry another value, and hands out the one it had.
    fn set_registry(&mut self, index: usize, value: ShutdownRegistry<F>) -> (r: ShutdownRegistry<F>)
        requires
            index < old(self).registries.len(),
        ensures
            final(self).state() == old(self).state().with_registry(index as int, value@),
            r@ == old(self).state().registries[index as int],
            final(self).registries.len() == old(self).registries.len(),
    {
        let mut other = value;
        let ghost before = self.registries@;
        self.registries.set_and_swap(index, &mut other);
        assert(self.registries@ == before.update(index as int, value));
        assert(registry_views(self.registries@) =~= registry_views(before).update(
            index as int,
            value@,
        ));
        other
    }
}

impl<H, F> AttachGlobalEntrySink for GlobalSink<H, F> {
    type Join = H;

    type Action = F;

    open spec fn rendezvous(&self) -> GlobalView<H, F> {
        self.state()
    }

    fn attach<Q: SharedSink + Send + Sync + 'static>(
        &mut self,
        queue_and_handle: (Q, H),
    ) -> AttachHandle {
        let (queue, handle) = queue_and_handle;
        self.attached = Some((BoxEntrySink::new(queue), handle));
        let attach_handle = AttachHandle::new(self, ShutdownFn::Detach);
        self.current = Some(attach_handle.shutdown_registry_weak());
        attach_handle
    }

    fn try_sink(&self, context: Context) -> Option<BoxEntrySink> {
        broadcast use vstd::std_specs::hash::group_hash_axioms;

        if let Some(sink) = self.threads.get(&context.thread) {
            return Some(sink.clone());
        }
        if let Some(runtime) = context.runtime {
            if let Some(sink) = self.runtimes.get(&runtime) {
                return Some(sink.clone());
            }
        }
        match &self.attached {
            Some((sink, _)) => Some(sink.clone()),
            None => None,
        }
    }

    fn try_append<E: Entry>(&mut self, context: Context, entry: E) -> Result<(), E> {
        broadcast use vstd::std_specs::hash::group_hash_axioms;

        if self.threads.contains_key(&context.thread) {
            append_to(&mut self.threads, context.thread, entry);
            return Ok(());
        }
        if let Some(runtime) = context.runtime {
            if self.runtimes.contains_key(&runtime) {
                append_to(&mut self.runtimes, runtime, entry);
                return Ok(());
            }
        }
        match &mut self.attached {
            Some((sink, _)) => {
                sink.append_any(entry);
                Ok(())
            },
            None => Err(entry),
        }
    }

    fn register_shutdown_fn(&mut self, f: F) {
        self.register(ShutdownFn::Call(f));
    }

    fn register_unsubscribe_fn(&mut self, f: F) {
        self.register(ShutdownFn::Unsubscribe(f));
    }
}

/// Stands for a test sink that is installed on a thread. [`ThreadLocalTestSinkGuard::drop`] has to
/// be called to uninstall the sink.
#[must_use]
pub struct ThreadLocalTestSinkGuard {
    thread: u64,
}

impl ThreadLocalTestSinkGuard {
    /// The thread on which the sink is installed.
    pub closed spec fn on_thread(&self) -> u64 {
        self.thread
    }

    /// A guard for the test sink of a thread.
    pub fn new(thread: u64) -> (r: Self)
        ensures
            r.on_thread() == thread,
    {
        ThreadLocalTestSinkGuard { thread }
    }

    /// Uninstalls the test sink of the thread.
    pub fn drop<H, F>(self, global: &mut GlobalSink<H, F>)
        ensures
            final(global).state() == old(global).state().without_thread_sink(self.on_thread()),
    {
        global.replace_thread_sink(self.thread, None);
    }
}

/// Stands for a test sink that is installed on a runtime. [`TokioRuntimeTestSinkGuard::drop`] has to
/// be called to uninstall the sink.
#[must_use]
#[derive(Debug)]
pub struct TokioRuntimeTestSinkGuard {
    runtime: u64,
}

impl TokioRuntimeTestSinkGuard {
    /// The runtime on which the sink is installed.
    pub closed spec fn on_runtime(&self) -> u64 {
        self.runtime
    }

    /// A guard for the test sink of a runtime.
    pub fn new(runtime: u64) -> (r: Self)
        ensures
            r.on_runtime() == runtime,
    {
        TokioRuntimeTestSinkGuard { runtime }
    }

    /// Uninstalls the test sink of the runtime.
    pub fn drop<H, F>(self, global: &mut GlobalSink<H, F>)
        ensures
            final(global).state() == old(global).state().without_runtime_sink(self.on_runtime()),
    {
        broadcast use vstd::std_specs::hash::group_hash_axioms;

        let ghost before = global.runtimes@;
        let removed = global.runtimes.remove(&self.runtime);
        proof {
            removed_sink(before, self.runtime);
        }
    }
}

impl<H, F> GlobalSink<H, F> {
    /// Installs or uninstalls the test sink of a thread.
    fn replace_thread_sink(&mut self, thread: u64, sink: Option<BoxEntrySink>)
        requires
            old(self).state().threads.contains_key(thread) ==> sink is None,
        ensures
            final(self).state() == match sink {
                Some(s) => old(self).state().with_thread_sink(thread, sink_view(s)),
                None => old(self).state().without_thread_sink(thread),
            },
    {
        broadcast use vstd::std_specs::hash::group_hash_axioms;

        let ghost before = self.threads@;
        match sink {
            Some(sink) => {
                proof {
                    replaced_sink(before, thread, sink);
                }
                self.threads.insert(thread, sink);
            },
            None => {
                let removed = self.threads.remove(&thread);
                proof {
                    removed_sink(before, thread);
                }
            },
        }
    }

    /// Installs a test sink on the thread, where it takes precedence over every other sink.
    pub fn set_test_sink(&mut self, context: Context, sink: BoxEntrySink) -> (r:
        ThreadLocalTestSinkGuard)
        requires
            !old(self).state().threads.contains_key(context.thread),
        ensures
            final(self).state() == old(self).state().with_thread_sink(
                context.thread,
                sink_view(sink),
            ),
            r.on_thread() == context.thread,
    {
        self.replace_thread_sink(context.thread, Some(sink));
        ThreadLocalTestSinkGuard::new(context.thread)
    }

    /// Installs a test sink on a runtime, where it takes precedence over the attached sink.
    pub fn set_test_sink_for_tokio_runtime(&mut self, runtime: u64, sink: BoxEntrySink) -> (r:
        TokioRuntimeTestSinkGuard)
        requires
            !old(self).state().runtimes.contains_key(runtime),
        ensures
            final(self).state() == old(self).state().with_runtime_sink(runtime, sink_view(sink)),
            r.on_runtime() == runtime,
    {
        broadcast use vstd::std_specs::hash::group_hash_axioms;

        proof {
            replaced_sink(self.runtimes@, runtime, sink);
        }
        self.runtimes.insert(runtime, sink);
        TokioRuntimeTestSinkGuard::new(runtime)
    }

    /// As [`GlobalSink::set_test_sink_for_tokio_runtime`], on the runtime of the caller.
    pub fn set_test_sink_on_current_tokio_runtime(
        &mut self,
        context: Context,
        sink: BoxEntrySink,
    ) -> (r: TokioRuntimeTestSinkGuard)
        requires
            context.runtime is Some,
            !old(self).state().runtimes.contains_key(context.runtime->0),
        ensures
            final(self).state() == old(self).state().with_runtime_sink(
                context.runtime->0,
                sink_view(sink),
            ),
            r.on_runtime() == context.runtime->0,
    {
        self.set_test_sink_for_tokio_runtime(context.runtime.unwrap(), sink)
    }

    /// Runs `f` with a test sink installed on the thread.
    pub fn with_test_sink<R, C: FnOnce(Self) -> (Self, R)>(
        self,
        context: Context,
        sink: BoxEntrySink,
        f: C,
    ) -> (r: (Self, R))
        requires
            !self.state().threads.contains_key(context.thread),
            forall|g: Self|
                g.state() == self.state().with_thread_sink(context.thread, sink_view(sink))
                    ==> #[trigger] f.requires((g,)),
        ensures
            exists|before: Self, after: (Self, R)|
                {
                    &&& before.state() == self.state().with_thread_sink(
                        context.thread,
                        sink_view(sink),
                    )
                    &&& #[trigger] f.ensures((before,), after)
                    &&& r.0.state() == after.0.state().without_thread_sink(context.thread)
                    &&& r.1 == after.1
                },
    {
        let mut global = self;
        let guard = global.set_test_sink(context, sink);
        let ghost before = global;
        let after = f(global);
        assert(f.ensures((before,), after));
        let (mut global, result) = after;
        guard.drop(&mut global);
        (global, result)
    }

    /// A sink that looks up the sink to which entries go each time an entry is appended.
    pub fn sink_or_discard(&self) -> (r: LazySink)
        ensures
            r == (LazySink {  }),
    {
        LazySink {  }
    }
}

/// Appends `entry` to the sink that a look-up has found, which is handed back, or hands the entry
/// back if it found none.
pub fn append_to_found<E: Entry>(found: Option<BoxEntrySink>, entry: E) -> (r: Result<
    BoxEntrySink,
    E,
>)
    ensures
        match found {
            Some(sink) => r matches Ok(s) && sink_view(s) == with_entry(
                sink_view(sink),
                entry.content(),
            ),
            None => r == Err::<BoxEntrySink, E>(entry),
        },
{
    match found {
        Some(mut sink) => {
            sink.append_any(entry);
            Ok(sink)
        },
        None => Err(entry),
    }
}

/// Requests a flush of the sink that a look-up has found. If it found none, the flush is done.
pub fn flush_found(found: Option<BoxEntrySink>) -> (r: FlushWait)
    ensures
        match found {
            Some(sink) => sink.destination().waits.contains(r),
            None => r.flushed() && r.answers() is None,
        },
{
    match found {
        Some(mut sink) => AnyEntrySink::flush_async(&mut sink),
        None => FlushWait::ready(),
    }
}

/// A sink that looks up the sink to which entries go each time it is used. An entry that is
/// appended when there is none is discarded.
#[derive(Debug, Clone, Copy)]
pub struct LazySink {}

impl LazySink {
    /// Appends `entry` to the sink to which entries go now, or discards it if there is none.
    pub fn append<G: AttachGlobalEntrySink, E: Entry>(
        &self,
        global: &mut G,
        context: Context,
        entry: E,
    )
        ensures
            final(global).rendezvous() == old(global).rendezvous().appended(
                context,
                entry.content(),
            ),
    {
        let _ = global.try_append(context, entry);
    }

    /// Requests a flush of the sink to which entries go now. Where there is none, it is done.
    pub fn flush_async<G: AttachGlobalEntrySink>(&self, global: &G, context: Context) -> (r:
        FlushWait)
        ensures
            match global.rendezvous().resolved(context) {
                Some(sink) => sink.destination.waits.contains(r),
                None => r.flushed(),
            },
    {
        flush_found(global.try_sink(context))
    }

    /// Wraps `entry`. It is appended, as it is then, by a call of [`AppendOnDrop::drop_into`].
    pub fn append_on_drop<E: Entry>(&self, entry: E) -> (r: AppendOnDrop<E, LazySink>)
        ensures
            r.entry() == entry,
    {
        AppendOnDrop::new(entry, *self)
    }
}

impl<E: Entry> AppendOnDrop<E, LazySink> {
    /// Appends the entry to the sink to which entries go now, or discards it if there is none.
    pub fn drop_into<G: AttachGlobalEntrySink>(self, global: &mut G, context: Context)
        ensures
            final(global).rendezvous() == old(global).rendezvous().appended(
                context,
                self.entry().content(),
            ),
    {
        let (entry, sink) = self.into_entry();
        sink.append(global, context, entry)
    }
}

/// What holds of every state: something is kept along with a sink exactly as long as one is
/// attached, only the sink that is attached has a handle in use, and what is registered with that
/// handle ends with the sink's detachment, which occurs nowhere else.
pub open spec fn orderly<H, F>(state: GlobalView<H, F>) -> bool {
    &&& state.attached is Some <==> state.join is Some
    &&& state.current matches Some(c) ==> 0 <= c < state.registries.len()
    &&& forall|i: int| #[trigger]
        state.held(i) ==> state.current == Some(i) && state.attached is Some
    &&& forall|i: int| #[trigger] state.held(i) ==> detaches_last(state.registries[i]->Held_0)
}

/// Whether the sink is detached in the last step and in no other.
pub open spec fn detaches_last<F>(steps: Seq<ShutdownFn<F>>) -> bool {
    &&& steps.len() > 0
    &&& steps.last() is Detach
    &&& forall|i: int| 0 <= i < steps.len() - 1 ==> !(#[trigger] steps[i] is Detach)
}

/// The state after the steps of a shutdown.
pub open spec fn after_steps<H, F>(
    state: GlobalView<H, F>,
    steps: Seq<ShutdownFn<F>>,
) -> GlobalView<H, F>
    decreases steps.len(),
{
    if steps.len() == 0 {
        state
    } else {
        let next = match steps[0] {
            ShutdownFn::Detach => state.detached(),
            ShutdownFn::Call(_) | ShutdownFn::Unsubscribe(_) => state,
        };
        after_steps(next, steps.drop_first())
    }
}

/// The state after each of `fns` was registered, in their order.
pub open spec fn registering_all<H, F>(
    state: GlobalView<H, F>,
    fns: Seq<ShutdownFn<F>>,
) -> GlobalView<H, F>
    decreases fns.len(),
{
    if fns.len() == 0 {
        state
    } else {
        registering_all(state, fns.drop_last()).registering(fns.last())
    }
}

/// Appending, attaching, registering, forgetting and the test sinks keep every state orderly.
pub proof fn operations_keep_order<H, F>(
    state: GlobalView<H, F>,
    context: Context,
    entry: Seq<EntryCallView>,
    f: ShutdownFn<F>,
    sink: SinkView,
    join: H,
    n: u64,
)
    requires
        orderly(state),
        !(f is Detach),
    ensures
        orderly(state.appended(context, entry)),
        state.attached is None ==> orderly(state.attaching(sink.destination, join)),
        state.current is Some && state.reachable(state.current->0) ==> orderly(
            state.registering(f),
        ),
        forall|i: int|
            #[trigger] state.held(i) ==> orderly(
                state.with_registry(i, RegistryView::Forgotten(Seq::empty())),
            ),
        orderly(state.with_thread_sink(n, sink)),
        orderly(state.without_thread_sink(n)),
        orderly(state.with_runtime_sink(n, sink)),
        orderly(state.without_runtime_sink(n)),
{
    same_registries(state, state.appended(context, entry));
    same_registries(state, state.with_thread_sink(n, sink));
    same_registries(state, state.without_thread_sink(n));
    same_registries(state, state.with_runtime_sink(n, sink));
    same_registries(state, state.without_runtime_sink(n));
    if state.attached is None {
        let next = state.attaching(sink.destination, join);
        assert forall|i: int| #[trigger] next.held(i) implies next.current == Some(i) && detaches_last(
            next.registries[i]->Held_0,
        ) by {
            if i < state.registries.len() {
                assert(state.held(i));
            }
        }
    }
    if state.current is Some && state.reachable(state.current->0) {
        let next = state.registering(f);
        assert forall|i: int| #[trigger] next.held(i) implies next.current == Some(i)
            && next.attached is Some && detaches_last(next.registries[i]->Held_0) by {
            assert(state.held(i));
            let fns = state.registries[i]->Held_0;
            let more = seq![f] + fns;
            assert(next.registries[i]->Held_0 == more);
            assert(more.last() == fns.last());
            assert forall|j: int| 0 <= j < more.len() - 1 implies !(
            #[trigger] more[j] is Detach) by {
                if j > 0 {
                    assert(more[j] == fns[j - 1]);
                }
            }
        }
    }
    assert forall|i: int| #[trigger] state.held(i) implies orderly(
        state.with_registry(i, RegistryView::Forgotten(Seq::empty())),
    ) by {
        let next = state.with_registry(i, RegistryView::Forgotten(Seq::empty()));
        assert forall|j: int| #[trigger] next.held(j) implies false by {
            assert(state.held(j));
        }
    }
}

/// States with the same registries, of which one has an attached sink if the other has, are both
/// orderly or neither is.
proof fn same_registries<H, F>(a: GlobalView<H, F>, b: GlobalView<H, F>)
    requires
        orderly(a),
        a.registries == b.registries,
        a.current == b.current,
        a.attached is Some == b.attached is Some,
        a.join == b.join,
    ensures
        orderly(b),
{
    assert forall|i: int| #[trigger] b.held(i) implies b.current == Some(i) && b.attached is Some
        && detaches_last(b.registries[i]->Held_0) by {
        assert(a.held(i));
    }
}

/// A shutdown first does everything that was registered, with the sink still attached, and
/// detaches the sink last. After that the state is orderly, and another sink can be attached.
pub proof fn shutdown_detaches_last<H, F>(state: GlobalView<H, F>, registry: int)
    requires
        orderly(state),
        state.held(registry),
    ensures
        ({
            let steps = state.registries[registry]->Held_0;
            let begun = state.with_registry(registry, RegistryView::Gone);
            &&& begun.attached == state.attached
            &&& begun.join == state.join
            &&& forall|k: int| 0 <= k < steps.len() ==> #[trigger] after_steps(begun, steps.take(k))
                == begun
            &&& after_steps(begun, steps) == begun.detached()
            &&& orderly(begun.detached())
            &&& begun.detached().attached is None
            &&& begun.detached().join is None
        }),
{
    let steps = state.registries[registry]->Held_0;
    let begun = state.with_registry(registry, RegistryView::Gone);
    assert forall|k: int| 0 <= k < steps.len() implies #[trigger] after_steps(begun, steps.take(k))
        == begun by {
        calls_change_nothing(begun, steps.take(k));
    }
    calls_then_detach(begun, steps);
    assert forall|i: int| #[trigger] begun.detached().held(i) implies false by {
        assert(state.held(i));
    }
}

/// Steps that detach nothing leave the state as it is.
proof fn calls_change_nothing<H, F>(state: GlobalView<H, F>, steps: Seq<ShutdownFn<F>>)
    requires
        forall|i: int| 0 <= i < steps.len() ==> !(#[trigger] steps[i] is Detach),
    ensures
        after_steps(state, steps) == state,
    decreases steps.len(),
{
    if steps.len() > 0 {
        assert(!(steps[0] is Detach));
        calls_change_nothing(state, steps.drop_first());
    }
}

/// Steps of which the last one detaches the sink leave it detached.
proof fn calls_then_detach<H, F>(state: GlobalView<H, F>, steps: Seq<ShutdownFn<F>>)
    requires
        detaches_last(steps),
    ensures
        after_steps(state, steps) == state.detached(),
    decreases steps.len(),
{
    if steps.len() == 1 {
        assert(steps[0] == steps.last());
        assert(after_steps(state.detached(), steps.drop_first()) == state.detached());
    } else {
        assert(!(steps[0] is Detach));
        calls_then_detach(state, steps.drop_first());
    }
}

/// What is registered last is done first, and the sink is detached after all of it.
pub proof fn last_registered_is_done_first<H, F>(
    state: GlobalView<H, F>,
    destination: Buffer,
    join: H,
    fns: Seq<ShutdownFn<F>>,
)
    requires
        state.attached is None,
    ensures
        ({
            let before = state.attaching(destination, join);
            let after = registering_all(before, fns);
            let registry = state.registries.len() as int;
            &&& after.current == Some(registry)
            &&& after.attached == before.attached
            &&& after.join == before.join
            &&& after.held(registry)
            &&& after.registries[registry]->Held_0 == fns.reverse().push(
                ShutdownFn::Detach,
            )
        }),
    decreases fns.len(),
{
    let before = state.attaching(destination, join);
    let registry = state.registries.len() as int;
    let expected = fns.reverse().push(ShutdownFn::Detach);
    if fns.len() == 0 {
        assert(before.registries[registry]->Held_0 =~= expected);
    } else {
        let shorter = fns.drop_last();
        last_registered_is_done_first(state, destination, join, shorter);
        let rest = shorter.reverse().push(ShutdownFn::Detach);
        assert(seq![fns.last()] + rest =~= expected);
    }
}

/// Whether there is a subscription after the steps of a shutdown.
pub open spec fn subscribed_after<F>(active: bool, steps: Seq<ShutdownFn<F>>) -> bool
    decreases steps.len(),
{
    if steps.len() == 0 {
        active
    } else {
        subscribed_after(active && !(steps[0] is Unsubscribe), steps.drop_first())
    }
}

/// A shutdown leaves no subscription if one of its steps ends a subscription, and changes nothing
/// of it otherwise.
pub proof fn shutdown_ends_subscriptions<F>(active: bool, steps: Seq<ShutdownFn<F>>)
    ensures
        subscribed_after(active, steps) <==> active && forall|i: int|
            0 <= i < steps.len() ==> !(#[trigger] steps[i] is Unsubscribe),
    decreases steps.len(),
{
    if steps.len() > 0 {
        let rest = steps.drop_first();
        shutdown_ends_subscriptions(active && !(steps[0] is Unsubscribe), rest);
        assert forall|i: int| 0 < i < steps.len() implies #[trigger] steps[i] == rest[i - 1] by {}
        assert forall|i: int| 0 <= i < rest.len() implies #[trigger] rest[i] == steps[i + 1] by {}
        if subscribed_after(active, steps) {
            assert forall|i: int| 0 <= i < steps.len() implies !(
            #[trigger] steps[i] is Unsubscribe) by {
                if i > 0 {
                    assert(!(rest[i - 1] is Unsubscribe));
                }
            }
        }
    }
}

/// A handle that is forgotten leaves the sink attached and every entry where it goes. What is
/// registered afterwards is never done.
pub proof fn forgetting_keeps_the_sink<H, F>(state: GlobalView<H, F>, registry: int, context: Context, f: F)
    requires
        state.held(registry),
    ensures
        ({
            let after = state.with_registry(registry, RegistryView::Forgotten(Seq::empty()));
            &&& after.attached == state.attached
            &&& after.join == state.join
            &&& after.resolved(context) == state.resolved(context)
            &&& !after.held(registry)
            &&& state.current == Some(registry) ==> !after.registering(
                ShutdownFn::Call(f),
            ).held(registry)
        }),
{
}

/// A test sink on a thread takes the entries of that thread alone. Once it is uninstalled,
/// everything is as it was before it was installed.
pub proof fn thread_test_sink_is_isolated<H, F>(
    state: GlobalView<H, F>,
    thread: u64,
    sink: SinkView,
    context: Context,
    entry: Seq<EntryCallView>,
)
    requires
        !state.threads.contains_key(thread),
    ensures
        ({
            let with = state.with_thread_sink(thread, sink);
            &&& with.without_thread_sink(thread) == state
            &&& context.thread == thread ==> with.resolved(context) == Some(sink)
            &&& context.thread == thread ==> with.appended(context, entry).threads[thread]
                == with_entry(sink, entry)
            &&& context.thread == thread ==> with.appended(context, entry).without_thread_sink(
                thread,
            ) == state
            &&& context.thread != thread ==> with.resolved(context) == state.resolved(context)
            &&& context.thread != thread ==> with.appended(context, entry).without_thread_sink(
                thread,
            ) == state.appended(context, entry)
        }),
{
    let with = state.with_thread_sink(thread, sink);
    assert(with.without_thread_sink(thread).threads =~= state.threads);
    if context.thread == thread {
        assert(with.appended(context, entry).without_thread_sink(thread).threads =~= state.threads);
    } else {
        assert(with.route(context) == state.route(context));
        assert(with.appended(context, entry).without_thread_sink(thread).threads
            =~= state.appended(context, entry).threads);
    }
}

/// A test sink on a runtime takes the entries of that runtime, except those of a thread with a
/// test sink of its own, and no others. Once it is uninstalled, everything is as it was before it
/// was installed.
pub proof fn runtime_test_sink_is_isolated<H, F>(
    state: GlobalView<H, F>,
    runtime: u64,
    sink: SinkView,
    context: Context,
    entry: Seq<EntryCallView>,
)
    requires
        !state.runtimes.contains_key(runtime),
    ensures
        ({
            let with = state.with_runtime_sink(runtime, sink);
            let taken = context.runtime == Some(runtime) && !state.threads.contains_key(
                context.thread,
            );
            &&& with.without_runtime_sink(runtime) == state
            &&& taken ==> with.resolved(context) == Some(sink)
            &&& taken ==> with.appended(context, entry).runtimes[runtime] == with_entry(sink, entry)
            &&& taken ==> with.appended(context, entry).without_runtime_sink(runtime) == state
            &&& !taken ==> with.resolved(context) == state.resolved(context)
            &&& !taken ==> with.appended(context, entry).without_runtime_sink(runtime)
                == state.appended(context, entry)
        }),
{
    let with = state.with_runtime_sink(runtime, sink);
    let taken = context.runtime == Some(runtime) && !state.threads.contains_key(context.thread);
    assert(with.without_runtime_sink(runtime).runtimes =~= state.runtimes);
    if taken {
        assert(with.appended(context, entry).without_runtime_sink(runtime).runtimes
            =~= state.runtimes);
    } else {
        assert(with.route(context) == state.route(context));
        assert(with.appended(context, entry).without_runtime_sink(runtime).runtimes
            =~= state.appended(context, entry).runtimes);
    }
}

/// An entry goes to the sink to which it is resolved and changes nothing else. Without such a
/// sink it changes nothing at all.
pub proof fn entries_go_to_the_resolved_sink<H, F>(
    state: GlobalView<H, F>,
    context: Context,
    entry: Seq<EntryCallView>,
)
    ensures
        state.resolved(context) matches Some(sink) ==> state.appended(context, entry).resolved(
            context,
        ) == Some(with_entry(sink, entry)),
        state.resolved(context) is None ==> state.appended(context, entry) == state,
        state.appended(context, entry).route(context) == state.route(context),
{
}

} // verus!
