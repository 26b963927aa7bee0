//! Sinks, into which metric entries are appended.
//!
//! A sink is used through handles. The model of a handle is the history of the entries that were
//! handed over through it, each given by what it writes, the points in that history at which a
//! flush was requested, and the buffer to which it leads: handles that were cloned from each other
//! lead to the same buffer.
use crate::entry::{BoxEntry, Entry, EntryCallView};
use std::sync::Arc;
use std::task::Waker;
use vstd::prelude::*;

verus! {

/// The buffer of a sink.
pub struct Buffer {
    /// Which buffer it is.
    pub id: int,
    /// What requesting a flush of it may give. When a flush is done is the buffer's own affair.
    pub waits: Set<FlushWait>,
}

/// A handle to a sink. It stores entries in a buffer until they can be written to their
/// destination.
pub trait EntrySink<E: Entry> {
    /// The entries handed over through this handle, oldest first.
    open spec fn sent(&self) -> Seq<Seq<EntryCallView>> {
        Seq::empty()
    }

    /// The buffer to which this handle leads.
    open spec fn buffer(&self) -> Buffer {
        Buffer { id: 0, waits: Set::full() }
    }

    /// For each flush requested through this handle, how many of its entries came before it.
    open spec fn flush_points(&self) -> Seq<nat> {
        Seq::empty()
    }

    /// Appends `entry` to the buffer. Unless this is explicitly a test sink, the call must never
    /// block and must never panic.
    fn append(&mut self, entry: E)
        ensures
            final(self).sent() == old(self).sent().push(entry.content()),
            final(self).flush_points() == old(self).flush_points(),
            final(self).buffer() == old(self).buffer(),
    ;

    /// Requests that the buffer be flushed to its destination. The result tells when that is done.
    fn flush_async(&mut self) -> (r: FlushWait)
        ensures
            final(self).sent() == old(self).sent(),
            final(self).flush_points() == old(self).flush_points().push(old(self).sent().len()),
            final(self).buffer() == old(self).buffer(),
            old(self).buffer().waits.contains(r),
    ;

    /// Wraps `entry`. It is appended, as it is then, by a call of [`AppendOnDrop::drop`].
    fn append_on_drop(&self, entry: E) -> (r: AppendOnDrop<E, Self>) where Self: Sized + Clone
        ensures
            r.entry() == entry,
            cloned(*self, r.sink()),
    {
        AppendOnDrop::new(entry, self.clone())
    }

    /// As [`EntrySink::append_on_drop`], with the default entry.
    fn append_on_drop_default(&self) -> (r: AppendOnDrop<E, Self>) where
        Self: Sized + Clone,
        E: Default,

        ensures
            call_ensures(E::default, (), r.entry()),
            cloned(*self, r.sink()),
    {
        self.append_on_drop(E::default())
    }
}

/// A handle to a sink that takes entries of any type.
pub trait AnyEntrySink {
    /// The entries handed over through this handle, oldest first.
    open spec fn sent_any(&self) -> Seq<Seq<EntryCallView>> {
        Seq::empty()
    }

    /// The buffer to which this handle leads.
    open spec fn any_buffer(&self) -> Buffer {
        Buffer { id: 0, waits: Set::full() }
    }

    /// For each flush requested through this handle, how many of its entries came before it.
    open spec fn any_flush_points(&self) -> Seq<nat> {
        Seq::empty()
    }

    /// As [`EntrySink::append`], for any type of entry.
    fn append_any<E: Entry>(&mut self, entry: E)
        ensures
            final(self).sent_any() == old(self).sent_any().push(entry.content()),
            final(self).any_flush_points() == old(self).any_flush_points(),
            final(self).any_buffer() == old(self).any_buffer(),
    ;

    /// As [`EntrySink::flush_async`].
    fn flush_async(&mut self) -> (r: FlushWait)
        ensures
            final(self).sent_any() == old(self).sent_any(),
            final(self).any_flush_points() == old(self).any_flush_points().push(
                old(self).sent_any().len(),
            ),
            final(self).any_buffer() == old(self).any_buffer(),
            old(self).any_buffer().waits.contains(r),
    ;

    /// Erases the type of this sink.
    fn boxed(self) -> (r: BoxEntrySink) where Self: SharedSink + Send + Sync + 'static
        ensures
            r.history() == Seq::<Seq<EntryCallView>>::empty(),
            r.flush_history() == Seq::<nat>::empty(),
            r.destination() == self.buffer(),
    {
        BoxEntrySink::new(self)
    }
}

impl<T: AnyEntrySink, E: Entry> EntrySink<E> for T {
    open spec fn sent(&self) -> Seq<Seq<EntryCallView>> {
        self.sent_any()
    }

    open spec fn buffer(&self) -> Buffer {
        self.any_buffer()
    }

    open spec fn flush_points(&self) -> Seq<nat> {
        self.any_flush_points()
    }

    fn append(&mut self, entry: E) {
        self.append_any(entry)
    }

    fn flush_async(&mut self) -> FlushWait {
        AnyEntrySink::flush_async(self)
    }
}

/// A sink of which further handles can be made.
pub trait SharedSink: EntrySink<BoxEntry> + Sized {
    /// Another handle to the same buffer, through which nothing was handed over or requested yet.
    fn share(&self) -> (r: Self)
        ensures
            r.buffer() == self.buffer(),
            r.sent() == Seq::<Seq<EntryCallView>>::empty(),
            r.flush_points() == Seq::<nat>::empty(),
    ;
}

/// A handle of any type, which any thread can use.
trait AnyHandle: Send + Sync {
    /// The entries handed over through this handle, oldest first.
    spec fn taken(&self) -> Seq<Seq<EntryCallView>>;

    /// The buffer to which this handle leads.
    spec fn lead(&self) -> Buffer;

    /// For each flush requested through this handle, how many of its entries came before it.
    spec fn points(&self) -> Seq<nat>;

    /// Hands an entry over.
    fn take(&mut self, entry: BoxEntry)
        ensures
            final(self).taken() == old(self).taken().push(entry.content()),
            final(self).points() == old(self).points(),
            final(self).lead() == old(self).lead(),
    ;

    /// Requests a flush.
    fn flush(&mut self) -> (r: FlushWait)
        ensures
            final(self).taken() == old(self).taken(),
            final(self).points() == old(self).points().push(old(self).taken().len()),
            final(self).lead() == old(self).lead(),
            old(self).lead().waits.contains(r),
    ;
}

/// One handle to a sink of any type.
struct ErasedHandle(Box<dyn AnyHandle>);

/// Something that makes handles to one buffer.
trait HandleSource: Send + Sync {
    /// The buffer to which the handles lead.
    spec fn target(&self) -> Buffer;

    /// Makes a handle.
    fn handle(&self) -> (r: ErasedHandle)
        ensures
            r.0.lead() == self.target(),
            r.0.taken() == Seq::<Seq<EntryCallView>>::empty(),
            r.0.points() == Seq::<nat>::empty(),
    ;
}

/// A handle by which others can be made.
struct Sharing<Q>(Q);

impl<Q: SharedSink + Send + Sync + 'static> AnyHandle for Sharing<Q> {
    closed spec fn taken(&self) -> Seq<Seq<EntryCallView>> {
        self.0.sent()
    }

    closed spec fn lead(&self) -> Buffer {
        self.0.buffer()
    }

    closed spec fn points(&self) -> Seq<nat> {
        self.0.flush_points()
    }

    fn take(&mut self, entry: BoxEntry) {
        self.0.append(entry)
    }

    fn flush(&mut self) -> FlushWait {
        self.0.flush_async()
    }
}

impl<Q: SharedSink + Send + Sync + 'static> HandleSource for Sharing<Q> {
    closed spec fn target(&self) -> Buffer {
        self.0.buffer()
    }

    fn handle(&self) -> ErasedHandle {
        let shared = Sharing(self.0.share());
        assert(shared.lead() == self.target());
        assert(shared.taken() == Seq::<Seq<EntryCallView>>::empty());
        assert(shared.points() == Seq::<nat>::empty());
        ErasedHandle(Box::new(shared))
    }
}

/// A handle to a sink of any type. It takes entries of any type.
pub struct BoxEntrySink {
    /// The handle in use, made when it is first needed.
    handle: Option<ErasedHandle>,
    source: Arc<Box<dyn HandleSource>>,
}

impl BoxEntrySink {
    /// The entries handed over through this handle, oldest first.
    pub closed spec fn history(&self) -> Seq<Seq<EntryCallView>> {
        match self.handle {
            Some(h) => h.0.taken(),
            None => Seq::empty(),
        }
    }

    /// The buffer to which this handle leads.
    pub closed spec fn destination(&self) -> Buffer {
        self.source.target()
    }

    /// For each flush requested through this handle, how many of its entries came before it.
    pub closed spec fn flush_history(&self) -> Seq<nat> {
        match self.handle {
            Some(h) => h.0.points(),
            None => Seq::empty(),
        }
    }

    /// The handle in use leads where its clones lead.
    #[verifier::type_invariant]
    spec fn wf(&self) -> bool {
        self.handle matches Some(h) ==> h.0.lead() == self.source.target()
    }

    /// Erases the type of `sink`.
    pub fn new<Q: SharedSink + Send + Sync + 'static>(sink: Q) -> (r: Self)
        ensures
            r.history() == Seq::<Seq<EntryCallView>>::empty(),
            r.flush_history() == Seq::<nat>::empty(),
            r.destination() == sink.buffer(),
    {
        let sharing = Sharing(sink);
        assert(sharing.target() == sink.buffer());
        BoxEntrySink { handle: None, source: Arc::new(Box::new(sharing)) }
    }

    /// Takes the handle in use out, or makes one.
    fn take_handle(&mut self) -> (r: ErasedHandle)
        ensures
            r.0.taken() == old(self).history(),
            r.0.points() == old(self).flush_history(),
            r.0.lead() == old(self).destination(),
            final(self).destination() == old(self).destination(),
    {
        let mut used = self.clone();
        core::mem::swap(self, &mut used);
        proof {
            use_type_invariant(&used);
        }
        match used.handle {
            Some(h) => h,
            None => used.source.handle(),
        }
    }

    /// Puts the handle in use back.
    fn put_handle(&mut self, handle: ErasedHandle)
        requires
            handle.0.lead() == old(self).destination(),
        ensures
            final(self).history() == handle.0.taken(),
            final(self).flush_history() == handle.0.points(),
            final(self).destination() == old(self).destination(),
    {
        self.handle = Some(handle);
    }
}

impl AnyEntrySink for BoxEntrySink {
    open spec fn sent_any(&self) -> Seq<Seq<EntryCallView>> {
        self.history()
    }

    open spec fn any_buffer(&self) -> Buffer {
        self.destination()
    }

    open spec fn any_flush_points(&self) -> Seq<nat> {
        self.flush_history()
    }

    fn append_any<E: Entry>(&mut self, entry: E) {
        let mut handle = self.take_handle();
        handle.0.take(entry.boxed());
        self.put_handle(handle);
    }

    fn flush_async(&mut self) -> FlushWait {
        let mut handle = self.take_handle();
        let wait = handle.0.flush();
        self.put_handle(handle);
        wait
    }
}

impl Clone for BoxEntrySink {
    fn clone(&self) -> (r: Self)
        ensures
            r.destination() == self.destination(),
            r.history() == Seq::<Seq<EntryCallView>>::empty(),
            r.flush_history() == Seq::<nat>::empty(),
    {
        BoxEntrySink { handle: None, source: self.source.clone() }
    }
}

impl SharedSink for BoxEntrySink {
    fn share(&self) -> BoxEntrySink {
        self.clone()
    }
}

/// What a future calls when it is worth asking again, which Verus sees as opaque.
#[verifier::external_type_specification]
#[verifier::external_body]
pub struct ExWaker(Waker);

/// Something that completes some time.
pub trait FlushFuture: Send + Sync {
    /// Whether it has completed.
    open spec fn done(&self) -> bool {
        true
    }

    /// Each time that it was asked: with which waker, and what it answered. Oldest first.
    open spec fn answers(&self) -> Seq<(Waker, bool)> {
        Seq::empty()
    }

    /// Asks whether it has completed. What has completed stays so. One that has not calls `waker`
    /// when it is worth asking again.
    fn poll(&mut self, waker: &Waker) -> (ready: bool)
        ensures
            ready == final(self).done(),
            old(self).done() ==> final(self).done(),
            final(self).answers() == old(self).answers().push((*waker, ready)),
    ;
}

/// A future, held in a box.
struct Waiting<F>(F);

impl<F: FlushFuture> FlushFuture for Waiting<F> {
    closed spec fn done(&self) -> bool {
        self.0.done()
    }

    closed spec fn answers(&self) -> Seq<(Waker, bool)> {
        self.0.answers()
    }

    fn poll(&mut self, waker: &Waker) -> bool {
        self.0.poll(waker)
    }
}

/// Tells when a flush is done.
#[must_use]
pub struct FlushWait(Option<Box<dyn FlushFuture>>);

impl FlushWait {
    /// Whether the flush is known to be done.
    pub closed spec fn flushed(&self) -> bool {
        match self.0 {
            Some(f) => f.done(),
            None => true,
        }
    }

    /// What the future that this waits for was asked and has answered. There is none where the
    /// flush is done at once.
    pub closed spec fn answers(&self) -> Option<Seq<(Waker, bool)>> {
        match self.0 {
            Some(f) => Some(f.answers()),
            None => None,
        }
    }

    /// A flush that is done at once.
    pub fn ready() -> (r: Self)
        ensures
            r.flushed(),
            r.answers() is None,
    {
        FlushWait(None)
    }

    /// A flush that is done when `f` has completed. `f` is not asked yet.
    pub fn from_future<F: FlushFuture + 'static>(f: F) -> (r: Self)
        ensures
            r.flushed() == f.done(),
            r.answers() == Some(f.answers()),
    {
        let waiting = Waiting(f);
        assert(waiting.done() == f.done());
        assert(waiting.answers() == f.answers());
        FlushWait(Some(Box::new(waiting)))
    }

    /// Asks whether the flush is done: asks the future once, with the same waker, and answers what
    /// it answers. What is done stays so.
    pub fn poll(&mut self, waker: &Waker) -> (ready: bool)
        ensures
            ready == final(self).flushed(),
            old(self).flushed() ==> ready,
            match old(self).answers() {
                Some(a) => final(self).answers() == Some(a.push((*waker, ready))),
                None => ready && final(self).answers() is None,
            },
    {
        match &mut self.0 {
            Some(f) => f.poll(waker),
            None => true,
        }
    }
}

/// An entry that is to be appended to a sink. [`AppendOnDrop::drop`] has to be called for that: an
/// entry that merely goes out of scope is lost.
#[must_use]
#[derive(Debug)]
pub struct AppendOnDrop<E, Q> {
    entry: E,
    sink: Q,
}

impl<E, Q> AppendOnDrop<E, Q> {
    /// The entry, as it is now.
    pub closed spec fn entry(&self) -> E {
        self.entry
    }

    /// The sink to which it will be appended.
    pub closed spec fn sink(&self) -> Q {
        self.sink
    }

    /// Wraps an entry.
    pub(crate) fn new(entry: E, sink: Q) -> (r: Self)
        ensures
            r.entry() == entry,
            r.sink() == sink,
    {
        AppendOnDrop { entry, sink }
    }

    /// Takes the entry out, without appending it to the sink, which is handed back.
    pub fn into_entry(self) -> (r: (E, Q))
        ensures
            r.0 == self.entry(),
            r.1 == self.sink(),
    {
        (self.entry, self.sink)
    }

    /// Drops the entry without appending it to the sink, which is handed back.
    pub fn forget(self) -> (r: Q)
        ensures
            r == self.sink(),
    {
        self.sink
    }

    /// Borrows the entry.
    pub fn deref(&self) -> (r: &E)
        ensures
            *r == self.entry(),
    {
        &self.entry
    }

    /// Borrows the entry, so that it can be changed before it is appended.
    pub fn deref_mut(&mut self) -> (r: &mut E)
        ensures
            *r == old(self).entry(),
            final(self).entry() == *final(r),
            final(self).sink() == old(self).sink(),
    {
        &mut self.entry
    }
}

impl<E: Clone, Q: Clone> Clone for AppendOnDrop<E, Q> {
    /// Wraps a clone of the entry. It is appended on its own, to a clone of the sink.
    fn clone(&self) -> (r: Self)
        ensures
            vstd::pervasive::strictly_cloned(self.entry(), r.entry()),
            vstd::pervasive::strictly_cloned(self.sink(), r.sink()),
    {
        AppendOnDrop { entry: self.entry.clone(), sink: self.sink.clone() }
    }
}

impl<E: Entry, Q: EntrySink<E>> AppendOnDrop<E, Q> {
    /// Whether `sink` is what the sink becomes by [`AppendOnDrop::drop`]: the entry, as it is then,
    /// is appended to it once.
    pub open spec fn drops_into(&self, sink: Q) -> bool {
        &&& sink.sent() == self.sink().sent().push(self.entry().content())
        &&& sink.flush_points() == self.sink().flush_points()
        &&& sink.buffer() == self.sink().buffer()
    }

    /// Appends the entry to the sink, which is handed back.
    pub fn drop(self) -> (r: Q)
        ensures
            self.drops_into(r),
    {
        let mut sink = self.sink;
        sink.append(self.entry);
        sink
    }
}

/// A wrapped entry and a clone of it are appended once each, when each is dropped by a call and as
/// each is then, to the same buffer. Until then nothing is appended: changing the wrapped entry leaves
/// the sink as it is.
///
/// `a` and `b` are the two after any changes to their entries. `wrapped` is the first as it was
/// when the second was cloned from it.
pub proof fn clones_are_appended_on_their_own<E: Entry + Clone>(
    wrapped: AppendOnDrop<E, BoxEntrySink>,
    a: AppendOnDrop<E, BoxEntrySink>,
    b: AppendOnDrop<E, BoxEntrySink>,
    sink_a: BoxEntrySink,
    sink_b: BoxEntrySink,
)
    requires
        a.sink() == wrapped.sink(),
        vstd::pervasive::strictly_cloned(wrapped.sink(), b.sink()),
        a.drops_into(sink_a),
        b.drops_into(sink_b),
    ensures
        sink_a.history() == wrapped.sink().history().push(a.entry().content()),
        sink_b.history() == seq![b.entry().content()],
        sink_a.destination() == wrapped.sink().destination(),
        sink_b.destination() == wrapped.sink().destination(),
        sink_a.flush_history() == wrapped.sink().flush_history(),
        sink_b.flush_history() == Seq::<nat>::empty(),
{
    assert(sink_b.history() =~= seq![b.entry().content()]);
}

/// One use of a [`BoxEntrySink`].
pub enum SinkUse {
    /// `made` was cloned from `from`.
    Clone {
        from: BoxEntrySink,
        made: BoxEntrySink,
    },
    /// An entry with this content was appended through a handle.
    Append {
        before: BoxEntrySink,
        after: BoxEntrySink,
        entry: Seq<EntryCallView>,
    },
    /// A flush was requested through a handle.
    Flush {
        before: BoxEntrySink,
        after: BoxEntrySink,
        wait: FlushWait,
    },
}

impl SinkUse {
    /// The handle that is used.
    pub open spec fn used(self) -> BoxEntrySink {
        match self {
            SinkUse::Clone { from, .. } => from,
            SinkUse::Append { before, .. } => before,
            SinkUse::Flush { before, .. } => before,
        }
    }

    /// The handle that comes of it.
    pub open spec fn made(self) -> BoxEntrySink {
        match self {
            SinkUse::Clone { made, .. } => made,
            SinkUse::Append { after, .. } => after,
            SinkUse::Flush { after, .. } => after,
        }
    }

    /// Whether the use has the effect that it has.
    pub open spec fn takes_effect(self) -> bool {
        match self {
            SinkUse::Clone { from, made } => call_ensures(BoxEntrySink::clone, (&from,), made),
            SinkUse::Append { before, after, entry } => {
                &&& after.history() == before.history().push(entry)
                &&& after.flush_history() == before.flush_history()
                &&& after.destination() == before.destination()
            },
            SinkUse::Flush { before, after, wait } => {
                &&& after.history() == before.history()
                &&& after.flush_history() == before.flush_history().push(before.history().len())
                &&& after.destination() == before.destination()
                &&& before.destination().waits.contains(wait)
            },
        }
    }
}

/// Whether a sequence of uses, in the order in which they are made, starts from one handle: each
/// use is of that handle, or of one that came of an earlier use.
pub open spec fn uses_of(origin: BoxEntrySink, uses: Seq<SinkUse>) -> bool {
    forall|i: int|
        0 <= i < uses.len() ==> {
            &&& (#[trigger] uses[i]).takes_effect()
            &&& (uses[i].used() == origin || exists|j: int|
                0 <= j < i && uses[i].used() == (#[trigger] uses[j]).made())
        }
}

/// The entries that a buffer receives in a sequence of uses: those appended through the handles
/// that lead to it, each when it is appended.
pub open spec fn arrivals(uses: Seq<SinkUse>, buffer: Buffer) -> Seq<Seq<EntryCallView>>
    decreases uses.len(),
{
    if uses.len() == 0 {
        Seq::empty()
    } else {
        let before = arrivals(uses.drop_last(), buffer);
        match uses.last() {
            SinkUse::Append { before: handle, entry, .. } => if handle.destination() == buffer {
                before.push(entry)
            } else {
                before
            },
            _ => before,
        }
    }
}

/// The entries appended in a sequence of uses, through whichever handle.
pub open spec fn appended_entries(uses: Seq<SinkUse>) -> Seq<Seq<EntryCallView>>
    decreases uses.len(),
{
    if uses.len() == 0 {
        Seq::empty()
    } else {
        let before = appended_entries(uses.drop_last());
        match uses.last() {
            SinkUse::Append { entry, .. } => before.push(entry),
            _ => before,
        }
    }
}

/// A sink that is used through a handle and its clones receives every entry that is appended, in
/// the order of the calls, whichever handle each call uses. No other buffer receives any. What a
/// request for a flush gives comes from the sink.
pub proof fn clones_feed_one_sink(origin: BoxEntrySink, uses: Seq<SinkUse>, other: Buffer)
    requires
        uses_of(origin, uses),
        other != origin.destination(),
    ensures
        arrivals(uses, origin.destination()) == appended_entries(uses),
        arrivals(uses, other) == Seq::<Seq<EntryCallView>>::empty(),
        forall|i: int|
            0 <= i < uses.len() ==> ((#[trigger] uses[i]) matches SinkUse::Flush { wait, .. }
                ==> origin.destination().waits.contains(wait)),
    decreases uses.len(),
{
    if uses.len() > 0 {
        let shorter = uses.drop_last();
        assert forall|i: int| 0 <= i < shorter.len() implies {
            &&& (#[trigger] shorter[i]).takes_effect()
            &&& (shorter[i].used() == origin || exists|j: int|
                0 <= j < i && shorter[i].used() == (#[trigger] shorter[j]).made())
        } by {
            assert(uses[i].takes_effect());
            if uses[i].used() != origin {
                let j = choose|j: int| 0 <= j < i && uses[i].used() == (#[trigger] uses[j]).made();
                assert(shorter[j] == uses[j]);
            }
        }
        clones_feed_one_sink(origin, shorter, other);
        assert forall|i: int| 0 <= i < uses.len() implies ((#[trigger] uses[i]) matches SinkUse::Flush {
            wait,
            ..
        } ==> origin.destination().waits.contains(wait)) by {
            one_destination(origin, uses, i);
        }
        one_destination(origin, uses, uses.len() - 1);
    }
}

/// Every handle of such a sequence leads to the same buffer.
proof fn one_destination(origin: BoxEntrySink, uses: Seq<SinkUse>, i: int)
    requires
        uses_of(origin, uses),
        0 <= i < uses.len(),
    ensures
        uses[i].used().destination() == origin.destination(),
        uses[i].made().destination() == origin.destination(),
    decreases i,
{
    assert(uses[i].takes_effect());
    if uses[i].used() != origin {
        let j = choose|j: int| 0 <= j < i && uses[i].used() == (#[trigger] uses[j]).made();
        one_destination(origin, uses, j);
    }
}

} // verus!
