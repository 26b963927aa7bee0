//! Reporters of any type, and the order in which they are told something.
use crate::reporter::{MetricReporter, ReporterCall};
use vstd::prelude::*;

verus! {

/// A reporter of any type.
pub struct BoxReporter(Box<dyn MetricReporter>);

/// A reporter, held in a box.
struct Boxed<R>(R);

impl<R: MetricReporter> MetricReporter for Boxed<R> {
    closed spec fn task(&self) -> int {
        self.0.task()
    }

    closed spec fn told(&self) -> Seq<ReporterCall> {
        self.0.told()
    }

    fn abort(&mut self) {
        self.0.abort()
    }

    fn forget(&mut self) {
        self.0.forget()
    }
}

impl BoxReporter {
    /// Which task it is.
    pub closed spec fn task(&self) -> int {
        self.0.task()
    }

    /// What it was told, oldest first.
    pub closed spec fn told(&self) -> Seq<ReporterCall> {
        self.0.told()
    }

    /// Whether this is `before` after it was told one thing more.
    pub open spec fn is_after(&self, before: BoxReporter, call: ReporterCall) -> bool {
        self.task() == before.task() && self.told() == before.told().push(call)
    }

    /// Erases the type of `reporter`.
    pub(crate) fn new<R: MetricReporter + 'static>(reporter: R) -> (r: Self)
        ensures
            r.task() == reporter.task(),
            r.told() == reporter.told(),
    {
        let boxed = Boxed(reporter);
        assert(boxed.task() == reporter.task());
        assert(boxed.told() == reporter.told());
        BoxReporter(Box::new(boxed))
    }

    /// Tells the reporter something, and notes that.
    pub(crate) fn tell(&mut self, call: ReporterCall, journal: &mut Journal)
        ensures
            final(self).is_after(*old(self), call),
            final(journal).entries() == old(journal).entries().push((*old(self), call)),
    {
        let ghost before = *self;
        match call {
            ReporterCall::Abort => self.0.abort(),
            ReporterCall::Forget => self.0.forget(),
        }
        journal.note(Ghost(before), call);
    }
}

/// What reporters were told, in the order in which they were. Nothing but [`BoxReporter::tell`]
/// adds to it.
pub struct Journal(Ghost<Seq<(BoxReporter, ReporterCall)>>);

impl Journal {
    /// The calls, oldest first, each with the reporter as it was before the call.
    pub closed spec fn entries(&self) -> Seq<(BoxReporter, ReporterCall)> {
        self.0@
    }

    /// No reporter was told anything yet.
    pub(crate) fn new() -> (r: Self)
        ensures
            r.entries() == Seq::<(BoxReporter, ReporterCall)>::empty(),
    {
        Journal(Ghost(Seq::empty()))
    }

    fn note(&mut self, before: Ghost<BoxReporter>, call: ReporterCall)
        ensures
            final(self).entries() == old(self).entries().push((before@, call)),
    {
        self.0 = Ghost(self.0@.push((before@, call)));
    }
}

} // verus!
