//! Entries whose field names can be inflected.
use crate::close::CloseValue;
use crate::entry::{self, BoxEntry, EntryCall, EntryCallView, EntryWriter};
use crate::namestyle::{Identity, NameStyle};
use crate::value::{
    self, FlagConstructor, ForceFlag, MetricFlag, RecordedValue, Value, ValueCallView, ValueWriter,
    WithDimensions,
};
use vstd::prelude::*;

verus! {

/// A name and a value by which entries are grouped when they are sampled.
pub type SampleGroupElement = (String, String);

/// A metric entry, the names of whose fields are inflected by the style `NS`.
///
/// With any particular style it is equivalent to an [`Entry`](crate::entry::Entry). It is "pure":
/// it makes the same calls every time it is written.
pub trait InflectableEntry<NS: NameStyle = Identity> {
    /// The calls that this entry makes under the style `NS`.
    open spec fn fields(&self) -> Seq<EntryCallView> {
        Seq::empty()
    }

    /// Makes those calls to `writer`.
    fn write<W: EntryWriter>(&self, writer: &mut W)
        ensures
            final(writer).written() == old(writer).written() + self.fields(),
    ;

    /// The sample group of this entry. Most entries have an empty one.
    fn sample_group(&self) -> (r: Vec<SampleGroupElement>)
        default_ensures
            r@ == Seq::<SampleGroupElement>::empty(),
    {
        Vec::new()
    }
}

/// A value that can be closed into an [`InflectableEntry`].
pub trait CloseEntry: CloseValue {

}

impl<T: CloseValue> CloseEntry for T where T::Closed: InflectableEntry {

}

/// A call with `flag` forced on the values in it.
pub open spec fn call_with_flag(call: EntryCallView, flag: MetricFlag) -> EntryCallView {
    match call {
        EntryCallView::Value(name, calls) => EntryCallView::Value(
            name,
            value::all_with_flag(calls, flag),
        ),
        other => other,
    }
}

/// `flag` forced on each of a list of calls.
pub open spec fn calls_with_flag(calls: Seq<EntryCallView>, flag: MetricFlag) -> Seq<
    EntryCallView,
> {
    calls.map_values(|c: EntryCallView| call_with_flag(c, flag))
}

/// A call with `more` dimensions on the values in it.
pub open spec fn call_with_dimensions(
    call: EntryCallView,
    more: Seq<(Seq<char>, Seq<char>)>,
) -> EntryCallView {
    match call {
        EntryCallView::Value(name, calls) => EntryCallView::Value(
            name,
            value::all_with_more_dimensions(calls, more),
        ),
        other => other,
    }
}

/// `more` dimensions on each of a list of calls.
pub open spec fn calls_with_dimensions(
    calls: Seq<EntryCallView>,
    more: Seq<(Seq<char>, Seq<char>)>,
) -> Seq<EntryCallView> {
    calls.map_values(|c: EntryCallView| call_with_dimensions(c, more))
}

/// Records all that an entry writes under the style `NS`.
fn record<NS: NameStyle, T: InflectableEntry<NS>>(entry: &T) -> (r: BoxEntry)
    ensures
        r.content() == entry.fields(),
{
    let mut r = BoxEntry::new();
    entry.write(&mut r);
    proof {
        assert(Seq::<EntryCallView>::empty() + entry.fields() =~= entry.fields());
    }
    r
}

/// Passes calls on to a writer, with the flag `F` forced on every value. Timestamps and
/// configuration are passed on as they are.
struct ForceFlagEntryWriter<'a, F: FlagConstructor> {
    calls: &'a Vec<EntryCall>,
    phantom: std::marker::PhantomData<F>,
}

impl<'a, F: FlagConstructor> ForceFlagEntryWriter<'a, F> {
    fn forward<W: EntryWriter>(&self, writer: &mut W)
        ensures
            final(writer).written() == old(writer).written() + calls_with_flag(
                entry::entry_calls(self.calls@),
                F::flag(),
            ),
    {
        let ghost all = calls_with_flag(entry::entry_calls(self.calls@), F::flag());
        let mut i: usize = 0;
        while i < self.calls.len()
            invariant
                i <= self.calls@.len(),
                all == calls_with_flag(entry::entry_calls(self.calls@), F::flag()),
                writer.written() == old(writer).written() + all.take(i as int),
            decreases self.calls@.len() - i,
        {
            match &self.calls[i] {
                EntryCall::Timestamp(t) => writer.timestamp(*t),
                EntryCall::Value(name, v) => writer.value(
                    name.as_str(),
                    &ForceFlag::<ValueRef<'_>, F>::new(ValueRef(v)),
                ),
                EntryCall::Config(c) => writer.config(c),
            }
            proof {
                assert(entry::entry_calls(self.calls@)[i as int] == self.calls@[i as int]@);
                assert(all[i as int] == call_with_flag(self.calls@[i as int]@, F::flag()));
                assert(all.take(i + 1) =~= all.take(i as int).push(all[i as int]));
                assert(old(writer).written() + all.take(i + 1) =~= (old(writer).written()
                    + all.take(i as int)).push(all[i as int]));
            }
            i += 1;
        }
        proof {
            assert(all.take(i as int) =~= all);
        }
    }
}

/// A recorded value, borrowed.
struct ValueRef<'a>(&'a RecordedValue);

impl<'a> Value for ValueRef<'a> {
    closed spec fn calls(&self) -> Seq<ValueCallView> {
        value::value_calls(self.0.calls@)
    }

    fn write<W: ValueWriter>(&self, writer: &mut W) {
        self.0.write(writer);
    }
}

/// A borrowed recorded value with more dimensions.
struct WithMoreDimensions<'a> {
    value: &'a RecordedValue,
    more: &'a Vec<(String, String)>,
}

impl<'a> Value for WithMoreDimensions<'a> {
    closed spec fn calls(&self) -> Seq<ValueCallView> {
        value::all_with_more_dimensions(
            value::value_calls(self.value.calls@),
            value::dimension_texts(self.more@),
        )
    }

    fn write<W: ValueWriter>(&self, writer: &mut W) {
        value::write_with_dimensions(self.value, self.more, writer);
    }
}

/// Passes calls on to a writer, with `more` dimensions on every value. Timestamps and
/// configuration are passed on as they are.
fn forward_with_dimensions<W: EntryWriter>(
    calls: &Vec<EntryCall>,
    more: &Vec<(String, String)>,
    writer: &mut W,
)
    ensures
        final(writer).written() == old(writer).written() + calls_with_dimensions(
            entry::entry_calls(calls@),
            value::dimension_texts(more@),
        ),
{
    let ghost texts = value::dimension_texts(more@);
    let ghost all = calls_with_dimensions(entry::entry_calls(calls@), texts);
    let mut i: usize = 0;
    while i < calls.len()
        invariant
            i <= calls@.len(),
            texts == value::dimension_texts(more@),
            all == calls_with_dimensions(entry::entry_calls(calls@), texts),
            writer.written() == old(writer).written() + all.take(i as int),
        decreases calls@.len() - i,
    {
        match &calls[i] {
            EntryCall::Timestamp(t) => writer.timestamp(*t),
            EntryCall::Value(name, v) => writer.value(
                name.as_str(),
                &WithMoreDimensions { value: v, more },
            ),
            EntryCall::Config(c) => writer.config(c),
        }
        proof {
            assert(entry::entry_calls(calls@)[i as int] == calls@[i as int]@);
            assert(all[i as int] == call_with_dimensions(calls@[i as int]@, texts));
            assert(all.take(i + 1) =~= all.take(i as int).push(all[i as int]));
            assert(old(writer).written() + all.take(i + 1) =~= (old(writer).written() + all.take(
                i as int,
            )).push(all[i as int]));
        }
        i += 1;
    }
    proof {
        assert(all.take(i as int) =~= all);
    }
}

/// Every value of the entry carries the flag.
impl<NS: NameStyle, T: InflectableEntry<NS>, F: FlagConstructor> InflectableEntry<
    NS,
> for ForceFlag<T, F> {
    open spec fn fields(&self) -> Seq<EntryCallView> {
        calls_with_flag(self.inner().fields(), F::flag())
    }

    fn write<W: EntryWriter>(&self, writer: &mut W) {
        let recorded = record::<NS, T>(self.value());
        let forced = ForceFlagEntryWriter::<F> {
            calls: recorded.calls(),
            phantom: std::marker::PhantomData,
        };
        forced.forward(writer);
    }
}

/// Every value of the entry carries the dimensions.
impl<NS: NameStyle, T: InflectableEntry<NS>, const N: usize> InflectableEntry<
    NS,
> for WithDimensions<T, N> {
    open spec fn fields(&self) -> Seq<EntryCallView> {
        calls_with_dimensions(self.inner().fields(), self.dimensions())
    }

    fn write<W: EntryWriter>(&self, writer: &mut W) {
        let recorded = record::<NS, T>(self.value());
        forward_with_dimensions(recorded.calls(), self.dimension_list(), writer);
    }
}

} // verus!
