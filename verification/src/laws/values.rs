//! What values and entries write, and what flags and dimensions change of it.
use crate::entry::{
    self, BoxEntry, Entry, EntryCall, EntryCallView, EntryConfig, EntryConfigView, EntryDimensions,
};
use crate::inflect::InflectableEntry;
use crate::namestyle::NameStyle;
use crate::value::{
    self, Float64, FlagConstructor, ForceFlag, HighStorageResolutionFlag, MetricFlag,
    Millis, NegativeScale, NoMetricFlag, Observation, RecordedValue, Unit, Value, ValueCall,
    ValueCallView, WithDimensions,
};
use vstd::prelude::*;

verus! {

/// A text writes itself, and nothing else.
pub proof fn texts_write_themselves(text: &str, string: String)
    ensures
        text.calls().len() == 1,
        text.calls()[0] == ValueCallView::Str(text@),
        string.calls().len() == 1,
        string.calls()[0] == ValueCallView::Str(string@),
{
}

/// A number writes itself as the one observation of a metric without a unit, dimensions and flags.
pub proof fn numbers_write_themselves(n: u64, m: usize)
    ensures
        n.calls().len() == 1,
        n.calls()[0] matches ValueCallView::Metric { observations, unit, dimensions, flags }
            && observations =~= seq![Observation::Unsigned(n)] && unit == Unit::Unitless
            && dimensions.len() == 0 && flags.len() == 0,
        m.calls() == (m as u64).calls(),
{
}

/// A duration writes itself as the one observation of a metric in milliseconds.
pub proof fn durations_write_themselves(number: Float64)
    ensures
        Millis(number).calls().len() == 1,
        Millis(number).calls()[0] matches ValueCallView::Metric {
            observations,
            unit,
            dimensions,
            flags,
        } && observations =~= seq![Observation::Floating(number)] && unit == Unit::Second(
            NegativeScale::Milli,
        ) && dimensions.len() == 0 && flags.len() == 0,
{
}

/// An optional value writes what it writes if it is there, and nothing if it is not.
pub proof fn optional_values_write_what_is_there<T: Value>(value: T)
    ensures
        Some(value).calls() == value.calls(),
        None::<T>.calls().len() == 0,
{
}

/// A recording holds the calls that were made, each as it was made, and writes them again.
pub proof fn recordings_keep_every_call<V: Value>(value: V, recorded: RecordedValue, at: int)
    requires
        call_ensures(RecordedValue::of::<V>, (&value,), recorded),
        0 <= at < value.calls().len(),
    ensures
        recorded.calls@.len() == value.calls().len(),
        recorded.calls() == value.calls(),
        match (recorded.calls@[at], value.calls()[at]) {
            (ValueCall::Str(s), ValueCallView::Str(t)) => s@ == t,
            (
                ValueCall::Metric(m),
                ValueCallView::Metric { observations, unit, dimensions, flags },
            ) => {
                &&& m.observations@ == observations
                &&& m.unit == unit
                &&& m.flags@ == flags
                &&& m.dimensions@.len() == dimensions.len()
                &&& forall|i: int|
                    0 <= i < dimensions.len() ==> {
                        &&& m.dimensions@[i].0@ == (#[trigger] dimensions[i]).0
                        &&& m.dimensions@[i].1@ == dimensions[i].1
                    }
            },
            _ => false,
        },
{
    assert(value::value_calls(recorded.calls@)[at] == value.calls()[at]);
    assert(recorded.calls@[at]@ == value.calls()[at]);
    if let ValueCall::Metric(m) = recorded.calls@[at] {
        let texts = value::dimension_texts(m.dimensions@);
        assert forall|i: int| 0 <= i < texts.len() implies m.dimensions@[i].0@ == (
        #[trigger] texts[i]).0 && m.dimensions@[i].1@ == texts[i].1 by {}
    }
}

/// Adding dimensions changes nothing of a value but the dimensions of its metrics: observations,
/// units and flags are those that the value writes, its own dimensions come before those that are
/// added, and texts stay as they are. As many calls are made, in the same order.
pub proof fn dimensions_change_dimensions_alone<T: Value, const N: usize>(
    value: WithDimensions<T, N>,
    at: int,
)
    ensures
        value.calls().len() == value.inner().calls().len(),
        0 <= at < value.calls().len() ==> match (value.inner().calls()[at], value.calls()[at]) {
            (ValueCallView::Str(before), ValueCallView::Str(after)) => before == after,
            (
                ValueCallView::Metric { observations, unit, dimensions, flags },
                ValueCallView::Metric {
                    observations: observations_after,
                    unit: unit_after,
                    dimensions: dimensions_after,
                    flags: flags_after,
                },
            ) => {
                &&& observations_after == observations
                &&& unit_after == unit
                &&& flags_after == flags
                &&& dimensions_after == dimensions + value.dimensions()
            },
            _ => false,
        },
{
}

/// What [`dimensions_change_dimensions_alone`] says, of any calls and any dimensions: this is what
/// [`value::write_with_dimensions`] hands on.
pub proof fn added_dimensions_change_dimensions_alone(
    calls: Seq<ValueCallView>,
    more: Seq<(String, String)>,
    at: int,
)
    ensures
        ({
            let texts = value::dimension_texts(more);
            let after = value::all_with_more_dimensions(calls, texts);
            &&& after.len() == calls.len()
            &&& texts.len() == more.len()
            &&& 0 <= at < more.len() ==> texts[at].0 == more[at].0@ && texts[at].1 == more[at].1@
            &&& 0 <= at < calls.len() ==> match (calls[at], after[at]) {
                (ValueCallView::Str(before), ValueCallView::Str(after)) => before == after,
                (
                    ValueCallView::Metric { observations, unit, dimensions, flags },
                    ValueCallView::Metric {
                        observations: observations_after,
                        unit: unit_after,
                        dimensions: dimensions_after,
                        flags: flags_after,
                    },
                ) => {
                    &&& observations_after == observations
                    &&& unit_after == unit
                    &&& flags_after == flags
                    &&& dimensions_after == dimensions + texts
                },
                _ => false,
            }
        }),
{
}

/// Writing a value with more dimensions adds to what the writer has received as many calls as the
/// value makes. They differ from those in the dimensions of metrics alone, which the value's own
/// precede.
pub proof fn writing_with_dimensions_keeps_the_rest<V: Value>(
    value: V,
    more: Vec<(String, String)>,
    writer: &mut RecordedValue,
    at: int,
)
    requires
        call_ensures(
            value::write_with_dimensions::<V, RecordedValue>,
            (&value, &more, writer),
            (),
        ),
        0 <= at < value.calls().len(),
    ensures
        ({
            let before = value::value_calls(old(writer).calls@);
            let after = value::value_calls(final(writer).calls@);
            &&& after.len() == before.len() + value.calls().len()
            &&& after.take(before.len() as int) =~= before
            &&& match (value.calls()[at], after[before.len() + at]) {
                (ValueCallView::Str(own), ValueCallView::Str(written)) => own == written,
                (
                    ValueCallView::Metric { observations, unit, dimensions, flags },
                    ValueCallView::Metric {
                        observations: observations_written,
                        unit: unit_written,
                        dimensions: dimensions_written,
                        flags: flags_written,
                    },
                ) => {
                    &&& observations_written == observations
                    &&& unit_written == unit
                    &&& flags_written == flags
                    &&& dimensions_written.len() == dimensions.len() + more@.len()
                    &&& forall|i: int|
                        0 <= i < dimensions.len() ==> #[trigger] dimensions_written[i]
                            == dimensions[i]
                    &&& forall|i: int|
                        0 <= i < more@.len() ==> {
                            let d = #[trigger] dimensions_written[dimensions.len() + i];
                            d.0 == more@[i].0@ && d.1 == more@[i].1@
                        }
                },
                _ => false,
            }
        }),
{
    added_dimensions_change_dimensions_alone(value.calls(), more@, at);
}

/// A value that carries a dimension carries that one alone, under the name and with the value that
/// were given.
pub proof fn a_dimension_is_what_was_given<T, const N: usize>(
    value: T,
    key: &str,
    dimension: &str,
    r: WithDimensions<T, N>,
)
    requires
        call_ensures(WithDimensions::<T, N>::new, (value, key, dimension), r),
    ensures
        r.inner() == value,
        r.dimensions().len() == 1,
        r.dimensions()[0].0 == key@,
        r.dimensions()[0].1 == dimension@,
{
}

/// Forcing a flag changes nothing of a value but the flags of its metrics: each has that flag more,
/// after those that it had. As many calls are made, in the same order.
pub proof fn flags_change_flags_alone<T: Value, F: FlagConstructor>(
    value: ForceFlag<T, F>,
    at: int,
)
    ensures
        value.calls().len() == value.inner().calls().len(),
        0 <= at < value.calls().len() ==> match (value.inner().calls()[at], value.calls()[at]) {
            (ValueCallView::Str(before), ValueCallView::Str(after)) => before == after,
            (
                ValueCallView::Metric { observations, unit, dimensions, flags },
                ValueCallView::Metric {
                    observations: observations_after,
                    unit: unit_after,
                    dimensions: dimensions_after,
                    flags: flags_after,
                },
            ) => {
                &&& observations_after == observations
                &&& unit_after == unit
                &&& dimensions_after == dimensions
                &&& flags_after == flags.push(F::flag())
            },
            _ => false,
        },
        HighStorageResolutionFlag::flag() == MetricFlag::HighStorageResolution,
        NoMetricFlag::flag() == MetricFlag::NoMetric,
{
}

/// Of an entry whose values are flagged, configuration, timestamps and the names of fields stay,
/// and each value has the flag more on its metrics alone.
pub proof fn flagged_entries_change_flags_alone<
    NS: NameStyle,
    T: InflectableEntry<NS>,
    F: FlagConstructor,
>(entry: ForceFlag<T, F>, at: int, k: int)
    ensures
        ({
            let before = InflectableEntry::<NS>::fields(&entry.inner());
            let after = InflectableEntry::<NS>::fields(&entry);
            &&& after.len() == before.len()
            &&& 0 <= at < before.len() ==> match (before[at], after[at]) {
                (EntryCallView::Timestamp(t), EntryCallView::Timestamp(u)) => t == u,
                (EntryCallView::Config(c), EntryCallView::Config(d)) => c == d,
                (EntryCallView::Value(name, calls), EntryCallView::Value(name_after, flagged)) => {
                    &&& name_after == name
                    &&& flagged.len() == calls.len()
                    &&& 0 <= k < calls.len() ==> match (calls[k], flagged[k]) {
                        (ValueCallView::Str(s), ValueCallView::Str(t)) => s == t,
                        (
                            ValueCallView::Metric { observations, unit, dimensions, flags },
                            ValueCallView::Metric {
                                observations: observations_after,
                                unit: unit_after,
                                dimensions: dimensions_after,
                                flags: flags_after,
                            },
                        ) => {
                            &&& observations_after == observations
                            &&& unit_after == unit
                            &&& dimensions_after == dimensions
                            &&& flags_after == flags.push(F::flag())
                        },
                        _ => false,
                    }
                },
                _ => false,
            }
        }),
{
}

/// Of an entry whose values carry more dimensions, configuration, timestamps and the names of
/// fields stay, and each value has the dimensions more on its metrics alone, after their own.
pub proof fn dimensioned_entries_change_dimensions_alone<
    NS: NameStyle,
    T: InflectableEntry<NS>,
    const N: usize,
>(entry: WithDimensions<T, N>, at: int, k: int)
    ensures
        ({
            let before = InflectableEntry::<NS>::fields(&entry.inner());
            let after = InflectableEntry::<NS>::fields(&entry);
            &&& after.len() == before.len()
            &&& 0 <= at < before.len() ==> match (before[at], after[at]) {
                (EntryCallView::Timestamp(t), EntryCallView::Timestamp(u)) => t == u,
                (EntryCallView::Config(c), EntryCallView::Config(d)) => c == d,
                (EntryCallView::Value(name, calls), EntryCallView::Value(name_after, wider)) => {
                    &&& name_after == name
                    &&& wider.len() == calls.len()
                    &&& 0 <= k < calls.len() ==> match (calls[k], wider[k]) {
                        (ValueCallView::Str(s), ValueCallView::Str(t)) => s == t,
                        (
                            ValueCallView::Metric { observations, unit, dimensions, flags },
                            ValueCallView::Metric {
                                observations: observations_after,
                                unit: unit_after,
                                dimensions: dimensions_after,
                                flags: flags_after,
                            },
                        ) => {
                            &&& observations_after == observations
                            &&& unit_after == unit
                            &&& flags_after == flags
                            &&& dimensions_after == dimensions + entry.dimensions()
                        },
                        _ => false,
                    }
                },
                _ => false,
            }
        }),
{
}

/// An entry of erased type holds the calls that the entry makes, each as it was made, and writes
/// them again.
pub proof fn erased_entries_keep_every_call<E: Entry>(
    entry: E,
    erased: BoxEntry,
    calls: &Vec<EntryCall>,
    at: int,
)
    requires
        call_ensures(E::boxed, (entry,), erased),
        call_ensures(BoxEntry::calls, (&erased,), calls),
        0 <= at < entry.content().len(),
    ensures
        Entry::content(&erased) == entry.content(),
        calls@.len() == entry.content().len(),
        match (calls@[at], entry.content()[at]) {
            (EntryCall::Timestamp(t), EntryCallView::Timestamp(u)) => t == u,
            (EntryCall::Value(name, recorded), EntryCallView::Value(n, written)) => {
                name@ == n && recorded.calls() == written
            },
            (
                EntryCall::Config(EntryConfig::AllowSplitEntries),
                EntryCallView::Config(EntryConfigView::AllowSplitEntries),
            ) => true,
            (
                EntryCall::Config(EntryConfig::EntryDimensions(d)),
                EntryCallView::Config(EntryConfigView::EntryDimensions(sets)),
            ) => d@ == sets,
            _ => false,
        },
{
    assert(entry::entry_calls(calls@)[at] == entry.content()[at]);
    assert(calls@[at]@ == entry.content()[at]);
}

/// The model of dimension sets holds each name of each set, in order.
pub proof fn dimension_sets_are_what_they_hold(dimensions: EntryDimensions, i: int, j: int)
    ensures
        dimensions@.len() == dimensions.sets@.len(),
        0 <= i < dimensions@.len() ==> dimensions@[i].len() == dimensions.sets@[i]@.len(),
        0 <= i < dimensions@.len() && 0 <= j < dimensions@[i].len() ==> dimensions@[i][j]
            == dimensions.sets@[i]@[j]@,
{
}

/// A copy of some configuration is the same configuration.
pub proof fn copied_configuration_is_the_same(config: EntryConfig, copy: EntryConfig)
    requires
        call_ensures(EntryConfig::duplicate, (&config,), copy),
    ensures
        match (config, copy) {
            (EntryConfig::AllowSplitEntries, EntryConfig::AllowSplitEntries) => true,
            (EntryConfig::EntryDimensions(a), EntryConfig::EntryDimensions(b)) => a@ == b@,
            _ => false,
        },
{
}

/// Copied strings and dimensions are the same, in the same order.
pub proof fn copied_lists_are_the_same(
    strings: Vec<String>,
    strings_copy: Vec<String>,
    dimensions: Vec<(String, String)>,
    dimensions_copy: Vec<(String, String)>,
    sets: Vec<Vec<String>>,
    sets_copy: Vec<Vec<String>>,
    i: int,
    j: int,
)
    requires
        call_ensures(entry::clone_strings, (&strings,), strings_copy),
        call_ensures(value::clone_dimensions, (&dimensions,), dimensions_copy),
        call_ensures(entry::clone_string_sets, (&sets,), sets_copy),
    ensures
        strings_copy@ == strings@,
        dimensions_copy@ == dimensions@,
        sets_copy@.len() == sets@.len(),
        0 <= i < sets@.len() ==> sets_copy@[i]@.len() == sets@[i]@.len(),
        0 <= i < sets@.len() && 0 <= j < sets@[i]@.len() ==> sets_copy@[i]@[j]@ == sets@[i]@[j]@,
{
    let before = entry::text_sets(sets@);
    let after = entry::text_sets(sets_copy@);
    assert(before == after);
    assert(before.len() == sets@.len() && after.len() == sets_copy@.len());
    if 0 <= i < sets@.len() {
        assert(before[i] == entry::texts(sets@[i]@));
        assert(after[i] == entry::texts(sets_copy@[i]@));
        if 0 <= j < sets@[i]@.len() {
            assert(before[i][j] == sets@[i]@[j]@);
            assert(after[i][j] == sets_copy@[i]@[j]@);
        }
    }
}

} // verus!
