//! What fuzzed entries write.
use crate::entry::{BoxEntry, Entry, EntryCallView, EntryConfigView, UnixTime};
use crate::fuzz::emf::{self, build_emf, EmfFuzzEntry, EmfSettings, FuzzEmfConfig};
use crate::fuzz::types::{
    self, FuzzEntry, FuzzField, FuzzFieldView, FuzzMetricFlagMode, FuzzObservation, FuzzTimestamp,
    FuzzUnit,
};
use crate::fuzz::writing::{self, FuzzMetricValue};
use crate::time;
use crate::value::{
    MetricFlag, NegativeScale, Observation, PositiveScale, Unit, Value, ValueCallView,
};
use std::time::SystemTime;
use vstd::prelude::*;

verus! {

/// An observation stands for the observation of the same kind with the same numbers.
pub proof fn observations_stand_for_themselves(o: FuzzObservation, r: Observation)
    requires
        call_ensures(FuzzObservation::to_observation, (&o,), r),
    ensures
        same_observation(o, r),
{
}

/// Whether two observations are of the same kind with the same numbers.
pub open spec fn same_observation(o: FuzzObservation, r: Observation) -> bool {
    match (o, r) {
        (FuzzObservation::Unsigned(a), Observation::Unsigned(b)) => a == b,
        (FuzzObservation::Floating(a), Observation::Floating(b)) => a == b,
        (
            FuzzObservation::Repeated { total, occurrences },
            Observation::Repeated { total: t, occurrences: n },
        ) => total == t && occurrences == n,
        _ => false,
    }
}

/// The units, in the order in which they are drawn.
pub open spec fn all_units() -> Seq<(FuzzUnit, Unit)> {
    seq![
        (FuzzUnit::Unitless, Unit::Unitless),
        (FuzzUnit::Count, Unit::Count),
        (FuzzUnit::Percent, Unit::Percent),
        (FuzzUnit::SecondMicro, Unit::Second(NegativeScale::Micro)),
        (FuzzUnit::SecondMilli, Unit::Second(NegativeScale::Milli)),
        (FuzzUnit::Second, Unit::Second(NegativeScale::One)),
        (FuzzUnit::Byte, Unit::Byte(PositiveScale::One)),
        (FuzzUnit::KiloByte, Unit::Byte(PositiveScale::Kilo)),
        (FuzzUnit::MegaByte, Unit::Byte(PositiveScale::Mega)),
        (FuzzUnit::Bit, Unit::Bit(PositiveScale::One)),
        (FuzzUnit::KiloBit, Unit::Bit(PositiveScale::Kilo)),
    ]
}

/// A unit stands for the unit that it is called after.
pub proof fn units_stand_for_themselves(at: int, r: Unit)
    requires
        0 <= at < all_units().len(),
        call_ensures(FuzzUnit::to_unit, (&all_units()[at].0,), r),
    ensures
        r == all_units()[at].1,
{
}

/// The flags of a mode, from the inside out.
pub open spec fn flags_of(mode: FuzzMetricFlagMode) -> Seq<MetricFlag> {
    let high = MetricFlag::HighStorageResolution;
    let none = MetricFlag::NoMetric;
    match mode {
        FuzzMetricFlagMode::Plain => Seq::empty(),
        FuzzMetricFlagMode::HighStorageResolution => seq![high],
        FuzzMetricFlagMode::NoMetric => seq![none],
        FuzzMetricFlagMode::HighThenNoMetric => seq![high, none],
        FuzzMetricFlagMode::NoMetricThenHigh => seq![none, high],
    }
}

/// Whether a call writes a field: its name, and either its text or a metric with its observations,
/// unit and dimensions and with these flags.
pub open spec fn writes_field(field: FuzzField, call: EntryCallView, flags: Seq<MetricFlag>) -> bool {
    match (field, call) {
        (FuzzField::StringProperty { name, value }, EntryCallView::Value(n, calls)) => {
            &&& n == name@
            &&& calls.len() == 1
            &&& calls[0] == ValueCallView::Str(value@)
        },
        (
            FuzzField::Metric { name, observations, dimensions, unit, .. },
            EntryCallView::Value(n, calls),
        ) => {
            &&& n == name@
            &&& calls.len() == 1
            &&& calls[0] matches ValueCallView::Metric {
                observations: os,
                unit: u,
                dimensions: ds,
                flags: fs,
            } && {
                &&& os.len() == observations@.len()
                &&& forall|i: int|
                    0 <= i < os.len() ==> same_observation(observations@[i], #[trigger] os[i])
                &&& exists|k: int|
                    0 <= k < all_units().len() && #[trigger] all_units()[k] == (unit, u)
                &&& ds.len() == dimensions@.len()
                &&& forall|i: int|
                    0 <= i < ds.len() ==> (#[trigger] ds[i]).0 == dimensions@[i].0@ && ds[i].1
                        == dimensions@[i].1@
                &&& fs == flags
            }
        },
        _ => false,
    }
}

/// A field whose model is written is itself written.
proof fn modelled_fields_are_written(field: FuzzField, mode: FuzzMetricFlagMode)
    ensures
        writes_field(field, writing::field_call(field@, mode), flags_of(mode)),
{
    if let FuzzField::Metric { name, observations, dimensions, unit, flag_mode } = field {
        let k: int = match unit {
            FuzzUnit::Unitless => 0,
            FuzzUnit::Count => 1,
            FuzzUnit::Percent => 2,
            FuzzUnit::SecondMicro => 3,
            FuzzUnit::SecondMilli => 4,
            FuzzUnit::Second => 5,
            FuzzUnit::Byte => 6,
            FuzzUnit::KiloByte => 7,
            FuzzUnit::MegaByte => 8,
            FuzzUnit::Bit => 9,
            FuzzUnit::KiloBit => 10,
        };
        assert(all_units()[k] == (unit, unit.unit()));
        assert(writing::mode_flags(mode) =~= flags_of(mode));
    }
}

/// The value of a metric is one metric, with the observations, the unit and the dimensions that it
/// holds and without flags.
pub proof fn metric_values_write_what_they_hold(value: FuzzMetricValue, at: int)
    ensures
        value.calls().len() == 1,
        value.calls()[0] matches ValueCallView::Metric { observations, unit, dimensions, flags } && {
            &&& observations.len() == value.observations@.len()
            &&& 0 <= at < observations.len() ==> same_observation(
                value.observations@[at],
                observations[at],
            )
            &&& unit == value.unit.unit()
            &&& dimensions.len() == value.dimensions@.len()
            &&& 0 <= at < dimensions.len() ==> dimensions[at].0 == value.dimensions@[at].0@
                && dimensions[at].1 == value.dimensions@[at].1@
            &&& flags.len() == 0
        },
{
}

/// Writing a field makes one call, which writes it with the flags of the mode.
pub proof fn fields_are_written_with_a_mode(
    field: FuzzField,
    mode: FuzzMetricFlagMode,
    writer: &mut BoxEntry,
)
    requires
        call_ensures(writing::write_field::<BoxEntry>, (&field, mode, writer), ()),
    ensures
        final(writer).content().len() == old(writer).content().len() + 1,
        final(writer).content().drop_last() =~= old(writer).content(),
        writes_field(
            field,
            final(writer).content().last(),
            if field is Metric {
                flags_of(mode)
            } else {
                Seq::empty()
            },
        ),
{
    modelled_fields_are_written(field, mode);
}

/// The models of fields and entries leave nothing out of them.
pub proof fn models_leave_nothing_out(field: FuzzField, entry: FuzzEntry, at: int)
    ensures
        match (field, field@) {
            (
                FuzzField::StringProperty { name, value },
                FuzzFieldView::StringProperty { name: n, value: v },
            ) => n == name@ && v == value@,
            (
                FuzzField::Metric { name, observations, dimensions, unit, flag_mode },
                FuzzFieldView::Metric {
                    name: n,
                    observations: os,
                    dimensions: ds,
                    unit: u,
                    flag_mode: m,
                },
            ) => {
                &&& n == name@
                &&& os == observations@
                &&& ds.len() == dimensions@.len()
                &&& forall|i: int|
                    0 <= i < ds.len() ==> (#[trigger] ds[i]).0 == dimensions@[i].0@ && ds[i].1
                        == dimensions@[i].1@
                &&& u == unit
                &&& m == flag_mode
            },
            _ => false,
        },
        entry@.timestamps == entry.timestamps@,
        entry@.allow_split_entries == entry.allow_split_entries,
        entry@.entry_dimensions is Some <==> entry.entry_dimensions is Some,
        entry.entry_dimensions matches Some(d) ==> entry@.entry_dimensions->0 == d@,
        entry@.fields.len() == entry.fields@.len(),
        0 <= at < entry.fields@.len() ==> entry@.fields[at] == entry.fields@[at]@,
{
}

/// The time that a timestamp stands for lies on its side of the epoch, at its distance reduced to
/// less than 500 years of 365 days.
pub proof fn timestamps_stand_for_near_times(t: FuzzTimestamp, r: UnixTime, s: SystemTime)
    requires
        call_ensures(FuzzTimestamp::to_unix_time, (&t,), r),
        call_ensures(FuzzTimestamp::to_system_time, (&t,), s),
    ensures
        r == unix_time(t),
        time::epoch_nanos(s) == 0 || time::epoch_nanos(s) == if t.before_epoch {
            -((t.secs % 15_768_000_000) * 1_000_000_000)
        } else {
            (t.secs % 15_768_000_000) * 1_000_000_000
        },
        15_768_000_000 == 365 * 500 * 24 * 3600,
        time::is_so_far_from_epoch(t.before_epoch, (t.secs % 15_768_000_000) as u64, s),
{
}

/// The time that a timestamp stands for.
pub open spec fn unix_time(t: FuzzTimestamp) -> UnixTime {
    UnixTime { before_epoch: t.before_epoch, secs: t.secs % 15_768_000_000, nanos: 0 }
}

/// Whether the first calls are those with which an entry begins: that it may be split, if it may;
/// its dimension sets, if it has any; and its timestamps, all of them in their order. `n` is how
/// many there are.
pub open spec fn begins(entry: FuzzEntry, calls: Seq<EntryCallView>, n: int) -> bool {
    let split: int = if entry.allow_split_entries {
        1
    } else {
        0
    };
    let sets: int = if entry.entry_dimensions is Some {
        1
    } else {
        0
    };
    &&& n == split + sets + entry.timestamps@.len()
    &&& n <= calls.len()
    &&& split == 1 ==> calls[0] == EntryCallView::Config(EntryConfigView::AllowSplitEntries)
    &&& sets == 1 ==> calls[split] == EntryCallView::Config(
        EntryConfigView::EntryDimensions(entry.entry_dimensions->0@),
    )
    &&& forall|i: int|
        0 <= i < entry.timestamps@.len() ==> calls[split + sets + i] == EntryCallView::Timestamp(
            unix_time(#[trigger] entry.timestamps@[i]),
        )
}

/// A fuzzed entry begins as it is to begin, and then writes each field in its order: a property as
/// a text, a metric with the flags of its own mode.
pub proof fn entries_write_all_that_they_hold(entry: FuzzEntry, at: int)
    ensures
        ({
            let head = entry.content().len() - entry.fields@.len();
            &&& begins(entry, entry.content(), head)
            &&& 0 <= at < entry.fields@.len() ==> match entry.fields@[at] {
                FuzzField::StringProperty { .. } => writes_field(
                    entry.fields@[at],
                    entry.content()[head + at],
                    Seq::empty(),
                ),
                FuzzField::Metric { flag_mode, .. } => writes_field(
                    entry.fields@[at],
                    entry.content()[head + at],
                    flags_of(flag_mode),
                ),
            }
        }),
{
    if 0 <= at < entry.fields@.len() {
        assert(types::field_views(entry.fields@)[at] == entry.fields@[at]@);
        match entry.fields@[at] {
            FuzzField::StringProperty { .. } => modelled_fields_are_written(
                entry.fields@[at],
                FuzzMetricFlagMode::Plain,
            ),
            FuzzField::Metric { flag_mode, .. } => modelled_fields_are_written(
                entry.fields@[at],
                flag_mode,
            ),
        }
    }
}

/// An entry with other flags begins as the entry does, and then writes each field in its order: a
/// metric with the flags of the mode at its place in the list, or with none if the list ends before
/// it.
pub proof fn entries_write_with_the_flags_of_the_list(entry: EmfFuzzEntry, at: int)
    ensures
        ({
            let head = entry.content().len() - entry.inner.fields@.len();
            &&& begins(entry.inner, entry.content(), head)
            &&& 0 <= at < entry.inner.fields@.len() ==> writes_field(
                entry.inner.fields@[at],
                entry.content()[head + at],
                if entry.inner.fields@[at] is Metric && at < entry.flag_modes@.len() {
                    flags_of(entry.flag_modes@[at])
                } else {
                    Seq::empty()
                },
            )
        }),
{
    if 0 <= at < entry.inner.fields@.len() {
        assert(types::field_views(entry.inner.fields@)[at] == entry.inner.fields@[at]@);
        modelled_fields_are_written(
            entry.inner.fields@[at],
            emf::mode_at(entry.flag_modes@, at),
        );
    }
}

/// A formatter is built from the settings as they are: the namespace, then the second one if there
/// is one, the dimension sets, and the rest.
pub proof fn formatters_are_built_as_configured(
    config: FuzzEmfConfig,
    r: EmfSettings,
    i: int,
    j: int,
)
    requires
        call_ensures(build_emf, (&config,), r),
    ensures
        r.namespaces@.len() == if config.extra_namespace is Some {
            2int
        } else {
            1int
        },
        r.namespaces@[0]@ == config.namespace@,
        config.extra_namespace matches Some(extra) ==> r.namespaces@[1]@ == extra@,
        r.allow_ignored_dimensions == config.allow_ignored_dimensions,
        r.log_group_name is Some <==> config.log_group_name is Some,
        config.log_group_name matches Some(name) ==> r.log_group_name->0@ == name@,
        r.default_dimensions@.len() == config.default_dimensions@.len(),
        0 <= i < r.default_dimensions@.len() ==> r.default_dimensions@[i]@.len()
            == config.default_dimensions@[i]@.len(),
        0 <= i < r.default_dimensions@.len() && 0 <= j < r.default_dimensions@[i]@.len()
            ==> r.default_dimensions@[i]@[j]@ == config.default_dimensions@[i]@[j]@,
{
    let names = crate::entry::texts(r.namespaces@);
    assert(names.len() == r.namespaces@.len());
    assert(names[0] == r.namespaces@[0]@);
    if config.extra_namespace is Some {
        assert(names[1] == r.namespaces@[1]@);
    }
    let before = crate::entry::text_sets(config.default_dimensions@);
    let after = crate::entry::text_sets(r.default_dimensions@);
    assert(after.len() == r.default_dimensions@.len());
    assert(before.len() == config.default_dimensions@.len());
    if 0 <= i < r.default_dimensions@.len() {
        assert(after[i] == crate::entry::texts(r.default_dimensions@[i]@));
        assert(before[i] == crate::entry::texts(config.default_dimensions@[i]@));
        if 0 <= j < r.default_dimensions@[i]@.len() {
            assert(after[i][j] == r.default_dimensions@[i]@[j]@);
            assert(before[i][j] == config.default_dimensions@[i]@[j]@);
        }
    }
}

} // verus!
