//! Writing fuzzed entries.
use crate::entry::{Entry, EntryCallView, EntryConfig, EntryConfigView, EntryWriter, UnixTime};
use crate::fuzz::types::{
    self, FuzzEntry, FuzzField, FuzzFieldView, FuzzMetricFlagMode, FuzzObservation, FuzzTimestamp,
    FuzzUnit,
};
use crate::time;
use crate::value::{
    self, HighStorageResolution, MetricFlag, NoMetric, Observation, Value, ValueCallView,
    ValueWriter,
};
use std::time::SystemTime;
use vstd::prelude::*;

verus! {

/// Fuzzed times lie less than this many seconds (500 years of 365 days) from the epoch.
pub const TIMESTAMP_BOUND_SECS: u64 = 15_768_000_000;

impl FuzzTimestamp {
    /// The time that this one stands for.
    pub open spec fn time(self) -> UnixTime {
        UnixTime {
            before_epoch: self.before_epoch,
            secs: self.secs % TIMESTAMP_BOUND_SECS,
            nanos: 0,
        }
    }

    /// The time that this one stands for. The distance from the epoch is bounded, to avoid
    /// pathological times.
    pub fn to_unix_time(&self) -> (r: UnixTime)
        ensures
            r == self.time(),
            r.secs < TIMESTAMP_BOUND_SECS,
    {
        UnixTime {
            before_epoch: self.before_epoch,
            secs: self.secs % TIMESTAMP_BOUND_SECS,
            nanos: 0,
        }
    }

    /// The same as a [`SystemTime`]. A time that the platform cannot represent becomes the epoch.
    pub fn to_system_time(&self) -> (r: SystemTime)
        ensures
            time::epoch_nanos(r) == time::epoch_secs(self.before_epoch, self.time().secs)
                * time::NANOS_PER_SEC || time::epoch_nanos(r) == 0,
            time::is_so_far_from_epoch(self.before_epoch, self.time().secs, r),
    {
        time::from_epoch_secs(self.before_epoch, self.to_unix_time().secs)
    }
}

/// The value of a fuzzed metric, before any flag is forced on it.
pub struct FuzzMetricValue<'a> {
    /// The observations.
    pub observations: &'a Vec<FuzzObservation>,
    /// The dimensions.
    pub dimensions: &'a Vec<(String, String)>,
    /// The unit.
    pub unit: FuzzUnit,
}

/// What a fuzzed metric with the flags `flags` is written as.
pub open spec fn metric_call(
    observations: Seq<FuzzObservation>,
    dimensions: Seq<(Seq<char>, Seq<char>)>,
    unit: FuzzUnit,
    flags: Seq<MetricFlag>,
) -> ValueCallView {
    ValueCallView::Metric {
        observations: observations.map_values(|o: FuzzObservation| o.observation()),
        unit: unit.unit(),
        dimensions,
        flags,
    }
}

impl<'a> Value for FuzzMetricValue<'a> {
    open spec fn calls(&self) -> Seq<ValueCallView> {
        seq![
            metric_call(
                self.observations@,
                value::dimension_texts(self.dimensions@),
                self.unit,
                Seq::empty(),
            ),
        ]
    }

    fn write<W: ValueWriter>(&self, writer: &mut W) {
        let mut observations: Vec<Observation> = Vec::new();
        let ghost all = self.observations@.map_values(|o: FuzzObservation| o.observation());
        let mut i: usize = 0;
        while i < self.observations.len()
            invariant
                i <= self.observations@.len(),
                all == self.observations@.map_values(|o: FuzzObservation| o.observation()),
                observations@ == all.take(i as int),
            decreases self.observations@.len() - i,
        {
            observations.push(self.observations[i].to_observation());
            proof {
                assert(all.take(i + 1) =~= all.take(i as int).push(all[i as int]));
            }
            i += 1;
        }
        let flags: Vec<MetricFlag> = Vec::new();
        writer.metric(&observations, self.unit.to_unit(), self.dimensions, &flags);
        proof {
            assert(all.take(i as int) =~= all);
            assert(flags@ =~= Seq::<MetricFlag>::empty());
            assert(writer.received() =~= old(writer).received() + self.calls());
        }
    }
}

/// The flags of a mode, in the order in which they are forced.
pub open spec fn mode_flags(mode: FuzzMetricFlagMode) -> Seq<MetricFlag> {
    match mode {
        FuzzMetricFlagMode::Plain => seq![],
        FuzzMetricFlagMode::HighStorageResolution => seq![MetricFlag::HighStorageResolution],
        FuzzMetricFlagMode::NoMetric => seq![MetricFlag::NoMetric],
        FuzzMetricFlagMode::HighThenNoMetric => seq![
            MetricFlag::HighStorageResolution,
            MetricFlag::NoMetric,
        ],
        FuzzMetricFlagMode::NoMetricThenHigh => seq![
            MetricFlag::NoMetric,
            MetricFlag::HighStorageResolution,
        ],
    }
}

/// What a field is written as when its flags are those of `mode`. A string property has none.
pub open spec fn field_call(field: FuzzFieldView, mode: FuzzMetricFlagMode) -> EntryCallView {
    match field {
        FuzzFieldView::StringProperty { name, value } => EntryCallView::Value(
            name,
            seq![ValueCallView::Str(value)],
        ),
        FuzzFieldView::Metric { name, observations, dimensions, unit, flag_mode } =>
            EntryCallView::Value(
            name,
            seq![metric_call(observations, dimensions, unit, mode_flags(mode))],
        ),
    }
}

/// Forcing a flag on a single call.
proof fn flag_on_one(call: ValueCallView, flag: MetricFlag)
    ensures
        value::all_with_flag(seq![call], flag) == seq![value::with_flag(call, flag)],
{
    assert(value::all_with_flag(seq![call], flag) =~= seq![value::with_flag(call, flag)]);
}

/// Writes a field with the flags of `mode`.
pub fn write_field<W: EntryWriter>(field: &FuzzField, mode: FuzzMetricFlagMode, writer: &mut W)
    ensures
        final(writer).written() == old(writer).written().push(field_call(field@, mode)),
{
    match field {
        FuzzField::StringProperty { name, value } => {
            writer.value(name.as_str(), &value.as_str());
        },
        FuzzField::Metric { name, observations, dimensions, unit, flag_mode: _ } => {
            let metric = FuzzMetricValue { observations, dimensions, unit: *unit };
            let ghost bare = metric.calls()[0];
            proof {
                let high = MetricFlag::HighStorageResolution;
                let none = MetricFlag::NoMetric;
                assert(metric.calls() =~= seq![bare]);
                flag_on_one(bare, high);
                flag_on_one(bare, none);
                flag_on_one(value::with_flag(bare, high), none);
                flag_on_one(value::with_flag(bare, none), high);
                assert(Seq::<MetricFlag>::empty().push(high) =~= seq![high]);
                assert(Seq::<MetricFlag>::empty().push(none) =~= seq![none]);
                assert(seq![high].push(none) =~= seq![high, none]);
                assert(seq![none].push(high) =~= seq![none, high]);
            }
            match mode {
                FuzzMetricFlagMode::Plain => writer.value(name.as_str(), &metric),
                FuzzMetricFlagMode::HighStorageResolution => {
                    writer.value(name.as_str(), &HighStorageResolution::new(metric));
                },
                FuzzMetricFlagMode::NoMetric => {
                    writer.value(name.as_str(), &NoMetric::new(metric));
                },
                FuzzMetricFlagMode::HighThenNoMetric => {
                    writer.value(
                        name.as_str(),
                        &NoMetric::new(HighStorageResolution::new(metric)),
                    );
                },
                FuzzMetricFlagMode::NoMetricThenHigh => {
                    writer.value(
                        name.as_str(),
                        &HighStorageResolution::new(NoMetric::new(metric)),
                    );
                },
            }
        },
    }
}

/// The calls with which an entry begins: its configuration, then its timestamps.
pub open spec fn head_calls(entry: FuzzEntry) -> Seq<EntryCallView> {
    let split = if entry.allow_split_entries {
        seq![EntryCallView::Config(EntryConfigView::AllowSplitEntries)]
    } else {
        seq![]
    };
    let dimensions = match entry.entry_dimensions {
        Some(d) => seq![EntryCallView::Config(EntryConfigView::EntryDimensions(d@))],
        None => seq![],
    };
    split + dimensions + entry.timestamps@.map_values(
        |t: FuzzTimestamp| EntryCallView::Timestamp(t.time()),
    )
}

/// Makes the calls with which an entry begins.
pub fn write_head<W: EntryWriter>(entry: &FuzzEntry, writer: &mut W)
    ensures
        final(writer).written() == old(writer).written() + head_calls(*entry),
{
    if entry.allow_split_entries {
        writer.config(&EntryConfig::AllowSplitEntries);
    }
    if let Some(entry_dimensions) = &entry.entry_dimensions {
        let config = EntryConfig::EntryDimensions(
            crate::entry::EntryDimensions {
                sets: crate::entry::clone_string_sets(&entry_dimensions.sets),
            },
        );
        writer.config(&config);
    }
    let ghost start = writer.written();
    let ghost all = entry.timestamps@.map_values(
        |t: FuzzTimestamp| EntryCallView::Timestamp(t.time()),
    );
    let mut i: usize = 0;
    while i < entry.timestamps.len()
        invariant
            i <= entry.timestamps@.len(),
            all == entry.timestamps@.map_values(
                |t: FuzzTimestamp| EntryCallView::Timestamp(t.time()),
            ),
            writer.written() == start + all.take(i as int),
        decreases entry.timestamps@.len() - i,
    {
        writer.timestamp(entry.timestamps[i].to_unix_time());
        proof {
            assert(all.take(i + 1) =~= all.take(i as int).push(all[i as int]));
            assert(start + all.take(i + 1) =~= (start + all.take(i as int)).push(all[i as int]));
        }
        i += 1;
    }
    proof {
        assert(all.take(i as int) =~= all);
        assert(writer.written() =~= old(writer).written() + head_calls(*entry));
    }
}

/// The calls that the fields of an entry make, each with the flags of its own mode.
pub open spec fn own_mode_calls(fields: Seq<FuzzFieldView>) -> Seq<EntryCallView> {
    fields.map_values(
        |f: FuzzFieldView|
            field_call(
                f,
                match f {
                    FuzzFieldView::StringProperty { name, value } => FuzzMetricFlagMode::Plain,
                    FuzzFieldView::Metric { name, observations, dimensions, unit, flag_mode } =>
                        flag_mode,
                },
            ),
    )
}

/// A fuzzed entry writes its configuration, its timestamps and its fields, in that order.
impl Entry for FuzzEntry {
    open spec fn content(&self) -> Seq<EntryCallView> {
        head_calls(*self) + own_mode_calls(types::field_views(self.fields@))
    }

    fn write<W: EntryWriter>(&self, writer: &mut W) {
        write_head(self, writer);
        let ghost start = writer.written();
        let ghost all = own_mode_calls(types::field_views(self.fields@));
        let mut i: usize = 0;
        while i < self.fields.len()
            invariant
                i <= self.fields@.len(),
                all == own_mode_calls(types::field_views(self.fields@)),
                writer.written() == start + all.take(i as int),
            decreases self.fields@.len() - i,
        {
            let field = &self.fields[i];
            let mode = match field {
                FuzzField::StringProperty { .. } => FuzzMetricFlagMode::Plain,
                FuzzField::Metric { flag_mode, .. } => *flag_mode,
            };
            write_field(field, mode, writer);
            proof {
                assert(types::field_views(self.fields@)[i as int] == field@);
                assert(all[i as int] == field_call(field@, mode));
                assert(all.take(i + 1) =~= all.take(i as int).push(all[i as int]));
                assert(start + all.take(i + 1) =~= (start + all.take(i as int)).push(
                    all[i as int],
                ));
            }
            i += 1;
        }
        proof {
            assert(all.take(i as int) =~= all);
            assert(writer.written() =~= old(writer).written() + self.content());
        }
    }
}

} // verus!
