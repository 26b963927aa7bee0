//! The entries that the fuzzer feeds to the formatters.
use crate::entry::EntryDimensions;
use crate::value::{self, Float64, NegativeScale, Observation, PositiveScale, Unit};
use vstd::prelude::*;

verus! {

/// An observation of a fuzzed metric.
#[derive(Debug, Clone, Copy, PartialEq, Eq, Structural)]
pub enum FuzzObservation {
    /// A whole number.
    Unsigned(u64),
    /// A double-precision number.
    Floating(Float64),
    /// A sum of several observations.
    Repeated {
        /// The sum.
        total: Float64,
        /// The number of observations, which may be zero.
        occurrences: u64,
    },
}

impl FuzzObservation {
    /// The observation that this one stands for.
    pub open spec fn observation(self) -> Observation {
        match self {
            FuzzObservation::Unsigned(v) => Observation::Unsigned(v),
            FuzzObservation::Floating(v) => Observation::Floating(v),
            FuzzObservation::Repeated { total, occurrences } => Observation::Repeated {
                total,
                occurrences,
            },
        }
    }

    /// The observation that this one stands for.
    pub fn to_observation(&self) -> (r: Observation)
        ensures
            r == self.observation(),
    {
        match *self {
            FuzzObservation::Unsigned(v) => Observation::Unsigned(v),
            FuzzObservation::Floating(v) => Observation::Floating(v),
            FuzzObservation::Repeated { total, occurrences } => Observation::Repeated {
                total,
                occurrences,
            },
        }
    }
}

/// The unit of a fuzzed metric.
#[derive(Debug, Clone, Copy, PartialEq, Eq, Structural)]
pub enum FuzzUnit {
    /// No unit.
    Unitless,
    /// A count.
    Count,
    /// A percentage.
    Percent,
    /// Microseconds.
    SecondMicro,
    /// Milliseconds.
    SecondMilli,
    /// Seconds.
    Second,
    /// Bytes.
    Byte,
    /// Kilobytes.
    KiloByte,
    /// Megabytes.
    MegaByte,
    /// Bits.
    Bit,
    /// Kilobits.
    KiloBit,
}

impl FuzzUnit {
    /// The unit that this one stands for.
    pub open spec fn unit(self) -> Unit {
        match self {
            FuzzUnit::Unitless => Unit::Unitless,
            FuzzUnit::Count => Unit::Count,
            FuzzUnit::Percent => Unit::Percent,
            FuzzUnit::SecondMicro => Unit::Second(NegativeScale::Micro),
            FuzzUnit::SecondMilli => Unit::Second(NegativeScale::Milli),
            FuzzUnit::Second => Unit::Second(NegativeScale::One),
            FuzzUnit::Byte => Unit::Byte(PositiveScale::One),
            FuzzUnit::KiloByte => Unit::Byte(PositiveScale::Kilo),
            FuzzUnit::MegaByte => Unit::Byte(PositiveScale::Mega),
            FuzzUnit::Bit => Unit::Bit(PositiveScale::One),
            FuzzUnit::KiloBit => Unit::Bit(PositiveScale::Kilo),
        }
    }

    /// The unit that this one stands for.
    pub fn to_unit(&self) -> (r: Unit)
        ensures
            r == self.unit(),
    {
        match *self {
            FuzzUnit::Unitless => Unit::Unitless,
            FuzzUnit::Count => Unit::Count,
            FuzzUnit::Percent => Unit::Percent,
            FuzzUnit::SecondMicro => Unit::Second(NegativeScale::Micro),
            FuzzUnit::SecondMilli => Unit::Second(NegativeScale::Milli),
            FuzzUnit::Second => Unit::Second(NegativeScale::One),
            FuzzUnit::Byte => Unit::Byte(PositiveScale::One),
            FuzzUnit::KiloByte => Unit::Byte(PositiveScale::Kilo),
            FuzzUnit::MegaByte => Unit::Byte(PositiveScale::Mega),
            FuzzUnit::Bit => Unit::Bit(PositiveScale::One),
            FuzzUnit::KiloBit => Unit::Bit(PositiveScale::Kilo),
        }
    }
}

/// Which flags a fuzzed metric is wrapped in, from the inside out.
#[derive(Debug, Clone, Copy, PartialEq, Eq, Structural)]
pub enum FuzzMetricFlagMode {
    /// No flag.
    Plain,
    /// High storage resolution.
    HighStorageResolution,
    /// No metric.
    NoMetric,
    /// High storage resolution, then no metric.
    HighThenNoMetric,
    /// No metric, then high storage resolution.
    NoMetricThenHigh,
}

/// A fuzzed time.
#[derive(Debug, Clone, Copy, PartialEq, Eq, Structural)]
pub struct FuzzTimestamp {
    /// Whether the time lies before the Unix epoch.
    pub before_epoch: bool,
    /// Distance from the epoch in seconds, before it is bounded.
    pub secs: u64,
}

/// A single field of a fuzzed entry.
#[derive(Debug)]
pub enum FuzzField {
    /// A string property.
    StringProperty {
        /// Name of the property.
        name: String,
        /// Its value.
        value: String,
    },
    /// A metric with any number of observations.
    Metric {
        /// Name of the metric.
        name: String,
        /// Its observations.
        observations: Vec<FuzzObservation>,
        /// Its dimensions.
        dimensions: Vec<(String, String)>,
        /// Its unit.
        unit: FuzzUnit,
        /// The flags that it is wrapped in.
        flag_mode: FuzzMetricFlagMode,
    },
}

/// Model of a [`FuzzField`].
#[verifier::ext_equal]
pub enum FuzzFieldView {
    /// A string property.
    StringProperty { name: Seq<char>, value: Seq<char> },
    /// A metric.
    Metric {
        name: Seq<char>,
        observations: Seq<FuzzObservation>,
        dimensions: Seq<(Seq<char>, Seq<char>)>,
        unit: FuzzUnit,
        flag_mode: FuzzMetricFlagMode,
    },
}

impl View for FuzzField {
    type V = FuzzFieldView;

    open spec fn view(&self) -> FuzzFieldView {
        match *self {
            FuzzField::StringProperty { name, value } => FuzzFieldView::StringProperty {
                name: name@,
                value: value@,
            },
            FuzzField::Metric { name, observations, dimensions, unit, flag_mode } =>
                FuzzFieldView::Metric {
                name: name@,
                observations: observations@,
                dimensions: value::dimension_texts(dimensions@),
                unit,
                flag_mode,
            },
        }
    }
}

/// The models of a list of fields.
pub open spec fn field_views(fields: Seq<FuzzField>) -> Seq<FuzzFieldView> {
    fields.map_values(|f: FuzzField| f@)
}

/// A fuzzed entry, which exercises all of the entry writer's interface.
#[derive(Debug)]
pub struct FuzzEntry {
    /// The timestamps to write. A well-behaved entry has at most one.
    pub timestamps: Vec<FuzzTimestamp>,
    /// Whether the entry may be split.
    pub allow_split_entries: bool,
    /// The entry's dimension sets, if it has any.
    pub entry_dimensions: Option<EntryDimensions>,
    /// The fields.
    pub fields: Vec<FuzzField>,
}

/// Model of a [`FuzzEntry`].
#[verifier::ext_equal]
pub struct FuzzEntryView {
    pub timestamps: Seq<FuzzTimestamp>,
    pub allow_split_entries: bool,
    pub entry_dimensions: Option<Seq<Seq<Seq<char>>>>,
    pub fields: Seq<FuzzFieldView>,
}

/// The model of a fuzzed entry's dimension sets.
pub open spec fn dimensions_view(dimensions: Option<EntryDimensions>) -> Option<
    Seq<Seq<Seq<char>>>,
> {
    match dimensions {
        Some(d) => Some(d@),
        None => None,
    }
}

impl View for FuzzEntry {
    type V = FuzzEntryView;

    open spec fn view(&self) -> FuzzEntryView {
        FuzzEntryView {
            timestamps: self.timestamps@,
            allow_split_entries: self.allow_split_entries,
            entry_dimensions: dimensions_view(self.entry_dimensions),
            fields: field_views(self.fields@),
        }
    }
}

} // verus!
