//! Metric values: what a single field hands to a formatter.
//!
//! A [`Value`] describes itself to a [`ValueWriter`]. The writer's history of calls is the model
//! that every contract here speaks of: a value is exactly the sequence of calls that it makes.
use std::marker::PhantomData;
use vstd::prelude::*;

verus! {

/// A double-precision number, given by one of its named constants or by its bit pattern.
///
/// Equality of two `Float64`s is equality of the descriptions, not of the numbers.
#[derive(Debug, Clone, Copy, PartialEq, Eq, Structural)]
pub enum Float64 {
    /// Some quiet "not a number".
    Nan,
    /// Positive infinity.
    Infinity,
    /// Negative infinity.
    NegInfinity,
    /// Zero with the sign bit set.
    NegZero,
    /// Positive zero.
    Zero,
    /// The largest finite number.
    Max,
    /// The smallest finite number.
    Min,
    /// The smallest positive normal number.
    MinPositive,
    /// The number with this bit pattern.
    Bits(u64),
}

/// One observation of a metric.
#[derive(Debug, Clone, Copy, PartialEq, Eq, Structural)]
pub enum Observation {
    /// A whole number.
    Unsigned(u64),
    /// A double-precision number.
    Floating(Float64),
    /// Several observations, of which only the sum and the number are known.
    Repeated {
        /// Sum of the observations.
        total: Float64,
        /// Number of observations.
        occurrences: u64,
    },
}

/// Scale of a unit that is divided (seconds).
#[derive(Debug, Clone, Copy, PartialEq, Eq, Structural)]
pub enum NegativeScale {
    /// One millionth.
    Micro,
    /// One thousandth.
    Milli,
    /// The unit itself.
    One,
}

/// Scale of a unit that is multiplied (bits and bytes).
#[derive(Debug, Clone, Copy, PartialEq, Eq, Structural)]
pub enum PositiveScale {
    /// The unit itself.
    One,
    /// One thousand.
    Kilo,
    /// One million.
    Mega,
}

/// Unit of a metric.
#[derive(Debug, Clone, Copy, PartialEq, Eq, Structural)]
pub enum Unit {
    /// No unit.
    Unitless,
    /// A count of things.
    Count,
    /// A percentage.
    Percent,
    /// A time.
    Second(NegativeScale),
    /// An amount of bytes.
    Byte(PositiveScale),
    /// An amount of bits.
    Bit(PositiveScale),
}

/// A flag that a metric carries to the formatter.
#[derive(Debug, Clone, Copy, PartialEq, Eq, Structural)]
pub enum MetricFlag {
    /// Store the metric with one-second resolution.
    HighStorageResolution,
    /// Write the value as a property, without declaring a metric.
    NoMetric,
    /// A flag that some other formatter understands.
    Custom(u64),
}

/// A call of [`ValueWriter::metric`], as data.
#[derive(Debug, Clone)]
pub struct MetricCall {
    /// The observations, in order.
    pub observations: Vec<Observation>,
    /// The unit.
    pub unit: Unit,
    /// Dimension names and values, in order.
    pub dimensions: Vec<(String, String)>,
    /// The flags, in the order in which they were forced.
    pub flags: Vec<MetricFlag>,
}

/// A call to a [`ValueWriter`], as data.
#[derive(Debug, Clone)]
pub enum ValueCall {
    /// [`ValueWriter::string`].
    Str(String),
    /// [`ValueWriter::metric`].
    Metric(MetricCall),
}

/// Model of a [`ValueCall`].
#[verifier::ext_equal]
pub enum ValueCallView {
    /// A string property.
    Str(Seq<char>),
    /// A metric.
    Metric {
        observations: Seq<Observation>,
        unit: Unit,
        dimensions: Seq<(Seq<char>, Seq<char>)>,
        flags: Seq<MetricFlag>,
    },
}

/// The texts of a list of dimensions.
pub open spec fn dimension_texts(dimensions: Seq<(String, String)>) -> Seq<
    (Seq<char>, Seq<char>),
> {
    dimensions.map_values(|d: (String, String)| (d.0@, d.1@))
}

impl View for ValueCall {
    type V = ValueCallView;

    open spec fn view(&self) -> ValueCallView {
        match *self {
            ValueCall::Str(s) => ValueCallView::Str(s@),
            ValueCall::Metric(m) => ValueCallView::Metric {
                observations: m.observations@,
                unit: m.unit,
                dimensions: dimension_texts(m.dimensions@),
                flags: m.flags@,
            },
        }
    }
}

/// The models of a list of calls.
pub open spec fn value_calls(calls: Seq<ValueCall>) -> Seq<ValueCallView> {
    calls.map_values(|c: ValueCall| c@)
}

/// Receives what a [`Value`] has to say.
pub trait ValueWriter {
    /// The calls made so far, oldest first.
    open spec fn received(&self) -> Seq<ValueCallView> {
        Seq::empty()
    }

    /// Takes a string property.
    fn string(&mut self, value: &str)
        ensures
            final(self).received() == old(self).received().push(ValueCallView::Str(value@)),
    ;

    /// Takes a metric.
    fn metric(
        &mut self,
        observations: &Vec<Observation>,
        unit: Unit,
        dimensions: &Vec<(String, String)>,
        flags: &Vec<MetricFlag>,
    )
        ensures
            final(self).received() == old(self).received().push(
                ValueCallView::Metric {
                    observations: observations@,
                    unit,
                    dimensions: dimension_texts(dimensions@),
                    flags: flags@,
                },
            ),
    ;
}

/// The value of a field. A value is "pure": it makes the same calls every time it is written.
pub trait Value {
    /// The calls that this value makes.
    open spec fn calls(&self) -> Seq<ValueCallView> {
        Seq::empty()
    }

    /// Makes those calls to `writer`.
    fn write<W: ValueWriter>(&self, writer: &mut W)
        ensures
            final(writer).received() == old(writer).received() + self.calls(),
    ;
}

/// Copies a list of dimensions.
pub fn clone_dimensions(dimensions: &Vec<(String, String)>) -> (r: Vec<(String, String)>)
    ensures
        r@ == dimensions@,
{
    let mut r: Vec<(String, String)> = Vec::new();
    let mut i: usize = 0;
    while i < dimensions.len()
        invariant
            i <= dimensions@.len(),
            r@ == dimensions@.take(i as int),
        decreases dimensions@.len() - i,
    {
        r.push((dimensions[i].0.clone(), dimensions[i].1.clone()));
        proof {
            assert(dimensions@.take(i + 1) =~= dimensions@.take(i as int).push(dimensions@[i as int]));
        }
        i += 1;
    }
    proof {
        assert(dimensions@.take(i as int) =~= dimensions@);
    }
    r
}

/// A value that was written once and can be written again: the calls that it made.
#[derive(Debug, Clone)]
pub struct RecordedValue {
    /// The calls, oldest first.
    pub calls: Vec<ValueCall>,
}

impl RecordedValue {
    /// Records nothing yet.
    pub fn new() -> (r: Self)
        ensures
            r.received() == Seq::<ValueCallView>::empty(),
    {
        let r = RecordedValue { calls: Vec::new() };
        proof {
            assert(r.received() =~= Seq::<ValueCallView>::empty());
        }
        r
    }

    /// Records all that `value` writes.
    pub fn of<V: Value>(value: &V) -> (r: Self)
        ensures
            r.received() == value.calls(),
    {
        let mut r = RecordedValue::new();
        value.write(&mut r);
        proof {
            assert(Seq::<ValueCallView>::empty() + value.calls() =~= value.calls());
        }
        r
    }
}

impl ValueWriter for RecordedValue {
    open spec fn received(&self) -> Seq<ValueCallView> {
        value_calls(self.calls@)
    }

    fn string(&mut self, value: &str) {
        self.calls.push(ValueCall::Str(value.to_owned()));
        proof {
            assert(self.received() =~= old(self).received().push(ValueCallView::Str(value@)));
        }
    }

    fn metric(
        &mut self,
        observations: &Vec<Observation>,
        unit: Unit,
        dimensions: &Vec<(String, String)>,
        flags: &Vec<MetricFlag>,
    ) {
        let call = MetricCall {
            observations: observations.clone(),
            unit,
            dimensions: clone_dimensions(dimensions),
            flags: flags.clone(),
        };
        proof {
            assert(call.observations@ =~= observations@);
            assert(call.flags@ =~= flags@);
        }
        self.calls.push(ValueCall::Metric(call));
        proof {
            assert(self.received() =~= old(self).received().push(ValueCall::Metric(call)@));
        }
    }
}

impl Value for RecordedValue {
    open spec fn calls(&self) -> Seq<ValueCallView> {
        value_calls(self.calls@)
    }

    fn write<W: ValueWriter>(&self, writer: &mut W) {
        let mut i: usize = 0;
        while i < self.calls.len()
            invariant
                i <= self.calls@.len(),
                writer.received() == old(writer).received() + value_calls(
                    self.calls@,
                ).take(i as int),
            decreases self.calls@.len() - i,
        {
            match &self.calls[i] {
                ValueCall::Str(s) => writer.string(s.as_str()),
                ValueCall::Metric(m) => writer.metric(
                    &m.observations,
                    m.unit,
                    &m.dimensions,
                    &m.flags,
                ),
            }
            proof {
                let all = value_calls(self.calls@);
                assert(all[i as int] == self.calls@[i as int]@);
                assert(all.take(i + 1) =~= all.take(i as int).push(all[i as int]));
                assert(old(writer).received() + all.take(i + 1) =~= (old(writer).received()
                    + all.take(i as int)).push(all[i as int]));
            }
            i += 1;
        }
        proof {
            let all = value_calls(self.calls@);
            assert(all.take(i as int) =~= all);
        }
    }
}

impl<'a> Value for &'a str {
    open spec fn calls(&self) -> Seq<ValueCallView> {
        seq![ValueCallView::Str((*self)@)]
    }

    fn write<W: ValueWriter>(&self, writer: &mut W) {
        writer.string(*self);
        proof {
            assert(writer.received() =~= old(writer).received() + self.calls());
        }
    }
}

impl Value for String {
    open spec fn calls(&self) -> Seq<ValueCallView> {
        seq![ValueCallView::Str(self@)]
    }

    fn write<W: ValueWriter>(&self, writer: &mut W) {
        writer.string(self.as_str());
        proof {
            assert(writer.received() =~= old(writer).received() + self.calls());
        }
    }
}

/// What a plain number without unit, dimensions or flags is written as.
pub open spec fn plain_number(n: u64) -> ValueCallView {
    ValueCallView::Metric {
        observations: seq![Observation::Unsigned(n)],
        unit: Unit::Unitless,
        dimensions: Seq::empty(),
        flags: Seq::empty(),
    }
}

impl Value for u64 {
    open spec fn calls(&self) -> Seq<ValueCallView> {
        seq![plain_number(*self)]
    }

    fn write<W: ValueWriter>(&self, writer: &mut W) {
        let mut observations: Vec<Observation> = Vec::new();
        observations.push(Observation::Unsigned(*self));
        let dimensions: Vec<(String, String)> = Vec::new();
        let flags: Vec<MetricFlag> = Vec::new();
        writer.metric(&observations, Unit::Unitless, &dimensions, &flags);
        proof {
            assert(observations@ =~= seq![Observation::Unsigned(*self)]);
            assert(dimension_texts(dimensions@) =~= Seq::<(Seq<char>, Seq<char>)>::empty());
            assert(writer.received() =~= old(writer).received() + self.calls());
        }
    }
}

impl Value for usize {
    open spec fn calls(&self) -> Seq<ValueCallView> {
        seq![plain_number(*self as u64)]
    }

    fn write<W: ValueWriter>(&self, writer: &mut W) {
        (*self as u64).write(writer)
    }
}

/// A duration in milliseconds.
#[derive(Debug, Clone, Copy)]
pub struct Millis(pub Float64);

impl Value for Millis {
    open spec fn calls(&self) -> Seq<ValueCallView> {
        seq![
            ValueCallView::Metric {
                observations: seq![Observation::Floating(self.0)],
                unit: Unit::Second(NegativeScale::Milli),
                dimensions: Seq::empty(),
                flags: Seq::empty(),
            },
        ]
    }

    fn write<W: ValueWriter>(&self, writer: &mut W) {
        let observations = vec![Observation::Floating(self.0)];
        let dimensions: Vec<(String, String)> = Vec::new();
        let flags: Vec<MetricFlag> = Vec::new();
        writer.metric(&observations, Unit::Second(NegativeScale::Milli), &dimensions, &flags);
        proof {
            assert(observations@ =~= seq![Observation::Floating(self.0)]);
            assert(dimension_texts(dimensions@) =~= Seq::empty());
            assert(flags@ =~= Seq::empty());
            assert(writer.received() =~= old(writer).received() + self.calls());
        }
    }
}

/// A value that may be missing writes nothing when it is.
impl<T: Value> Value for Option<T> {
    open spec fn calls(&self) -> Seq<ValueCallView> {
        match *self {
            Some(v) => v.calls(),
            None => Seq::empty(),
        }
    }

    fn write<W: ValueWriter>(&self, writer: &mut W) {
        match self {
            Some(v) => v.write(writer),
            None => {
                proof {
                    assert(writer.received() =~= old(writer).received() + self.calls());
                }
            },
        }
    }
}

/// Names a flag at compile time.
pub trait FlagConstructor {
    /// The flag.
    spec fn flag() -> MetricFlag;

    /// Makes the flag.
    fn construct() -> (flag: MetricFlag)
        ensures
            flag == Self::flag(),
    ;
}

/// Names [`MetricFlag::HighStorageResolution`].
#[derive(Debug, Clone, Copy)]
pub struct HighStorageResolutionFlag;

impl FlagConstructor for HighStorageResolutionFlag {
    open spec fn flag() -> MetricFlag {
        MetricFlag::HighStorageResolution
    }

    fn construct() -> MetricFlag {
        MetricFlag::HighStorageResolution
    }
}

/// Names [`MetricFlag::NoMetric`].
#[derive(Debug, Clone, Copy)]
pub struct NoMetricFlag;

impl FlagConstructor for NoMetricFlag {
    open spec fn flag() -> MetricFlag {
        MetricFlag::NoMetric
    }

    fn construct() -> MetricFlag {
        MetricFlag::NoMetric
    }
}

/// A value, all of whose metrics carry the flag `F`.
pub struct ForceFlag<T, F> {
    value: T,
    phantom: PhantomData<F>,
}

/// A value with one-second resolution.
pub type HighStorageResolution<T> = ForceFlag<T, HighStorageResolutionFlag>;

/// A value that declares no metric.
pub type NoMetric<T> = ForceFlag<T, NoMetricFlag>;

impl<T, F> ForceFlag<T, F> {
    /// The wrapped value.
    pub closed spec fn inner(&self) -> T {
        self.value
    }

    /// Forces the flag on `value`.
    pub fn new(value: T) -> (r: Self)
        ensures
            r.inner() == value,
    {
        ForceFlag { value, phantom: PhantomData }
    }

    /// Borrows the wrapped value.
    pub fn value(&self) -> (r: &T)
        ensures
            *r == self.inner(),
    {
        &self.value
    }

    /// Replaces the wrapped value by what `f` makes of it. The flag stays.
    pub fn map_value<U, G: FnOnce(T) -> U>(self, f: G) -> (r: ForceFlag<U, F>)
        requires
            f.requires((self.inner(),)),
        ensures
            f.ensures((self.inner(),), r.inner()),
    {
        ForceFlag::new(f(self.value))
    }

    /// As [`ForceFlag::map_value`], from a reference.
    pub fn map_value_ref<U, G: FnOnce(&T) -> U>(&self, f: G) -> (r: ForceFlag<U, F>)
        requires
            f.requires((&self.inner(),)),
        ensures
            f.ensures((&self.inner(),), r.inner()),
    {
        ForceFlag::new(f(&self.value))
    }
}

/// A call with `flag` forced on it: a metric carries one flag more, after those that it had; a
/// string is unchanged.
pub open spec fn with_flag(call: ValueCallView, flag: MetricFlag) -> ValueCallView {
    match call {
        ValueCallView::Str(s) => ValueCallView::Str(s),
        ValueCallView::Metric { observations, unit, dimensions, flags } => ValueCallView::Metric {
            observations,
            unit,
            dimensions,
            flags: flags.push(flag),
        },
    }
}

/// `flag` forced on each of a list of calls.
pub open spec fn all_with_flag(calls: Seq<ValueCallView>, flag: MetricFlag) -> Seq<ValueCallView> {
    calls.map_values(|c: ValueCallView| with_flag(c, flag))
}

impl<T: Value, F: FlagConstructor> Value for ForceFlag<T, F> {
    open spec fn calls(&self) -> Seq<ValueCallView> {
        all_with_flag(self.inner().calls(), F::flag())
    }

    fn write<W: ValueWriter>(&self, writer: &mut W) {
        let recorded = RecordedValue::of(&self.value);
        let ghost all = all_with_flag(recorded.received(), F::flag());
        let mut i: usize = 0;
        while i < recorded.calls.len()
            invariant
                i <= recorded.calls@.len(),
                all == all_with_flag(value_calls(recorded.calls@), F::flag()),
                writer.received() == old(writer).received() + all.take(i as int),
            decreases recorded.calls@.len() - i,
        {
            match &recorded.calls[i] {
                ValueCall::Str(s) => writer.string(s.as_str()),
                ValueCall::Metric(m) => {
                    let mut flags = m.flags.clone();
                    proof {
                        assert(flags@ =~= m.flags@);
                    }
                    flags.push(F::construct());
                    writer.metric(&m.observations, m.unit, &m.dimensions, &flags);
                },
            }
            proof {
                assert(all[i as int] == with_flag(recorded.calls@[i as int]@, F::flag()));
                assert(all.take(i + 1) =~= all.take(i as int).push(all[i as int]));
                assert(old(writer).received() + all.take(i + 1) =~= (old(writer).received()
                    + all.take(i as int)).push(all[i as int]));
            }
            i += 1;
        }
        proof {
            assert(all.take(i as int) =~= all);
        }
    }
}

/// A value, all of whose metrics carry some more dimensions. `N` is the number of dimensions that
/// callers expect.
pub struct WithDimensions<T, const N: usize> {
    value: T,
    dimensions: Vec<(String, String)>,
}

impl<T, const N: usize> WithDimensions<T, N> {
    /// The wrapped value.
    pub closed spec fn inner(&self) -> T {
        self.value
    }

    /// The dimensions.
    pub closed spec fn dimensions(&self) -> Seq<(Seq<char>, Seq<char>)> {
        dimension_texts(self.dimensions@)
    }

    /// Adds one dimension to `value`.
    pub fn new(value: T, key: &str, dimension: &str) -> (r: Self)
        ensures
            r.inner() == value,
            r.dimensions() == seq![(key@, dimension@)],
    {
        let mut dimensions: Vec<(String, String)> = Vec::new();
        dimensions.push((key.to_owned(), dimension.to_owned()));
        proof {
            assert(dimension_texts(dimensions@) =~= seq![(key@, dimension@)]);
        }
        WithDimensions { value, dimensions }
    }

    /// Replaces the wrapped value by what `f` makes of it. The dimensions stay.
    pub fn map_value<U, G: FnOnce(T) -> U>(self, f: G) -> (r: WithDimensions<U, N>)
        requires
            f.requires((self.inner(),)),
        ensures
            f.ensures((self.inner(),), r.inner()),
            r.dimensions() == self.dimensions(),
    {
        WithDimensions { value: f(self.value), dimensions: self.dimensions }
    }

    /// Borrows the wrapped value.
    pub fn value(&self) -> (r: &T)
        ensures
            *r == self.inner(),
    {
        &self.value
    }

    /// Borrows the dimensions.
    pub fn dimension_list(&self) -> (r: &Vec<(String, String)>)
        ensures
            dimension_texts(r@) == self.dimensions(),
    {
        &self.dimensions
    }
}

impl<T, const N: usize> std::ops::Deref for WithDimensions<T, N> {
    type Target = T;

    fn deref(&self) -> (r: &T)
        ensures
            *r == self.inner(),
    {
        &self.value
    }
}

/// A call with `more` dimensions: a metric has them after its own; a string is unchanged.
pub open spec fn with_more_dimensions(
    call: ValueCallView,
    more: Seq<(Seq<char>, Seq<char>)>,
) -> ValueCallView {
    match call {
        ValueCallView::Str(s) => ValueCallView::Str(s),
        ValueCallView::Metric { observations, unit, dimensions, flags } => ValueCallView::Metric {
            observations,
            unit,
            dimensions: dimensions + more,
            flags,
        },
    }
}

/// `more` dimensions on each of a list of calls.
pub open spec fn all_with_more_dimensions(
    calls: Seq<ValueCallView>,
    more: Seq<(Seq<char>, Seq<char>)>,
) -> Seq<ValueCallView> {
    calls.map_values(|c: ValueCallView| with_more_dimensions(c, more))
}

/// Writes `value` with `more` dimensions.
pub fn write_with_dimensions<V: Value, W: ValueWriter>(
    value: &V,
    more: &Vec<(String, String)>,
    writer: &mut W,
)
    ensures
        final(writer).received() == old(writer).received() + all_with_more_dimensions(
            value.calls(),
            dimension_texts(more@),
        ),
{
    let recorded = RecordedValue::of(value);
    let ghost texts = dimension_texts(more@);
    let ghost all = all_with_more_dimensions(recorded.received(), texts);
    let mut i: usize = 0;
    while i < recorded.calls.len()
        invariant
            i <= recorded.calls@.len(),
            texts == dimension_texts(more@),
            all == all_with_more_dimensions(value_calls(recorded.calls@), texts),
            writer.received() == old(writer).received() + all.take(i as int),
        decreases recorded.calls@.len() - i,
    {
        match &recorded.calls[i] {
            ValueCall::Str(s) => writer.string(s.as_str()),
            ValueCall::Metric(m) => {
                let mut dimensions = clone_dimensions(&m.dimensions);
                let mut own = clone_dimensions(more);
                dimensions.append(&mut own);
                proof {
                    assert(dimension_texts(dimensions@) =~= dimension_texts(m.dimensions@) + texts);
                }
                writer.metric(&m.observations, m.unit, &dimensions, &m.flags);
            },
        }
        proof {
            assert(all[i as int] == with_more_dimensions(recorded.calls@[i as int]@, texts));
            assert(all.take(i + 1) =~= all.take(i as int).push(all[i as int]));
            assert(old(writer).received() + all.take(i + 1) =~= (old(writer).received() + all.take(
                i as int,
            )).push(all[i as int]));
        }
        i += 1;
    }
    proof {
        assert(all.take(i as int) =~= all);
    }
}

impl<T: Value, const N: usize> Value for WithDimensions<T, N> {
    open spec fn calls(&self) -> Seq<ValueCallView> {
        all_with_more_dimensions(self.inner().calls(), self.dimensions())
    }

    fn write<W: ValueWriter>(&self, writer: &mut W) {
        write_with_dimensions(&self.value, &self.dimensions, writer);
    }
}

} // verus!
