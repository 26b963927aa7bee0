//! Building fuzzed entries from raw bytes.
//!
//! Every generator has a model, whose name begins with `make_`: a function from the unread bytes
//! to the generated thing and the bytes that are left. Generation is total and deterministic.
use crate::entry::{self, EntryDimensions};
use crate::fuzz::source::{
    self, source_of, take_bool, take_char, take_u64, take_u8, u8_in_range, usize_in_range,
};
use crate::fuzz::types::{
    self, FuzzEntry, FuzzEntryView, FuzzField, FuzzFieldView, FuzzMetricFlagMode, FuzzObservation,
    FuzzTimestamp, FuzzUnit,
};
use crate::value::{self, Float64};
use arbitrary::Unstructured;
use vstd::prelude::*;

verus! {

/// How often an entry has no dimension sets.
pub const OMIT_ENTRY_DIMENSIONS_PERCENT: u8 = 55;

/// How often a field takes a name that an earlier field had.
pub const REUSE_EXISTING_NAME_PERCENT: u8 = 70;

/// How often a new name takes the place of an earlier one in the pool of names.
pub const REPLACE_EXISTING_POOL_NAME_PERCENT: u8 = 20;

/// How many names the pool of names holds at most.
pub const NAME_POOL_SIZE: usize = 16;

/// `n` things in a row, each made from the bytes that the one before it left.
pub open spec fn make_many<T>(
    make: spec_fn(Seq<u8>) -> (T, Seq<u8>),
    n: nat,
    bytes: Seq<u8>,
) -> (Seq<T>, Seq<u8>)
    decreases n,
{
    if n == 0 {
        (Seq::empty(), bytes)
    } else {
        let before = make_many(make, (n - 1) as nat, bytes);
        let one = make(before.1);
        (before.0.push(one.0), one.1)
    }
}

/// Model of [`chance_percent`].
pub open spec fn make_chance(bytes: Seq<u8>, percent: u8) -> (bool, Seq<u8>) {
    if percent == 0 {
        (false, bytes)
    } else if percent == 100 {
        (true, bytes)
    } else {
        let roll = source::in_range(bytes, 99);
        (roll.0 < percent, roll.1)
    }
}

/// True in about `percent` of a hundred cases.
pub fn chance_percent(u: &mut Unstructured, percent: u8) -> (r: Result<bool, arbitrary::Error>)
    requires
        percent <= 100,
    ensures
        r == Ok::<bool, arbitrary::Error>(make_chance(source::unread(old(u)), percent).0),
        source::unread(final(u)) == make_chance(source::unread(old(u)), percent).1,
{
    if percent == 0 {
        return Ok(false);
    }
    if percent == 100 {
        return Ok(true);
    }
    proof {
        source::in_range_is_bounded(source::unread(u), 99);
    }
    let roll = u8_in_range(u, 99)?;
    Ok(roll < percent)
}

/// An index into something of length `len`.
pub fn choose_index(u: &mut Unstructured, len: usize) -> (r: Result<usize, arbitrary::Error>)
    requires
        len > 0,
    ensures
        r is Ok,
        r->Ok_0 == source::in_range(source::unread(old(u)), (len - 1) as nat).0,
        r->Ok_0 < len,
        source::unread(final(u)) == source::in_range(source::unread(old(u)), (len - 1) as nat).1,
{
    proof {
        source::in_range_is_bounded(source::unread(u), (len - 1) as nat);
    }
    usize_in_range(u, len - 1)
}

/// Characters that JSON escapes.
pub open spec fn json_escape(i: int) -> char {
    if i == 0 {
        '"'
    } else if i == 1 {
        '\\'
    } else if i == 2 {
        '\n'
    } else if i == 3 {
        '\r'
    } else if i == 4 {
        '\t'
    } else {
        '\u{08}'
    }
}

/// Characters that delimit JSON values.
pub open spec fn json_delimiter(i: int) -> char {
    if i == 0 {
        '{'
    } else if i == 1 {
        '}'
    } else if i == 2 {
        '['
    } else if i == 3 {
        ']'
    } else if i == 4 {
        ':'
    } else {
        ','
    }
}

/// Model of [`arbitrary_char`].
pub open spec fn make_char(bytes: Seq<u8>) -> (char, Seq<u8>) {
    let bucket = source::byte_at(bytes, 0) % 10;
    let rest = source::after(bytes, 1);
    if bucket == 0 {
        (json_escape(source::byte_at(rest, 0) as int % 6), source::after(rest, 1))
    } else if bucket == 1 {
        let control = source::in_range(rest, 0x1f);
        (control.0 as char, control.1)
    } else if bucket == 2 {
        (json_delimiter(source::byte_at(rest, 0) as int % 6), source::after(rest, 1))
    } else if bucket == 3 {
        (
            if source::byte_at(rest, 0) % 2 == 1 {
                ' '
            } else {
                '\n'
            },
            source::after(rest, 1),
        )
    } else {
        (
            source::code_point(source::little_endian(rest, 4)) as char,
            source::after(rest, 4),
        )
    }
}

/// A character, with a bias towards those that a JSON writer has to treat specially.
pub fn arbitrary_char(u: &mut Unstructured) -> (r: Result<char, arbitrary::Error>)
    ensures
        r == Ok::<char, arbitrary::Error>(make_char(source::unread(old(u))).0),
        source::unread(final(u)) == make_char(source::unread(old(u))).1,
{
    let bucket = take_u8(u)?;
    match bucket % 10 {
        0 => {
            let i: u8 = take_u8(u)? % 6;
            Ok(
                match i {
                    0 => '"',
                    1 => '\\',
                    2 => '\n',
                    3 => '\r',
                    4 => '\t',
                    _ => '\u{08}',
                },
            )
        },
        1 => {
            proof {
                source::in_range_is_bounded(source::unread(u), 0x1f);
            }
            let control = u8_in_range(u, 0x1f)?;
            Ok(control as char)
        },
        2 => {
            let i: u8 = take_u8(u)? % 6;
            Ok(
                match i {
                    0 => '{',
                    1 => '}',
                    2 => '[',
                    3 => ']',
                    4 => ':',
                    _ => ',',
                },
            )
        },
        3 => {
            let space = take_bool(u)?;
            Ok(
                if space {
                    ' '
                } else {
                    '\n'
                },
            )
        },
        _ => take_char(u),
    }
}

/// [`make_char`] as a value.
pub open spec fn char_maker() -> spec_fn(Seq<u8>) -> (char, Seq<u8>) {
    |bytes: Seq<u8>| make_char(bytes)
}

/// Model of [`arbitrary_string`].
pub open spec fn make_string(bytes: Seq<u8>, max_len: nat) -> (Seq<char>, Seq<u8>) {
    let len = source::byte_at(bytes, 0) as nat;
    make_many(
        char_maker(),
        if len <= max_len {
            len
        } else {
            max_len
        },
        source::after(bytes, 1),
    )
}

/// A string of at most `max_len` characters.
pub fn arbitrary_string(u: &mut Unstructured, max_len: usize) -> (r: Result<
    String,
    arbitrary::Error,
>)
    ensures
        r is Ok,
        r->Ok_0@ == make_string(source::unread(old(u)), max_len as nat).0,
        source::unread(final(u)) == make_string(source::unread(old(u)), max_len as nat).1,
{
    let drawn = take_u8(u)? as usize;
    let len: usize = if drawn <= max_len {
        drawn
    } else {
        max_len
    };
    let ghost start = source::unread(u);
    let mut s = String::new();
    let mut i: usize = 0;
    while i < len
        invariant
            i <= len,
            (s@, source::unread(u)) == make_many(char_maker(), i as nat, start),
        decreases len - i,
    {
        let c = arbitrary_char(u)?;
        s.push(c);
        i += 1;
    }
    Ok(s)
}

/// Model of [`arbitrary_f64`].
pub open spec fn make_f64(bytes: Seq<u8>) -> (Float64, Seq<u8>) {
    let choice = source::byte_at(bytes, 0) % 12;
    let rest = source::after(bytes, 1);
    if choice == 0 {
        (Float64::Nan, rest)
    } else if choice == 1 {
        (Float64::Infinity, rest)
    } else if choice == 2 {
        (Float64::NegInfinity, rest)
    } else if choice == 3 {
        (Float64::NegZero, rest)
    } else if choice == 4 {
        (Float64::Zero, rest)
    } else if choice == 5 {
        (Float64::Max, rest)
    } else if choice == 6 {
        (Float64::Min, rest)
    } else if choice == 7 {
        (Float64::MinPositive, rest)
    } else if choice == 8 {
        (Float64::Bits(1), rest)
    } else {
        (Float64::Bits(source::little_endian(rest, 8) as u64), source::after(rest, 8))
    }
}

/// A number, with a bias towards the special ones.
pub fn arbitrary_f64(u: &mut Unstructured) -> (r: Result<Float64, arbitrary::Error>)
    ensures
        r == Ok::<Float64, arbitrary::Error>(make_f64(source::unread(old(u))).0),
        source::unread(final(u)) == make_f64(source::unread(old(u))).1,
{
    let choice = take_u8(u)?;
    Ok(
        match choice % 12 {
            0 => Float64::Nan,
            1 => Float64::Infinity,
            2 => Float64::NegInfinity,
            3 => Float64::NegZero,
            4 => Float64::Zero,
            5 => Float64::Max,
            6 => Float64::Min,
            7 => Float64::MinPositive,
            8 => Float64::Bits(1),
            _ => Float64::Bits(take_u64(u)?),
        },
    )
}

/// Model of [`FuzzObservation::arbitrary`].
pub open spec fn make_observation(bytes: Seq<u8>) -> (FuzzObservation, Seq<u8>) {
    let tag = source::byte_at(bytes, 0) % 4;
    let rest = source::after(bytes, 1);
    if tag == 0 {
        (
            FuzzObservation::Unsigned(source::little_endian(rest, 8) as u64),
            source::after(rest, 8),
        )
    } else {
        let total = make_f64(rest);
        if tag == 1 {
            (FuzzObservation::Floating(total.0), total.1)
        } else if tag == 2 {
            (
                FuzzObservation::Repeated {
                    total: total.0,
                    occurrences: source::little_endian(total.1, 8) as u64,
                },
                source::after(total.1, 8),
            )
        } else {
            let last = source::after(total.1, 1);
            if source::byte_at(total.1, 0) % 2 == 1 {
                (FuzzObservation::Repeated { total: total.0, occurrences: 0 }, last)
            } else {
                (
                    FuzzObservation::Repeated {
                        total: total.0,
                        occurrences: source::little_endian(last, 8) as u64,
                    },
                    source::after(last, 8),
                )
            }
        }
    }
}

impl FuzzObservation {
    /// An observation. A repeated one with no occurrences is frequent.
    pub fn arbitrary(u: &mut Unstructured) -> (r: Result<Self, arbitrary::Error>)
        ensures
            r == Ok::<Self, arbitrary::Error>(make_observation(source::unread(old(u))).0),
            source::unread(final(u)) == make_observation(source::unread(old(u))).1,
    {
        let tag = take_u8(u)?;
        match tag % 4 {
            0 => Ok(FuzzObservation::Unsigned(take_u64(u)?)),
            1 => Ok(FuzzObservation::Floating(arbitrary_f64(u)?)),
            2 => {
                let total = arbitrary_f64(u)?;
                let occurrences = take_u64(u)?;
                Ok(FuzzObservation::Repeated { total, occurrences })
            },
            _ => {
                let total = arbitrary_f64(u)?;
                let occurrences: u64 = if take_bool(u)? {
                    0
                } else {
                    take_u64(u)?
                };
                Ok(FuzzObservation::Repeated { total, occurrences })
            },
        }
    }
}

/// The unit that a byte stands for.
pub open spec fn unit_of(tag: u8) -> FuzzUnit {
    let t = tag % 11;
    if t == 0 {
        FuzzUnit::Unitless
    } else if t == 1 {
        FuzzUnit::Count
    } else if t == 2 {
        FuzzUnit::Percent
    } else if t == 3 {
        FuzzUnit::SecondMicro
    } else if t == 4 {
        FuzzUnit::SecondMilli
    } else if t == 5 {
        FuzzUnit::Second
    } else if t == 6 {
        FuzzUnit::Byte
    } else if t == 7 {
        FuzzUnit::KiloByte
    } else if t == 8 {
        FuzzUnit::MegaByte
    } else if t == 9 {
        FuzzUnit::Bit
    } else {
        FuzzUnit::KiloBit
    }
}

impl FuzzUnit {
    /// A unit.
    pub fn arbitrary(u: &mut Unstructured) -> (r: Result<Self, arbitrary::Error>)
        ensures
            r == Ok::<Self, arbitrary::Error>(unit_of(source::byte_at(source::unread(old(u)), 0))),
            source::unread(final(u)) == source::after(source::unread(old(u)), 1),
    {
        let tag = take_u8(u)?;
        Ok(
            match tag % 11 {
                0 => FuzzUnit::Unitless,
                1 => FuzzUnit::Count,
                2 => FuzzUnit::Percent,
                3 => FuzzUnit::SecondMicro,
                4 => FuzzUnit::SecondMilli,
                5 => FuzzUnit::Second,
                6 => FuzzUnit::Byte,
                7 => FuzzUnit::KiloByte,
                8 => FuzzUnit::MegaByte,
                9 => FuzzUnit::Bit,
                _ => FuzzUnit::KiloBit,
            },
        )
    }
}

/// The flag mode that a byte stands for.
pub open spec fn flag_mode_of(tag: u8) -> FuzzMetricFlagMode {
    let t = tag % 5;
    if t == 0 {
        FuzzMetricFlagMode::Plain
    } else if t == 1 {
        FuzzMetricFlagMode::HighStorageResolution
    } else if t == 2 {
        FuzzMetricFlagMode::NoMetric
    } else if t == 3 {
        FuzzMetricFlagMode::HighThenNoMetric
    } else {
        FuzzMetricFlagMode::NoMetricThenHigh
    }
}

impl FuzzMetricFlagMode {
    /// A flag mode.
    pub fn arbitrary(u: &mut Unstructured) -> (r: Result<Self, arbitrary::Error>)
        ensures
            r == Ok::<Self, arbitrary::Error>(
                flag_mode_of(source::byte_at(source::unread(old(u)), 0)),
            ),
            source::unread(final(u)) == source::after(source::unread(old(u)), 1),
    {
        let tag = take_u8(u)?;
        Ok(
            match tag % 5 {
                0 => FuzzMetricFlagMode::Plain,
                1 => FuzzMetricFlagMode::HighStorageResolution,
                2 => FuzzMetricFlagMode::NoMetric,
                3 => FuzzMetricFlagMode::HighThenNoMetric,
                _ => FuzzMetricFlagMode::NoMetricThenHigh,
            },
        )
    }
}

/// Model of [`FuzzTimestamp::arbitrary`].
pub open spec fn make_timestamp(bytes: Seq<u8>) -> (FuzzTimestamp, Seq<u8>) {
    let rest = source::after(bytes, 1);
    (
        FuzzTimestamp {
            before_epoch: source::byte_at(bytes, 0) % 2 == 1,
            secs: source::little_endian(rest, 8) as u64,
        },
        source::after(rest, 8),
    )
}

impl FuzzTimestamp {
    /// A time.
    pub fn arbitrary(u: &mut Unstructured) -> (r: Result<Self, arbitrary::Error>)
        ensures
            r == Ok::<Self, arbitrary::Error>(make_timestamp(source::unread(old(u))).0),
            source::unread(final(u)) == make_timestamp(source::unread(old(u))).1,
    {
        let before_epoch = take_bool(u)?;
        let secs = take_u64(u)?;
        Ok(FuzzTimestamp { before_epoch, secs })
    }
}

/// [`make_observation`] as a value.
pub open spec fn observation_maker() -> spec_fn(Seq<u8>) -> (FuzzObservation, Seq<u8>) {
    |bytes: Seq<u8>| make_observation(bytes)
}

/// [`make_timestamp`] as a value.
pub open spec fn timestamp_maker() -> spec_fn(Seq<u8>) -> (FuzzTimestamp, Seq<u8>) {
    |bytes: Seq<u8>| make_timestamp(bytes)
}

/// The dimension of a metric: a name and a value.
pub open spec fn make_dimension(bytes: Seq<u8>) -> ((Seq<char>, Seq<char>), Seq<u8>) {
    let key = make_string(bytes, 48);
    let dimension = make_string(key.1, 64);
    ((key.0, dimension.0), dimension.1)
}

/// [`make_dimension`] as a value.
pub open spec fn dimension_maker() -> spec_fn(Seq<u8>) -> ((Seq<char>, Seq<char>), Seq<u8>) {
    |bytes: Seq<u8>| make_dimension(bytes)
}

/// [`make_string`] of at most `max_len` characters, as a value.
pub open spec fn string_maker(max_len: nat) -> spec_fn(Seq<u8>) -> (Seq<char>, Seq<u8>) {
    |bytes: Seq<u8>| make_string(bytes, max_len)
}

/// Model of [`arbitrary_name`]: the name, the pool of names afterwards, and the bytes left.
///
/// The name is drawn from the pool, or it is new. A new name takes the place of another in the
/// pool, or is added to it while there is room.
pub open spec fn make_name(bytes: Seq<u8>, pool: Seq<Seq<char>>) -> (
    Seq<char>,
    Seq<Seq<char>>,
    Seq<u8>,
) {
    let reuse = if pool.len() == 0 {
        (false, bytes)
    } else {
        make_chance(bytes, REUSE_EXISTING_NAME_PERCENT)
    };
    if reuse.0 {
        let at = source::in_range(reuse.1, (pool.len() - 1) as nat);
        (pool[at.0 as int], pool, at.1)
    } else {
        let name = make_string(reuse.1, 96);
        let replace = if pool.len() == 0 {
            (false, name.1)
        } else {
            make_chance(name.1, REPLACE_EXISTING_POOL_NAME_PERCENT)
        };
        if replace.0 {
            let at = source::in_range(replace.1, (pool.len() - 1) as nat);
            (name.0, pool.update(at.0 as int, name.0), at.1)
        } else if pool.len() < NAME_POOL_SIZE {
            (name.0, pool.push(name.0), replace.1)
        } else {
            (name.0, pool, replace.1)
        }
    }
}

/// The name of a field: often one that an earlier field had.
pub fn arbitrary_name(u: &mut Unstructured, name_pool: &mut Vec<String>) -> (r: Result<
    String,
    arbitrary::Error,
>)
    ensures
        r is Ok,
        ({
            let made = make_name(source::unread(old(u)), entry::texts(old(name_pool)@));
            &&& r->Ok_0@ == made.0
            &&& entry::texts(final(name_pool)@) == made.1
            &&& source::unread(final(u)) == made.2
        }),
{
    let ghost before = name_pool@;
    let reuse_name = name_pool.len() > 0 && chance_percent(u, REUSE_EXISTING_NAME_PERCENT)?;
    if reuse_name {
        let idx = choose_index(u, name_pool.len())?;
        Ok(name_pool[idx].clone())
    } else {
        let name = arbitrary_string(u, 96)?;
        if name_pool.len() > 0 && chance_percent(u, REPLACE_EXISTING_POOL_NAME_PERCENT)? {
            // Keep the pool bounded and still churn names.
            let idx = choose_index(u, name_pool.len())?;
            name_pool.set(idx, name.clone());
            proof {
                assert(entry::texts(name_pool@) =~= entry::texts(before).update(idx as int, name@));
            }
        } else if name_pool.len() < NAME_POOL_SIZE {
            name_pool.push(name.clone());
            proof {
                assert(entry::texts(name_pool@) =~= entry::texts(before).push(name@));
            }
        }
        Ok(name)
    }
}

/// How many observations a metric has.
pub open spec fn observation_count(drawn: u8) -> nat {
    let n = drawn % 8;
    if n <= 4 {
        n as nat
    } else if n == 5 {
        8
    } else if n == 6 {
        16
    } else {
        24
    }
}

/// How many dimensions a metric has.
pub open spec fn dimension_count(drawn: u8) -> nat {
    let n = drawn % 6;
    if n <= 3 {
        n as nat
    } else if n == 4 {
        6
    } else {
        12
    }
}

/// Model of [`arbitrary_metric`].
pub open spec fn make_metric(bytes: Seq<u8>, name: Seq<char>) -> (FuzzFieldView, Seq<u8>) {
    let observations = make_many(
        observation_maker(),
        observation_count(source::byte_at(bytes, 0)),
        source::after(bytes, 1),
    );
    let dimensions = make_many(
        dimension_maker(),
        dimension_count(source::byte_at(observations.1, 0)),
        source::after(observations.1, 1),
    );
    let rest = source::after(dimensions.1, 1);
    (
        FuzzFieldView::Metric {
            name,
            observations: observations.0,
            dimensions: dimensions.0,
            unit: unit_of(source::byte_at(dimensions.1, 0)),
            flag_mode: flag_mode_of(source::byte_at(rest, 0)),
        },
        source::after(rest, 1),
    )
}

/// A metric called `name`.
pub fn arbitrary_metric(u: &mut Unstructured, name: String) -> (r: Result<
    FuzzField,
    arbitrary::Error,
>)
    ensures
        r is Ok,
        r->Ok_0@ == make_metric(source::unread(old(u)), name@).0,
        source::unread(final(u)) == make_metric(source::unread(old(u)), name@).1,
{
    let obs_count: usize = match take_u8(u)? % 8 {
        0 => 0,
        1 => 1,
        2 => 2,
        3 => 3,
        4 => 4,
        5 => 8,
        6 => 16,
        _ => 24,
    };
    let ghost start = source::unread(u);
    let mut observations: Vec<FuzzObservation> = Vec::new();
    let mut i: usize = 0;
    while i < obs_count
        invariant
            i <= obs_count,
            (observations@, source::unread(u)) == make_many(observation_maker(), i as nat, start),
        decreases obs_count - i,
    {
        observations.push(FuzzObservation::arbitrary(u)?);
        i += 1;
    }
    let dim_count: usize = match take_u8(u)? % 6 {
        0 => 0,
        1 => 1,
        2 => 2,
        3 => 3,
        4 => 6,
        _ => 12,
    };
    let ghost start = source::unread(u);
    let mut dimensions: Vec<(String, String)> = Vec::new();
    let mut i: usize = 0;
    proof {
        assert(value::dimension_texts(dimensions@) =~= Seq::<(Seq<char>, Seq<char>)>::empty());
    }
    while i < dim_count
        invariant
            i <= dim_count,
            (value::dimension_texts(dimensions@), source::unread(u)) == make_many(
                dimension_maker(),
                i as nat,
                start,
            ),
        decreases dim_count - i,
    {
        let key = arbitrary_string(u, 48)?;
        let dimension = arbitrary_string(u, 64)?;
        let ghost before = dimensions@;
        dimensions.push((key, dimension));
        proof {
            assert(value::dimension_texts(dimensions@) =~= value::dimension_texts(before).push(
                (key@, dimension@),
            ));
        }
        i += 1;
    }
    let unit = FuzzUnit::arbitrary(u)?;
    let flag_mode = FuzzMetricFlagMode::arbitrary(u)?;
    Ok(FuzzField::Metric { name, observations, dimensions, unit, flag_mode })
}

/// Model of [`arbitrary_field`]: the field, the pool of names afterwards, and the bytes left.
pub open spec fn make_field(bytes: Seq<u8>, pool: Seq<Seq<char>>) -> (
    FuzzFieldView,
    Seq<Seq<char>>,
    Seq<u8>,
) {
    let is_string = source::byte_at(bytes, 0) % 2 == 1;
    let name = make_name(source::after(bytes, 1), pool);
    if is_string {
        let property = make_string(name.2, 192);
        (
            FuzzFieldView::StringProperty { name: name.0, value: property.0 },
            name.1,
            property.1,
        )
    } else {
        let metric = make_metric(name.2, name.0);
        (metric.0, name.1, metric.1)
    }
}

/// A field, whose name may be one of those in `name_pool`.
pub fn arbitrary_field(u: &mut Unstructured, name_pool: &mut Vec<String>) -> (r: Result<
    FuzzField,
    arbitrary::Error,
>)
    ensures
        r is Ok,
        ({
            let made = make_field(source::unread(old(u)), entry::texts(old(name_pool)@));
            &&& r->Ok_0@ == made.0
            &&& entry::texts(final(name_pool)@) == made.1
            &&& source::unread(final(u)) == made.2
        }),
{
    let is_string = take_bool(u)?;
    let name = arbitrary_name(u, name_pool)?;
    if is_string {
        let value = arbitrary_string(u, 192)?;
        Ok(FuzzField::StringProperty { name, value })
    } else {
        arbitrary_metric(u, name)
    }
}

/// How many dimension sets an entry has, and how many names a set has.
pub open spec fn set_count(drawn: u8) -> nat {
    let n = drawn % 6;
    if n <= 4 {
        n as nat
    } else {
        6
    }
}

/// A dimension set: the names of its dimensions.
pub open spec fn make_dimension_set(bytes: Seq<u8>) -> (Seq<Seq<char>>, Seq<u8>) {
    make_many(
        string_maker(48),
        set_count(source::byte_at(bytes, 0)),
        source::after(bytes, 1),
    )
}

/// [`make_dimension_set`] as a value.
pub open spec fn dimension_set_maker() -> spec_fn(Seq<u8>) -> (Seq<Seq<char>>, Seq<u8>) {
    |bytes: Seq<u8>| make_dimension_set(bytes)
}

/// Model of [`arbitrary_entry_dimensions`].
pub open spec fn make_entry_dimensions(bytes: Seq<u8>) -> (Seq<Seq<Seq<char>>>, Seq<u8>) {
    make_many(
        dimension_set_maker(),
        set_count(source::byte_at(bytes, 0)),
        source::after(bytes, 1),
    )
}

/// `count` strings of at most `max_len` characters each.
pub fn arbitrary_strings(u: &mut Unstructured, count: usize, max_len: usize) -> (r: Result<
    Vec<String>,
    arbitrary::Error,
>)
    ensures
        r is Ok,
        ({
            let made = make_many(
                string_maker(max_len as nat),
                count as nat,
                source::unread(old(u)),
            );
            &&& entry::texts(r->Ok_0@) == made.0
            &&& source::unread(final(u)) == made.1
        }),
{
    let ghost start = source::unread(u);
    let mut strings: Vec<String> = Vec::new();
    let mut i: usize = 0;
    proof {
        assert(entry::texts(strings@) =~= Seq::<Seq<char>>::empty());
    }
    while i < count
        invariant
            i <= count,
            (entry::texts(strings@), source::unread(u)) == make_many(
                string_maker(max_len as nat),
                i as nat,
                start,
            ),
        decreases count - i,
    {
        let s = arbitrary_string(u, max_len)?;
        let ghost before = strings@;
        strings.push(s);
        proof {
            assert(entry::texts(strings@) =~= entry::texts(before).push(s@));
        }
        i += 1;
    }
    Ok(strings)
}

/// The dimension sets of an entry.
pub fn arbitrary_entry_dimensions(u: &mut Unstructured) -> (r: Result<
    EntryDimensions,
    arbitrary::Error,
>)
    ensures
        r is Ok,
        r->Ok_0@ == make_entry_dimensions(source::unread(old(u))).0,
        source::unread(final(u)) == make_entry_dimensions(source::unread(old(u))).1,
{
    let sets_drawn: usize = match take_u8(u)? % 6 {
        0 => 0,
        1 => 1,
        2 => 2,
        3 => 3,
        4 => 4,
        _ => 6,
    };
    let ghost start = source::unread(u);
    let mut sets: Vec<Vec<String>> = Vec::new();
    let mut i: usize = 0;
    proof {
        assert(entry::text_sets(sets@) =~= Seq::<Seq<Seq<char>>>::empty());
    }
    while i < sets_drawn
        invariant
            i <= sets_drawn,
            (entry::text_sets(sets@), source::unread(u)) == make_many(
                dimension_set_maker(),
                i as nat,
                start,
            ),
        decreases sets_drawn - i,
    {
        let dims_drawn: usize = match take_u8(u)? % 6 {
            0 => 0,
            1 => 1,
            2 => 2,
            3 => 3,
            4 => 4,
            _ => 6,
        };
        let dims = arbitrary_strings(u, dims_drawn, 48)?;
        let ghost before = sets@;
        sets.push(dims);
        proof {
            assert(entry::text_sets(sets@) =~= entry::text_sets(before).push(entry::texts(dims@)));
        }
        i += 1;
    }
    Ok(EntryDimensions { sets })
}

/// How many timestamps an entry has.
pub open spec fn timestamp_count(drawn: u8) -> nat {
    let n = drawn % 8;
    if n == 0 {
        0
    } else if n <= 4 {
        1
    } else if n == 5 {
        2
    } else if n == 6 {
        3
    } else {
        4
    }
}

/// How many fields an entry has.
pub open spec fn field_count(drawn: u8) -> nat {
    let n = drawn % 8;
    if n <= 2 {
        n as nat
    } else if n == 3 {
        4
    } else if n == 4 {
        8
    } else if n == 5 {
        12
    } else if n == 6 {
        16
    } else {
        24
    }
}

/// The first `n` fields of an entry, the pool of names after them, and the bytes left.
pub open spec fn make_fields(n: nat, bytes: Seq<u8>) -> (
    Seq<FuzzFieldView>,
    Seq<Seq<char>>,
    Seq<u8>,
)
    decreases n,
{
    if n == 0 {
        (Seq::empty(), Seq::empty(), bytes)
    } else {
        let before = make_fields((n - 1) as nat, bytes);
        let field = make_field(before.2, before.1);
        (before.0.push(field.0), field.1, field.2)
    }
}

/// The optional dimension sets of an entry.
pub open spec fn make_optional_dimensions(bytes: Seq<u8>) -> (
    Option<Seq<Seq<Seq<char>>>>,
    Seq<u8>,
) {
    let omit = make_chance(bytes, OMIT_ENTRY_DIMENSIONS_PERCENT);
    if omit.0 {
        (None, omit.1)
    } else {
        let dimensions = make_entry_dimensions(omit.1);
        (Some(dimensions.0), dimensions.1)
    }
}

/// Model of [`FuzzEntry::arbitrary`].
pub open spec fn make_entry(bytes: Seq<u8>) -> (FuzzEntryView, Seq<u8>) {
    let timestamps = make_many(
        timestamp_maker(),
        timestamp_count(source::byte_at(bytes, 0)),
        source::after(bytes, 1),
    );
    let allow_split_entries = source::byte_at(timestamps.1, 0) % 2 == 1;
    let dimensions = make_optional_dimensions(source::after(timestamps.1, 1));
    let fields = make_fields(
        field_count(source::byte_at(dimensions.1, 0)),
        source::after(dimensions.1, 1),
    );
    (
        FuzzEntryView {
            timestamps: timestamps.0,
            allow_split_entries,
            entry_dimensions: dimensions.0,
            fields: fields.0,
        },
        fields.2,
    )
}

impl FuzzEntry {
    /// An entry.
    pub fn arbitrary(u: &mut Unstructured) -> (r: Result<Self, arbitrary::Error>)
        ensures
            r is Ok,
            r->Ok_0@ == make_entry(source::unread(old(u))).0,
            source::unread(final(u)) == make_entry(source::unread(old(u))).1,
    {
        let timestamps_drawn: usize = match take_u8(u)? % 8 {
            0 => 0,
            1 | 2 | 3 | 4 => 1,
            5 => 2,
            6 => 3,
            _ => 4,
        };
        let ghost start = source::unread(u);
        let mut timestamps: Vec<FuzzTimestamp> = Vec::new();
        let mut i: usize = 0;
        while i < timestamps_drawn
            invariant
                i <= timestamps_drawn,
                (timestamps@, source::unread(u)) == make_many(timestamp_maker(), i as nat, start),
            decreases timestamps_drawn - i,
        {
            timestamps.push(FuzzTimestamp::arbitrary(u)?);
            i += 1;
        }
        let allow_split_entries = take_bool(u)?;
        let entry_dimensions: Option<EntryDimensions> = if chance_percent(
            u,
            OMIT_ENTRY_DIMENSIONS_PERCENT,
        )? {
            None
        } else {
            Some(arbitrary_entry_dimensions(u)?)
        };
        let fields_drawn: usize = match take_u8(u)? % 8 {
            0 => 0,
            1 => 1,
            2 => 2,
            3 => 4,
            4 => 8,
            5 => 12,
            6 => 16,
            _ => 24,
        };
        let ghost start = source::unread(u);
        let mut name_pool: Vec<String> = Vec::new();
        let mut fields: Vec<FuzzField> = Vec::new();
        let mut i: usize = 0;
        proof {
            assert(types::field_views(fields@) =~= Seq::<FuzzFieldView>::empty());
            assert(entry::texts(name_pool@) =~= Seq::<Seq<char>>::empty());
        }
        while i < fields_drawn
            invariant
                i <= fields_drawn,
                (types::field_views(fields@), entry::texts(name_pool@), source::unread(u))
                    == make_fields(i as nat, start),
            decreases fields_drawn - i,
        {
            let field = arbitrary_field(u, &mut name_pool)?;
            let ghost before = fields@;
            fields.push(field);
            proof {
                assert(types::field_views(fields@) =~= types::field_views(before).push(field@));
            }
            i += 1;
        }
        Ok(FuzzEntry { timestamps, allow_split_entries, entry_dimensions, fields })
    }
}

/// The two entries with which a formatter is fuzzed, and the source of what is left of `data`. The
/// second entry is made from the bytes that the first one left.
pub fn entries_from(data: &[u8]) -> (r: Result<
    (FuzzEntry, FuzzEntry, Unstructured<'_>),
    arbitrary::Error,
>)
    ensures
        r is Ok,
        r->Ok_0.0@ == make_entry(data@).0,
        r->Ok_0.1@ == make_entry(make_entry(data@).1).0,
        source::unread(&r->Ok_0.2) == make_entry(make_entry(data@).1).1,
{
    let mut u = source_of(data);
    let first = FuzzEntry::arbitrary(&mut u)?;
    let second = FuzzEntry::arbitrary(&mut u)?;
    Ok((first, second, u))
}

} // verus!
