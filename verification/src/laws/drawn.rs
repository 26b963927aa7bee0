//! What is drawn from which data.
use crate::entry::{self, EntryDimensions};
use crate::fuzz::emf::{self, arbitrary_optional_string, inputs_from, EmfFuzzEntry, FuzzEmfConfig};
use crate::fuzz::generate::{
    self, arbitrary_char, arbitrary_entry_dimensions, arbitrary_f64, arbitrary_field,
    arbitrary_metric, arbitrary_name, arbitrary_string, arbitrary_strings, chance_percent,
    choose_index, entries_from,
};
use crate::fuzz::source;
use crate::fuzz::types::{
    FuzzEntry, FuzzField, FuzzMetricFlagMode, FuzzObservation, FuzzTimestamp, FuzzUnit,
};
use crate::laws::fuzzed;
use crate::value::{self, Float64};
use arbitrary::Unstructured;
use vstd::prelude::*;

verus! {

/// Reading goes through the data from front to back. Past the end of it every byte is zero.
pub proof fn reading_goes_from_front_to_back(bytes: Seq<u8>, n: int, i: int)
    requires
        n >= 0,
        i >= 0,
    ensures
        source::byte_at(bytes, i) == if i < bytes.len() {
            bytes[i]
        } else {
            0
        },
        source::byte_at(source::after(bytes, n), i) == source::byte_at(bytes, n + i),
        source::after(bytes, n) == bytes.skip(if n <= bytes.len() {
            n
        } else {
            bytes.len() as int
        }),
{
    if n > bytes.len() {
        assert(bytes.skip(bytes.len() as int) =~= Seq::empty());
    }
}

/// A chance of so many in a hundred holds if the next byte, reduced to less than a hundred, is less
/// than that. Where it always or never holds, nothing is read.
pub proof fn chances_are_rolled(u: &mut Unstructured, percent: u8, r: Result<bool, arbitrary::Error>)
    requires
        percent <= 100,
        call_ensures(chance_percent, (u, percent), r),
    ensures
        r is Ok,
        ({
            let bytes = source::unread(old(u));
            &&& 0 < percent < 100 ==> r->Ok_0 == (source::byte_at(bytes, 0) % 100 < percent)
                && source::unread(final(u)) == source::after(bytes, 1)
            &&& percent == 0 ==> !r->Ok_0 && source::unread(final(u)) == bytes
            &&& percent == 100 ==> r->Ok_0 && source::unread(final(u)) == bytes
        }),
{
    source::small_range(source::unread(old(u)), 99);
}

/// An index is less than the length. With up to 256 to choose from it is the next byte, reduced to
/// less than the length; with one it is zero and nothing is read.
pub proof fn indices_are_drawn(u: &mut Unstructured, len: usize, r: Result<usize, arbitrary::Error>)
    requires
        len > 0,
        call_ensures(choose_index, (u, len), r),
    ensures
        r is Ok,
        r->Ok_0 < len,
        ({
            let bytes = source::unread(old(u));
            &&& 1 < len <= 256 ==> r->Ok_0 == source::byte_at(bytes, 0) as nat % (len as nat)
                && source::unread(final(u)) == source::after(bytes, 1)
            &&& len == 1 ==> source::unread(final(u)) == bytes
            &&& r->Ok_0 as nat == source::in_range(bytes, (len - 1) as nat).0
            &&& source::unread(final(u)) == source::in_range(bytes, (len - 1) as nat).1
        }),
{
    let bytes = source::unread(old(u));
    source::in_range_is_bounded(bytes, (len - 1) as nat);
    if 1 < len <= 256 {
        source::small_range(bytes, (len - 1) as nat);
    }
}

/// Characters are drawn by the next byte, reduced to less than ten: one that JSON escapes, a
/// control character, one that delimits JSON, white space, and in all other cases any character.
pub proof fn characters_are_drawn(u: &mut Unstructured, r: Result<char, arbitrary::Error>)
    requires
        call_ensures(arbitrary_char, (u,), r),
    ensures
        r is Ok,
        ({
            let bytes = source::unread(old(u));
            let next = source::byte_at(bytes, 1);
            let code = source::little_endian(source::after(bytes, 1), 4) % 0x11_0000;
            let bucket = source::byte_at(bytes, 0) % 10;
            let c = r->Ok_0;
            &&& bucket == 0 ==> c == seq!['"', '\\', '\n', '\r', '\t', '\u{08}'][next as int % 6]
            &&& bucket == 1 ==> c as int == next as int % 32
            &&& bucket == 2 ==> c == seq!['{', '}', '[', ']', ':', ','][next as int % 6]
            &&& bucket == 3 ==> c == seq!['\n', ' '][next as int % 2]
            &&& bucket >= 4 ==> c as int == if 0xD800 <= code <= 0xDFFF {
                code - 0xD800
            } else {
                code as int
            }
            &&& source::unread(final(u)) == source::after(
                bytes,
                if bucket >= 4 {
                    5
                } else {
                    2
                },
            )
        }),
{
    let bytes = source::unread(old(u));
    let rest = source::after(bytes, 1);
    reading_goes_from_front_to_back(bytes, 1, 0);
    source::small_range(rest, 0x1f);
    assert(source::after(rest, 1) =~= source::after(bytes, 2));
    assert(source::after(rest, 4) =~= source::after(bytes, 5));
}

/// Things drawn in a row are as many as asked for, and each is drawn from what the one before it
/// left.
pub proof fn rows_are_drawn_one_by_one<T>(
    make: spec_fn(Seq<u8>) -> (T, Seq<u8>),
    n: nat,
    bytes: Seq<u8>,
)
    ensures
        generate::make_many(make, 0, bytes).0.len() == 0,
        generate::make_many(make, 0, bytes).1 == bytes,
        generate::make_many(make, n, bytes).0.len() == n,
        generate::make_many(make, n + 1, bytes).0.drop_last() =~= generate::make_many(
            make,
            n,
            bytes,
        ).0,
        generate::make_many(make, n + 1, bytes).0.last() == make(
            generate::make_many(make, n, bytes).1,
        ).0,
        generate::make_many(make, n + 1, bytes).1 == make(
            generate::make_many(make, n, bytes).1,
        ).1,
    decreases n,
{
    if n > 0 {
        rows_are_drawn_one_by_one(make, (n - 1) as nat, bytes);
    }
}

/// A string has as many characters as the next byte says, but not more than allowed. They are drawn
/// in a row from what follows that byte.
pub proof fn strings_are_drawn(
    u: &mut Unstructured,
    max_len: usize,
    r: Result<String, arbitrary::Error>,
)
    requires
        call_ensures(arbitrary_string, (u, max_len), r),
    ensures
        r is Ok,
        ({
            let bytes = source::unread(old(u));
            let drawn = source::byte_at(bytes, 0) as nat;
            let len = if drawn <= max_len {
                drawn
            } else {
                max_len as nat
            };
            let row = generate::make_many(
                |b: Seq<u8>| generate::make_char(b),
                len,
                source::after(bytes, 1),
            );
            &&& r->Ok_0@.len() == len
            &&& r->Ok_0@ == row.0
            &&& source::unread(final(u)) == row.1
        }),
{
    let bytes = source::unread(old(u));
    let drawn = source::byte_at(bytes, 0) as nat;
    let len = if drawn <= max_len {
        drawn
    } else {
        max_len as nat
    };
    assert(generate::char_maker() =~= |b: Seq<u8>| generate::make_char(b));
    rows_are_drawn_one_by_one(generate::char_maker(), len, source::after(bytes, 1));
}

/// Strings in a row are as many as asked for, each drawn from what the one before it left.
pub proof fn strings_are_drawn_in_a_row(
    u: &mut Unstructured,
    count: usize,
    max_len: usize,
    r: Result<Vec<String>, arbitrary::Error>,
    at: int,
)
    requires
        call_ensures(arbitrary_strings, (u, count, max_len), r),
    ensures
        r is Ok,
        ({
            let row = generate::make_many(
                |b: Seq<u8>| generate::make_string(b, max_len as nat),
                count as nat,
                source::unread(old(u)),
            );
            &&& r->Ok_0@.len() == count
            &&& 0 <= at < count ==> r->Ok_0@[at]@ == row.0[at]
            &&& source::unread(final(u)) == row.1
        }),
{
    assert(generate::string_maker(max_len as nat) =~= |b: Seq<u8>|
        generate::make_string(b, max_len as nat));
    rows_are_drawn_one_by_one(
        generate::string_maker(max_len as nat),
        count as nat,
        source::unread(old(u)),
    );
    let texts = entry::texts(r->Ok_0@);
    assert(texts.len() == r->Ok_0@.len());
    if 0 <= at < count {
        assert(texts[at] == r->Ok_0@[at]@);
    }
}

/// The special numbers, in the order in which they are drawn.
pub open spec fn special_numbers() -> Seq<Float64> {
    seq![
        Float64::Nan,
        Float64::Infinity,
        Float64::NegInfinity,
        Float64::NegZero,
        Float64::Zero,
        Float64::Max,
        Float64::Min,
        Float64::MinPositive,
        Float64::Bits(1),
    ]
}

/// Numbers are drawn by the next byte, reduced to less than twelve: one of nine special ones, and
/// else the one with the bits of the eight bytes that follow.
pub proof fn numbers_are_drawn(u: &mut Unstructured, r: Result<Float64, arbitrary::Error>)
    requires
        call_ensures(arbitrary_f64, (u,), r),
    ensures
        r is Ok,
        ({
            let bytes = source::unread(old(u));
            let choice = source::byte_at(bytes, 0) as int % 12;
            if choice < 9 {
                r->Ok_0 == special_numbers()[choice] && source::unread(final(u)) == source::after(
                    bytes,
                    1,
                )
            } else {
                r->Ok_0 == Float64::Bits(
                    source::little_endian(source::after(bytes, 1), 8) as u64,
                ) && source::unread(final(u)) == source::after(bytes, 9)
            }
        }),
{
    let bytes = source::unread(old(u));
    assert(source::after(source::after(bytes, 1), 8) =~= source::after(bytes, 9));
}

/// Observations are drawn by the next byte, reduced to less than four: a whole number, a number, or
/// a repeated one, the last of these often with no occurrences.
pub proof fn observations_are_drawn(
    u: &mut Unstructured,
    r: Result<FuzzObservation, arbitrary::Error>,
)
    requires
        call_ensures(FuzzObservation::arbitrary, (u,), r),
    ensures
        r is Ok,
        ({
            let bytes = source::unread(old(u));
            let rest = source::after(bytes, 1);
            let number = generate::make_f64(rest);
            let behind = source::after(number.1, 1);
            let left = source::unread(final(u));
            let kind = source::byte_at(bytes, 0) % 4;
            match r->Ok_0 {
                FuzzObservation::Unsigned(n) => kind == 0 && n == source::little_endian(
                    rest,
                    8,
                ) as u64 && left == source::after(rest, 8),
                FuzzObservation::Floating(f) => kind == 1 && f == number.0 && left == number.1,
                FuzzObservation::Repeated { total, occurrences } => {
                    &&& kind >= 2
                    &&& total == number.0
                    &&& if kind == 3 && source::byte_at(number.1, 0) % 2 == 1 {
                        occurrences == 0 && left == behind
                    } else {
                        let start = if kind == 2 {
                            number.1
                        } else {
                            behind
                        };
                        occurrences == source::little_endian(start, 8) as u64 && left
                            == source::after(start, 8)
                    }
                },
            }
        }),
{
}

/// Units and modes are drawn by the next byte, as often as each other and in their order.
pub proof fn units_and_modes_are_drawn(
    u: &mut Unstructured,
    unit: Result<FuzzUnit, arbitrary::Error>,
    v: &mut Unstructured,
    mode: Result<FuzzMetricFlagMode, arbitrary::Error>,
)
    requires
        call_ensures(FuzzUnit::arbitrary, (u,), unit),
        call_ensures(FuzzMetricFlagMode::arbitrary, (v,), mode),
    ensures
        unit is Ok,
        unit->Ok_0 == fuzzed::all_units()[source::byte_at(source::unread(old(u)), 0) as int % 11].0,
        source::unread(final(u)) == source::after(source::unread(old(u)), 1),
        mode is Ok,
        mode->Ok_0 == seq![
            FuzzMetricFlagMode::Plain,
            FuzzMetricFlagMode::HighStorageResolution,
            FuzzMetricFlagMode::NoMetric,
            FuzzMetricFlagMode::HighThenNoMetric,
            FuzzMetricFlagMode::NoMetricThenHigh,
        ][source::byte_at(source::unread(old(v)), 0) as int % 5],
        source::unread(final(v)) == source::after(source::unread(old(v)), 1),
{
}

/// A timestamp is drawn from nine bytes: on which side of the epoch, and how far away.
pub proof fn timestamps_are_drawn(u: &mut Unstructured, r: Result<FuzzTimestamp, arbitrary::Error>)
    requires
        call_ensures(FuzzTimestamp::arbitrary, (u,), r),
    ensures
        r is Ok,
        ({
            let bytes = source::unread(old(u));
            &&& r->Ok_0.before_epoch == (source::byte_at(bytes, 0) % 2 == 1)
            &&& r->Ok_0.secs == source::little_endian(source::after(bytes, 1), 8) as u64
            &&& source::unread(final(u)) == source::after(bytes, 9)
        }),
{
    let bytes = source::unread(old(u));
    assert(source::after(source::after(bytes, 1), 8) =~= source::after(bytes, 9));
}

/// How many of each thing there are, by the byte that is drawn for it.
pub proof fn counts_are_drawn(drawn: u8)
    ensures
        generate::timestamp_count(drawn) == seq![0nat, 1, 1, 1, 1, 2, 3, 4][drawn as int % 8],
        generate::field_count(drawn) == seq![0nat, 1, 2, 4, 8, 12, 16, 24][drawn as int % 8],
        generate::observation_count(drawn) == seq![0nat, 1, 2, 3, 4, 8, 16, 24][drawn as int % 8],
        generate::dimension_count(drawn) == seq![0nat, 1, 2, 3, 6, 12][drawn as int % 6],
        generate::set_count(drawn) == seq![0nat, 1, 2, 3, 4, 6][drawn as int % 6],
{
}

/// A name is, where there are earlier ones and the roll is less than 70, one of them, and the pool
/// stays. Else it is new: at a second roll of less than 20 it takes the place of one of the pool,
/// and else it is added to the pool while that holds less than 16.
pub proof fn names_are_drawn(
    u: &mut Unstructured,
    pool: &mut Vec<String>,
    r: Result<String, arbitrary::Error>,
)
    requires
        call_ensures(arbitrary_name, (u, pool), r),
    ensures
        r is Ok,
        ({
            let bytes = source::unread(old(u));
            let before = entry::texts(old(pool)@);
            let after = entry::texts(final(pool)@);
            let n = before.len();
            let left = source::unread(final(u));
            if n > 0 && source::byte_at(bytes, 0) % 100 < 70 {
                let rest = source::after(bytes, 1);
                let at = source::in_range(rest, (n - 1) as nat);
                &&& at.0 < n
                &&& r->Ok_0@ == before[at.0 as int]
                &&& after == before
                &&& left == at.1
            } else {
                let made = generate::make_string(
                    if n > 0 {
                        source::after(bytes, 1)
                    } else {
                        bytes
                    },
                    96,
                );
                &&& r->Ok_0@ == made.0
                &&& if n > 0 && source::byte_at(made.1, 0) % 100 < 20 {
                    let rest = source::after(made.1, 1);
                    let at = source::in_range(rest, (n - 1) as nat);
                    &&& at.0 < n
                    &&& after == before.update(at.0 as int, made.0)
                    &&& left == at.1
                } else {
                    &&& after == if n < 16 {
                        before.push(made.0)
                    } else {
                        before
                    }
                    &&& left == if n > 0 {
                        source::after(made.1, 1)
                    } else {
                        made.1
                    }
                }
            }
        }),
{
    let bytes = source::unread(old(u));
    let n = entry::texts(old(pool)@).len();
    assert(n == old(pool)@.len());
    source::small_range(bytes, 99);
    let start = if n > 0 {
        source::after(bytes, 1)
    } else {
        bytes
    };
    let made = generate::make_string(start, 96);
    source::small_range(made.1, 99);
    if n > 0 {
        let last = (n - 1) as nat;
        source::in_range_is_bounded(source::after(bytes, 1), last);
        source::in_range_is_bounded(source::after(made.1, 1), last);
    }
}

/// A metric has the name that was drawn before it, and is drawn from what follows: a count and so
/// many observations, a count and so many dimensions, a unit, and a mode.
pub proof fn metrics_are_drawn(
    u: &mut Unstructured,
    name: String,
    r: Result<FuzzField, arbitrary::Error>,
    at: int,
)
    requires
        call_ensures(arbitrary_metric, (u, name), r),
    ensures
        r is Ok,
        r->Ok_0 matches FuzzField::Metric { name: n, observations, dimensions, unit, flag_mode } && {
            let bytes = source::unread(old(u));
            let os = generate::make_many(
                |b: Seq<u8>| generate::make_observation(b),
                seq![0nat, 1, 2, 3, 4, 8, 16, 24][source::byte_at(bytes, 0) as int % 8],
                source::after(bytes, 1),
            );
            let ds = generate::make_many(
                |b: Seq<u8>|
                    {
                        let key = generate::make_string(b, 48);
                        let text = generate::make_string(key.1, 64);
                        ((key.0, text.0), text.1)
                    },
                seq![0nat, 1, 2, 3, 6, 12][source::byte_at(os.1, 0) as int % 6],
                source::after(os.1, 1),
            );
            &&& n@ == name@
            &&& observations@ == os.0
            &&& dimensions@.len() == ds.0.len()
            &&& 0 <= at < ds.0.len() ==> dimensions@[at].0@ == ds.0[at].0 && dimensions@[at].1@
                == ds.0[at].1
            &&& unit == generate::unit_of(source::byte_at(ds.1, 0))
            &&& flag_mode == generate::flag_mode_of(source::byte_at(ds.1, 1))
            &&& source::unread(final(u)) == source::after(ds.1, 2)
        },
{
    let bytes = source::unread(old(u));
    counts_are_drawn(source::byte_at(bytes, 0));
    assert(generate::observation_maker() =~= |b: Seq<u8>| generate::make_observation(b));
    let os = generate::make_many(
        generate::observation_maker(),
        generate::observation_count(source::byte_at(bytes, 0)),
        source::after(bytes, 1),
    );
    counts_are_drawn(source::byte_at(os.1, 0));
    assert(generate::dimension_maker() =~= |b: Seq<u8>|
        {
            let key = generate::make_string(b, 48);
            let text = generate::make_string(key.1, 64);
            ((key.0, text.0), text.1)
        });
    let ds = generate::make_many(
        generate::dimension_maker(),
        generate::dimension_count(source::byte_at(os.1, 0)),
        source::after(os.1, 1),
    );
    assert(source::after(source::after(ds.1, 1), 1) =~= source::after(ds.1, 2));
    if let FuzzField::Metric { dimensions, .. } = r->Ok_0 {
        let texts = value::dimension_texts(dimensions@);
        assert(texts == ds.0);
        assert(texts.len() == dimensions@.len());
        if 0 <= at < ds.0.len() {
            assert(texts[at] == (dimensions@[at].0@, dimensions@[at].1@));
        }
    }
}

/// A field is a property if the next byte is odd, and else a metric. Its name is drawn next, and
/// then its text, of at most 192 characters, or the rest of the metric.
pub proof fn fields_are_drawn(
    u: &mut Unstructured,
    pool: &mut Vec<String>,
    r: Result<FuzzField, arbitrary::Error>,
)
    requires
        call_ensures(arbitrary_field, (u, pool), r),
    ensures
        r is Ok,
        ({
            let bytes = source::unread(old(u));
            let name = generate::make_name(source::after(bytes, 1), entry::texts(old(pool)@));
            let text = generate::make_string(name.2, 192);
            let metric = generate::make_metric(name.2, name.0);
            &&& entry::texts(final(pool)@) == name.1
            &&& r->Ok_0 is StringProperty <==> source::byte_at(bytes, 0) % 2 == 1
            &&& r->Ok_0 matches FuzzField::StringProperty { name: n, value } ==> n@ == name.0
                && value@ == text.0 && source::unread(final(u)) == text.1
            &&& r->Ok_0 is Metric ==> r->Ok_0@ == metric.0 && source::unread(final(u)) == metric.1
            &&& r->Ok_0 matches FuzzField::Metric { name: n, .. } ==> n@ == name.0
        }),
{
}

/// Dimension sets are a count and so many sets, each a count and so many names of at most 48
/// characters.
pub proof fn dimension_sets_are_drawn(
    u: &mut Unstructured,
    r: Result<EntryDimensions, arbitrary::Error>,
)
    requires
        call_ensures(arbitrary_entry_dimensions, (u,), r),
    ensures
        r is Ok,
        ({
            let counts = seq![0nat, 1, 2, 3, 4, 6];
            let bytes = source::unread(old(u));
            let sets = generate::make_many(
                |b: Seq<u8>|
                    generate::make_many(
                        |c: Seq<u8>| generate::make_string(c, 48),
                        counts[source::byte_at(b, 0) as int % 6],
                        source::after(b, 1),
                    ),
                counts[source::byte_at(bytes, 0) as int % 6],
                source::after(bytes, 1),
            );
            &&& r->Ok_0@ == sets.0
            &&& source::unread(final(u)) == sets.1
        }),
{
    let counts = seq![0nat, 1, 2, 3, 4, 6];
    let bytes = source::unread(old(u));
    counts_are_drawn(source::byte_at(bytes, 0));
    assert(generate::string_maker(48) =~= |c: Seq<u8>| generate::make_string(c, 48));
    let direct = |b: Seq<u8>|
        generate::make_many(
            |c: Seq<u8>| generate::make_string(c, 48),
            counts[source::byte_at(b, 0) as int % 6],
            source::after(b, 1),
        );
    assert forall|b: Seq<u8>| #[trigger] generate::dimension_set_maker()(b) == direct(b) by {
        counts_are_drawn(source::byte_at(b, 0));
    }
    assert(generate::dimension_set_maker() =~= direct);
}

/// An entry is drawn in this order: a count and so many timestamps, whether it may be split, at a
/// roll of 55 or more its dimension sets, and a count and so many fields, each of which may take a
/// name from those before it.
pub proof fn entries_are_drawn(u: &mut Unstructured, r: Result<FuzzEntry, arbitrary::Error>)
    requires
        call_ensures(FuzzEntry::arbitrary, (u,), r),
    ensures
        r is Ok,
        ({
            let bytes = source::unread(old(u));
            let entry = r->Ok_0;
            let times = generate::make_many(
                |b: Seq<u8>| generate::make_timestamp(b),
                seq![0nat, 1, 1, 1, 1, 2, 3, 4][source::byte_at(bytes, 0) as int % 8],
                source::after(bytes, 1),
            );
            let omitted = source::byte_at(times.1, 1) % 100 < 55;
            let sets = generate::make_entry_dimensions(source::after(times.1, 2));
            let rest = if omitted {
                source::after(times.1, 2)
            } else {
                sets.1
            };
            let fields = generate::make_fields(
                seq![0nat, 1, 2, 4, 8, 12, 16, 24][source::byte_at(rest, 0) as int % 8],
                source::after(rest, 1),
            );
            &&& entry.timestamps@ == times.0
            &&& entry.allow_split_entries == (source::byte_at(times.1, 0) % 2 == 1)
            &&& entry.entry_dimensions is None <==> omitted
            &&& entry.entry_dimensions matches Some(d) ==> d@ == sets.0
            &&& entry@.fields == fields.0
            &&& source::unread(final(u)) == fields.2
        }),
{
    let bytes = source::unread(old(u));
    counts_are_drawn(source::byte_at(bytes, 0));
    assert(generate::timestamp_maker() =~= |b: Seq<u8>| generate::make_timestamp(b));
    let times = generate::make_many(
        generate::timestamp_maker(),
        generate::timestamp_count(source::byte_at(bytes, 0)),
        source::after(bytes, 1),
    );
    let at = source::after(times.1, 1);
    source::small_range(at, 99);
    assert(source::after(at, 1) =~= source::after(times.1, 2));
    reading_goes_from_front_to_back(times.1, 1, 0);
    let optional = generate::make_optional_dimensions(at);
    counts_are_drawn(source::byte_at(optional.1, 0));
}

/// Fields in a row are as many as asked for. Each is drawn from what the one before it left, with
/// the names of all before it.
pub proof fn fields_are_drawn_one_by_one(n: nat, bytes: Seq<u8>)
    ensures
        generate::make_fields(0, bytes).0.len() == 0,
        generate::make_fields(0, bytes).1.len() == 0,
        generate::make_fields(0, bytes).2 == bytes,
        ({
            let before = generate::make_fields(n, bytes);
            let after = generate::make_fields(n + 1, bytes);
            let field = generate::make_field(before.2, before.1);
            &&& after.0 == before.0.push(field.0)
            &&& after.1 == field.1
            &&& after.2 == field.2
        }),
{
}

/// An optional string is there if the next byte is odd, and is then drawn from what follows.
pub proof fn optional_strings_are_drawn(
    u: &mut Unstructured,
    max_len: usize,
    r: Result<Option<String>, arbitrary::Error>,
)
    requires
        call_ensures(arbitrary_optional_string, (u, max_len), r),
    ensures
        r is Ok,
        ({
            let bytes = source::unread(old(u));
            let rest = source::after(bytes, 1);
            let made = generate::make_string(rest, max_len as nat);
            &&& r->Ok_0 is Some <==> source::byte_at(bytes, 0) % 2 == 1
            &&& r->Ok_0 matches Some(s) ==> s@ == made.0 && source::unread(final(u)) == made.1
            &&& r->Ok_0 is None ==> source::unread(final(u)) == rest
        }),
{
}

/// The settings of a formatter are drawn in this order: the namespace, perhaps a second one,
/// perhaps a log group, a count from one to four and so many sets, each a count of at most four and
/// so many names, and whether dimensions may be ignored.
pub proof fn settings_are_drawn(
    u: &mut Unstructured,
    r: Result<FuzzEmfConfig, arbitrary::Error>,
    i: int,
    j: int,
)
    requires
        call_ensures(FuzzEmfConfig::arbitrary, (u,), r),
    ensures
        r is Ok,
        ({
            let config = r->Ok_0;
            let namespace = generate::make_string(source::unread(old(u)), 48);
            let extra = emf::make_optional_string(namespace.1, 48);
            let group = emf::make_optional_string(extra.1, 64);
            let sets = generate::make_many(
                |b: Seq<u8>|
                    generate::make_many(
                        |c: Seq<u8>| generate::make_string(c, 32),
                        (source::byte_at(b, 0) % 5) as nat,
                        source::after(b, 1),
                    ),
                1 + (source::byte_at(group.1, 0) % 4) as nat,
                source::after(group.1, 1),
            );
            &&& config.namespace@ == namespace.0
            &&& emf::optional_text(config.extra_namespace) == extra.0
            &&& emf::optional_text(config.log_group_name) == group.0
            &&& config.default_dimensions@.len() == sets.0.len()
            &&& 0 <= i < sets.0.len() ==> config.default_dimensions@[i]@.len() == sets.0[i].len()
            &&& 0 <= i < sets.0.len() && 0 <= j < sets.0[i].len()
                ==> config.default_dimensions@[i]@[j]@ == sets.0[i][j]
            &&& config.allow_ignored_dimensions == (source::byte_at(sets.1, 0) % 2 == 1)
            &&& source::unread(final(u)) == source::after(sets.1, 1)
        }),
{
    assert(generate::string_maker(32) =~= |c: Seq<u8>| generate::make_string(c, 32));
    let direct = |b: Seq<u8>|
        generate::make_many(
            |c: Seq<u8>| generate::make_string(c, 32),
            (source::byte_at(b, 0) % 5) as nat,
            source::after(b, 1),
        );
    assert(emf::default_set_maker() =~= direct);
    let texts = entry::text_sets(r->Ok_0.default_dimensions@);
    assert(texts.len() == r->Ok_0.default_dimensions@.len());
    if 0 <= i < texts.len() {
        assert(texts[i] == entry::texts(r->Ok_0.default_dimensions@[i]@));
        if 0 <= j < texts[i].len() {
            assert(texts[i][j] == r->Ok_0.default_dimensions@[i]@[j]@);
        }
    }
}

/// The text of an optional string is there if and only if the string is.
pub proof fn optional_texts_are_those_of_their_strings(s: Option<String>)
    ensures
        emf::optional_text(s) is Some <==> s is Some,
        s matches Some(string) ==> emf::optional_text(s)->0 == string@,
{
}

/// Each field is given a mode, drawn in the order of the fields; the entry stays as it is.
pub proof fn modes_are_drawn_for_each_field(
    inner: FuzzEntry,
    u: &mut Unstructured,
    r: EmfFuzzEntry,
    at: int,
)
    requires
        call_ensures(EmfFuzzEntry::with_arbitrary_flags, (inner, u), r),
    ensures
        r.inner == inner,
        r.flag_modes@.len() == inner.fields@.len(),
        0 <= at < inner.fields@.len() ==> r.flag_modes@[at] == generate::flag_mode_of(
            source::byte_at(source::unread(old(u)), at),
        ),
        source::unread(final(u)) == source::after(source::unread(old(u)), inner.fields@.len() as int),
{
    modes_in_a_row(source::unread(old(u)), inner.fields@.len(), at);
}

/// Modes in a row take one byte each.
proof fn modes_in_a_row(bytes: Seq<u8>, n: nat, at: int)
    ensures
        ({
            let row = generate::make_many(emf::flag_mode_maker(), n, bytes);
            &&& row.0.len() == n
            &&& 0 <= at < n ==> row.0[at] == generate::flag_mode_of(source::byte_at(bytes, at))
            &&& row.1 == source::after(bytes, n as int)
        }),
    decreases n,
{
    if n == 0 {
        assert(bytes.skip(0) =~= bytes);
    } else {
        modes_in_a_row(bytes, (n - 1) as nat, at);
        assert(source::after(source::after(bytes, n - 1), 1) =~= source::after(bytes, n as int));
        reading_goes_from_front_to_back(bytes, n - 1, 0);
    }
}

/// The inputs of a run are drawn from the data one after the other: two entries, and for EMF the
/// settings.
pub proof fn inputs_are_drawn_one_after_the_other<'a>(
    data: &'a [u8],
    r: Result<(FuzzEntry, FuzzEntry, Unstructured<'a>), arbitrary::Error>,
    s: Result<(FuzzEntry, FuzzEntry, FuzzEmfConfig, Unstructured<'a>), arbitrary::Error>,
)
    requires
        call_ensures(entries_from, (data,), r),
        call_ensures(inputs_from, (data,), s),
    ensures
        r is Ok,
        s is Ok,
        ({
            let first = generate::make_entry(data@);
            let second = generate::make_entry(first.1);
            let config = emf::make_config(second.1);
            &&& r->Ok_0.0@ == first.0
            &&& r->Ok_0.1@ == second.0
            &&& source::unread(&r->Ok_0.2) == second.1
            &&& s->Ok_0.0@ == first.0
            &&& s->Ok_0.1@ == second.0
            &&& s->Ok_0.2@ == config.0
            &&& source::unread(&s->Ok_0.3) == config.1
        }),
{
}

} // verus!
