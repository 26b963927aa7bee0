//! What holds of everything that is generated and written: it is of bounded size, the generators
//! take bytes from the front of the data alone, data that has run out gives an empty entry, and
//! flags matter to metrics alone.
use crate::entry::Entry;
use crate::fuzz::emf::{self, EmfFuzzEntry, FuzzEmfConfigView};
use crate::fuzz::generate::{self, NAME_POOL_SIZE};
use crate::fuzz::source;
use crate::fuzz::types::{self, FuzzEntryView, FuzzField, FuzzFieldView};
use crate::fuzz::writing;
use vstd::prelude::*;

verus! {

/// Whether `rest` is what is left of `bytes` after some of them were read.
pub open spec fn is_rest(rest: Seq<u8>, bytes: Seq<u8>) -> bool {
    rest.len() <= bytes.len() && rest == bytes.skip(bytes.len() - rest.len())
}

/// Whether the texts have at most `max_len` characters each.
pub open spec fn no_longer_than(texts: Seq<Seq<char>>, max_len: nat) -> bool {
    forall|i: int| 0 <= i < texts.len() ==> (#[trigger] texts[i]).len() <= max_len
}

/// Whether a dimension of a metric is of bounded size.
pub open spec fn bounded_dimension(dimension: (Seq<char>, Seq<char>)) -> bool {
    dimension.0.len() <= 48 && dimension.1.len() <= 64
}

/// Whether a field is of bounded size.
pub open spec fn bounded_field(field: FuzzFieldView) -> bool {
    match field {
        FuzzFieldView::StringProperty { name, value } => name.len() <= 96 && value.len() <= 192,
        FuzzFieldView::Metric { name, observations, dimensions, .. } => {
            &&& name.len() <= 96
            &&& observations.len() <= 24
            &&& dimensions.len() <= 12
            &&& forall|i: int|
                0 <= i < dimensions.len() ==> bounded_dimension(#[trigger] dimensions[i])
        },
    }
}

/// Whether a set of dimensions is of bounded size.
pub open spec fn bounded_set(set: Seq<Seq<char>>) -> bool {
    set.len() <= 6 && no_longer_than(set, 48)
}

/// Whether an entry is of bounded size.
pub open spec fn bounded_entry(entry: FuzzEntryView) -> bool {
    &&& entry.timestamps.len() <= 4
    &&& entry.fields.len() <= 24
    &&& forall|i: int| 0 <= i < entry.fields.len() ==> bounded_field(#[trigger] entry.fields[i])
    &&& entry.entry_dimensions matches Some(sets) ==> {
        &&& sets.len() <= 6
        &&& forall|i: int| 0 <= i < sets.len() ==> bounded_set(#[trigger] sets[i])
    }
}

/// Whether the settings of a formatter are of bounded size, with at least one set of dimensions.
pub open spec fn bounded_config(config: FuzzEmfConfigView) -> bool {
    &&& config.namespace.len() <= 48
    &&& config.extra_namespace matches Some(s) ==> s.len() <= 48
    &&& config.log_group_name matches Some(s) ==> s.len() <= 64
    &&& 1 <= config.default_dimensions.len() <= 4
    &&& forall|i: int|
        0 <= i < config.default_dimensions.len() ==> (
        #[trigger] config.default_dimensions[i]).len() <= 4 && no_longer_than(
            config.default_dimensions[i],
            32,
        )
}

/// Of `n` things in a row there are `n`. If each of them has a property, then all have.
proof fn many_of_a_kind<T>(
    make: spec_fn(Seq<u8>) -> (T, Seq<u8>),
    n: nat,
    bytes: Seq<u8>,
    property: spec_fn(T) -> bool,
)
    requires
        forall|b: Seq<u8>| property((#[trigger] make(b)).0),
    ensures
        generate::make_many(make, n, bytes).0.len() == n,
        forall|i: int| 0 <= i < n ==> property(#[trigger] generate::make_many(make, n, bytes).0[i]),
    decreases n,
{
    if n > 0 {
        many_of_a_kind(make, (n - 1) as nat, bytes, property);
    }
}

/// A string has at most as many characters as allowed.
proof fn bounded_string(bytes: Seq<u8>, max_len: nat)
    ensures
        generate::make_string(bytes, max_len).0.len() <= max_len,
{
    let len = source::byte_at(bytes, 0) as nat;
    many_of_a_kind(
        generate::char_maker(),
        if len <= max_len {
            len
        } else {
            max_len
        },
        source::after(bytes, 1),
        |c: char| true,
    );
}

/// Strings in a row have at most as many characters as allowed.
proof fn bounded_strings(bytes: Seq<u8>, n: nat, max_len: nat)
    ensures
        generate::make_many(generate::string_maker(max_len), n, bytes).0.len() == n,
        no_longer_than(generate::make_many(generate::string_maker(max_len), n, bytes).0, max_len),
{
    let make = generate::string_maker(max_len);
    assert forall|b: Seq<u8>| (#[trigger] make(b)).0.len() <= max_len by {
        bounded_string(b, max_len);
    }
    many_of_a_kind(make, n, bytes, |s: Seq<char>| s.len() <= max_len);
}

/// A pool of names stays bounded, in its number of names and in their length, and so is every name
/// that is drawn with its help.
pub proof fn names_are_bounded(bytes: Seq<u8>, pool: Seq<Seq<char>>)
    requires
        pool.len() <= NAME_POOL_SIZE,
        no_longer_than(pool, 96),
    ensures
        ({
            let made = generate::make_name(bytes, pool);
            &&& made.0.len() <= 96
            &&& made.1.len() <= NAME_POOL_SIZE
            &&& no_longer_than(made.1, 96)
            &&& pool.len() <= made.1.len() <= pool.len() + 1
        }),
{
    let reuse = if pool.len() == 0 {
        (false, bytes)
    } else {
        generate::make_chance(bytes, generate::REUSE_EXISTING_NAME_PERCENT)
    };
    if reuse.0 {
        source::in_range_is_bounded(reuse.1, (pool.len() - 1) as nat);
        let at = source::in_range(reuse.1, (pool.len() - 1) as nat);
        assert(pool[at.0 as int].len() <= 96);
    } else {
        bounded_string(reuse.1, 96);
    }
}

/// Every field that is generated is of bounded size.
proof fn bounded_made_field(bytes: Seq<u8>, pool: Seq<Seq<char>>)
    requires
        pool.len() <= NAME_POOL_SIZE,
        no_longer_than(pool, 96),
    ensures
        bounded_field(generate::make_field(bytes, pool).0),
        generate::make_field(bytes, pool).1.len() <= NAME_POOL_SIZE,
        no_longer_than(generate::make_field(bytes, pool).1, 96),
{
    let rest = source::after(bytes, 1);
    names_are_bounded(rest, pool);
    let name = generate::make_name(rest, pool);
    if source::byte_at(bytes, 0) % 2 == 1 {
        bounded_string(name.2, 192);
    } else {
        let count = generate::observation_count(source::byte_at(name.2, 0));
        let start = source::after(name.2, 1);
        many_of_a_kind(generate::observation_maker(), count, start, |o| true);
        let observations = generate::make_many(generate::observation_maker(), count, start);
        let make = generate::dimension_maker();
        assert forall|b: Seq<u8>| bounded_dimension((#[trigger] make(b)).0) by {
            bounded_string(b, 48);
            bounded_string(generate::make_string(b, 48).1, 64);
        }
        many_of_a_kind(
            make,
            generate::dimension_count(source::byte_at(observations.1, 0)),
            source::after(observations.1, 1),
            |d| bounded_dimension(d),
        );
    }
}

/// Every list of fields that is generated is of bounded size.
proof fn bounded_made_fields(n: nat, bytes: Seq<u8>)
    ensures
        generate::make_fields(n, bytes).0.len() == n,
        forall|i: int|
            0 <= i < n ==> bounded_field(#[trigger] generate::make_fields(n, bytes).0[i]),
        generate::make_fields(n, bytes).1.len() <= NAME_POOL_SIZE,
        no_longer_than(generate::make_fields(n, bytes).1, 96),
    decreases n,
{
    if n > 0 {
        bounded_made_fields((n - 1) as nat, bytes);
        let before = generate::make_fields((n - 1) as nat, bytes);
        bounded_made_field(before.2, before.1);
    }
}

/// Every entry that is generated is of bounded size, whatever the data.
pub proof fn entries_are_bounded(bytes: Seq<u8>)
    ensures
        bounded_entry(generate::make_entry(bytes).0),
{
    let count = generate::timestamp_count(source::byte_at(bytes, 0));
    let start = source::after(bytes, 1);
    many_of_a_kind(generate::timestamp_maker(), count, start, |t| true);
    let timestamps = generate::make_many(generate::timestamp_maker(), count, start);
    let at = source::after(timestamps.1, 1);
    let omit = generate::make_chance(at, generate::OMIT_ENTRY_DIMENSIONS_PERCENT);
    let make = generate::dimension_set_maker();
    assert forall|b: Seq<u8>| bounded_set((#[trigger] make(b)).0) by {
        bounded_strings(
            source::after(b, 1),
            generate::set_count(source::byte_at(b, 0)),
            48,
        );
    }
    many_of_a_kind(
        make,
        generate::set_count(source::byte_at(omit.1, 0)),
        source::after(omit.1, 1),
        |s| bounded_set(s),
    );
    let dimensions = generate::make_optional_dimensions(at);
    bounded_made_fields(
        generate::field_count(source::byte_at(dimensions.1, 0)),
        source::after(dimensions.1, 1),
    );
}

/// The settings that are generated for a formatter are of bounded size and have at least one set
/// of dimensions, whatever the data.
pub proof fn configs_are_bounded(bytes: Seq<u8>)
    ensures
        bounded_config(emf::make_config(bytes).0),
{
    bounded_string(bytes, 48);
    let namespace = generate::make_string(bytes, 48);
    bounded_string(source::after(namespace.1, 1), 48);
    let extra = emf::make_optional_string(namespace.1, 48);
    bounded_string(source::after(extra.1, 1), 64);
    let log_group = emf::make_optional_string(extra.1, 64);
    let make = emf::default_set_maker();
    let small = |s: Seq<Seq<char>>| s.len() <= 4 && no_longer_than(s, 32);
    assert forall|b: Seq<u8>| small((#[trigger] make(b)).0) by {
        bounded_strings(source::after(b, 1), (source::byte_at(b, 0) % 5) as nat, 32);
    }
    many_of_a_kind(
        make,
        (source::byte_at(log_group.1, 0) % 4) as nat + 1,
        source::after(log_group.1, 1),
        small,
    );
}

/// What is left of what is left is what is left.
proof fn rest_of_rest(a: Seq<u8>, b: Seq<u8>, c: Seq<u8>)
    requires
        is_rest(a, b),
        is_rest(b, c),
    ensures
        is_rest(a, c),
{
    assert(a =~= c.skip(c.len() - a.len()));
}

/// Reading some bytes leaves the others.
proof fn after_is_rest(bytes: Seq<u8>, n: int)
    requires
        n >= 0,
    ensures
        is_rest(source::after(bytes, n), bytes),
{
    assert(source::after(bytes, n) =~= bytes.skip(
        bytes.len() - source::after(bytes, n).len(),
    ));
}

/// Reading some bytes of what is left leaves the others.
proof fn after_rest(rest: Seq<u8>, bytes: Seq<u8>, n: int)
    requires
        is_rest(rest, bytes),
        n >= 0,
    ensures
        is_rest(source::after(rest, n), bytes),
{
    after_is_rest(rest, n);
    rest_of_rest(source::after(rest, n), rest, bytes);
}

/// Drawing from a range leaves what it did not read.
proof fn range_rest(rest: Seq<u8>, bytes: Seq<u8>, last: nat)
    requires
        is_rest(rest, bytes),
    ensures
        is_rest(source::in_range(rest, last).1, bytes),
{
    let n = source::range_width(rest, last) as int;
    assert(source::in_range(rest, last).1 =~= source::after(rest, n));
    after_rest(rest, bytes, n);
}

/// A generator that only reads from the front, used several times, only reads from the front.
proof fn many_rest<T>(
    make: spec_fn(Seq<u8>) -> (T, Seq<u8>),
    n: nat,
    rest: Seq<u8>,
    bytes: Seq<u8>,
)
    requires
        is_rest(rest, bytes),
        forall|b: Seq<u8>| is_rest((#[trigger] make(b)).1, b),
    ensures
        is_rest(generate::make_many(make, n, rest).1, bytes),
    decreases n,
{
    if n > 0 {
        many_rest(make, (n - 1) as nat, rest, bytes);
        let before = generate::make_many(make, (n - 1) as nat, rest).1;
        assert(is_rest(make(before).1, before));
        rest_of_rest(make(before).1, before, bytes);
    }
}

/// A string only reads from the front.
proof fn string_rest(rest: Seq<u8>, bytes: Seq<u8>, max_len: nat)
    requires
        is_rest(rest, bytes),
    ensures
        is_rest(generate::make_string(rest, max_len).1, bytes),
{
    let make = generate::char_maker();
    assert forall|b: Seq<u8>| is_rest((#[trigger] make(b)).1, b) by {
        let r = source::after(b, 1);
        after_is_rest(b, 1);
        after_rest(r, b, 1);
        after_rest(r, b, 4);
        range_rest(r, b, 0x1f);
    }
    let len = source::byte_at(rest, 0) as nat;
    after_rest(rest, bytes, 1);
    many_rest(
        make,
        if len <= max_len {
            len
        } else {
            max_len
        },
        source::after(rest, 1),
        bytes,
    );
}

/// Several strings only read from the front.
proof fn strings_rest(rest: Seq<u8>, bytes: Seq<u8>, n: nat, max_len: nat)
    requires
        is_rest(rest, bytes),
    ensures
        is_rest(generate::make_many(generate::string_maker(max_len), n, rest).1, bytes),
{
    let make = generate::string_maker(max_len);
    assert forall|b: Seq<u8>| is_rest((#[trigger] make(b)).1, b) by {
        after_is_rest(b, 0);
        assert(b.skip(0) =~= b);
        string_rest(b, b, max_len);
    }
    many_rest(make, n, rest, bytes);
}

/// An observation only reads from the front.
proof fn observation_rest(bytes: Seq<u8>)
    ensures
        is_rest(generate::make_observation(bytes).1, bytes),
{
    after_is_rest(bytes, 1);
    let rest = source::after(bytes, 1);
    after_rest(rest, bytes, 8);
    after_rest(rest, bytes, 1);
    after_rest(source::after(rest, 1), bytes, 8);
    let total = generate::make_f64(rest);
    assert(is_rest(total.1, bytes));
    after_rest(total.1, bytes, 8);
    after_rest(total.1, bytes, 1);
    after_rest(source::after(total.1, 1), bytes, 8);
}

/// A name only reads from the front.
proof fn name_rest(rest: Seq<u8>, bytes: Seq<u8>, pool: Seq<Seq<char>>)
    requires
        is_rest(rest, bytes),
    ensures
        is_rest(generate::make_name(rest, pool).2, bytes),
{
    let reuse = if pool.len() == 0 {
        (false, rest)
    } else {
        generate::make_chance(rest, generate::REUSE_EXISTING_NAME_PERCENT)
    };
    range_rest(rest, bytes, 99);
    if reuse.0 {
        range_rest(reuse.1, bytes, (pool.len() - 1) as nat);
    } else {
        string_rest(reuse.1, bytes, 96);
        let name = generate::make_string(reuse.1, 96);
        range_rest(name.1, bytes, 99);
        if pool.len() > 0 {
            let replace = generate::make_chance(
                name.1,
                generate::REPLACE_EXISTING_POOL_NAME_PERCENT,
            );
            range_rest(replace.1, bytes, (pool.len() - 1) as nat);
        }
    }
}

/// A field only reads from the front.
proof fn field_rest(rest: Seq<u8>, bytes: Seq<u8>, pool: Seq<Seq<char>>)
    requires
        is_rest(rest, bytes),
    ensures
        is_rest(generate::make_field(rest, pool).2, bytes),
{
    after_rest(rest, bytes, 1);
    name_rest(source::after(rest, 1), bytes, pool);
    let name = generate::make_name(source::after(rest, 1), pool);
    if source::byte_at(rest, 0) % 2 == 1 {
        string_rest(name.2, bytes, 192);
    } else {
        after_rest(name.2, bytes, 1);
        let start = source::after(name.2, 1);
        let count = generate::observation_count(source::byte_at(name.2, 0));
        let make = generate::observation_maker();
        assert forall|b: Seq<u8>| is_rest((#[trigger] make(b)).1, b) by {
            observation_rest(b);
        }
        many_rest(make, count, start, bytes);
        let observations = generate::make_many(make, count, start);
        after_rest(observations.1, bytes, 1);
        let make = generate::dimension_maker();
        assert forall|b: Seq<u8>| is_rest((#[trigger] make(b)).1, b) by {
            assert(b.skip(0) =~= b);
            string_rest(b, b, 48);
            string_rest(generate::make_string(b, 48).1, b, 64);
        }
        let start = source::after(observations.1, 1);
        let count = generate::dimension_count(source::byte_at(observations.1, 0));
        many_rest(make, count, start, bytes);
        let dimensions = generate::make_many(make, count, start);
        after_rest(dimensions.1, bytes, 1);
        after_rest(source::after(dimensions.1, 1), bytes, 1);
    }
}

/// Fields only read from the front.
proof fn fields_rest(n: nat, rest: Seq<u8>, bytes: Seq<u8>)
    requires
        is_rest(rest, bytes),
    ensures
        is_rest(generate::make_fields(n, rest).2, bytes),
    decreases n,
{
    if n > 0 {
        fields_rest((n - 1) as nat, rest, bytes);
        let before = generate::make_fields((n - 1) as nat, rest);
        field_rest(before.2, bytes, before.1);
    }
}

/// An entry is generated from the front of the data alone: what is left over is the end of the
/// data, so that several entries can be generated one after the other.
pub proof fn entries_leave_the_rest(bytes: Seq<u8>)
    ensures
        is_rest(generate::make_entry(bytes).1, bytes),
{
    after_is_rest(bytes, 1);
    let start = source::after(bytes, 1);
    let make = generate::timestamp_maker();
    assert forall|b: Seq<u8>| is_rest((#[trigger] make(b)).1, b) by {
        after_is_rest(b, 1);
        after_rest(source::after(b, 1), b, 8);
    }
    let count = generate::timestamp_count(source::byte_at(bytes, 0));
    many_rest(make, count, start, bytes);
    let timestamps = generate::make_many(make, count, start);
    after_rest(timestamps.1, bytes, 1);
    let at = source::after(timestamps.1, 1);
    range_rest(at, bytes, 99);
    let omit = generate::make_chance(at, generate::OMIT_ENTRY_DIMENSIONS_PERCENT);
    after_rest(omit.1, bytes, 1);
    let make = generate::dimension_set_maker();
    assert forall|b: Seq<u8>| is_rest((#[trigger] make(b)).1, b) by {
        after_is_rest(b, 1);
        strings_rest(
            source::after(b, 1),
            b,
            generate::set_count(source::byte_at(b, 0)),
            48,
        );
    }
    many_rest(
        make,
        generate::set_count(source::byte_at(omit.1, 0)),
        source::after(omit.1, 1),
        bytes,
    );
    let dimensions = generate::make_optional_dimensions(at);
    after_rest(dimensions.1, bytes, 1);
    fields_rest(
        generate::field_count(source::byte_at(dimensions.1, 0)),
        source::after(dimensions.1, 1),
        bytes,
    );
}

/// The settings of a formatter are generated from the front of the data alone.
pub proof fn configs_leave_the_rest(bytes: Seq<u8>)
    ensures
        is_rest(emf::make_config(bytes).1, bytes),
{
    assert(bytes.skip(0) =~= bytes);
    string_rest(bytes, bytes, 48);
    let namespace = generate::make_string(bytes, 48);
    after_rest(namespace.1, bytes, 1);
    string_rest(source::after(namespace.1, 1), bytes, 48);
    let extra = emf::make_optional_string(namespace.1, 48);
    after_rest(extra.1, bytes, 1);
    string_rest(source::after(extra.1, 1), bytes, 64);
    let log_group = emf::make_optional_string(extra.1, 64);
    after_rest(log_group.1, bytes, 1);
    let make = emf::default_set_maker();
    assert forall|b: Seq<u8>| is_rest((#[trigger] make(b)).1, b) by {
        after_is_rest(b, 1);
        strings_rest(source::after(b, 1), b, (source::byte_at(b, 0) % 5) as nat, 32);
    }
    let count = (source::byte_at(log_group.1, 0) % 4) as nat + 1;
    many_rest(make, count, source::after(log_group.1, 1), bytes);
    let sets = generate::make_many(make, count, source::after(log_group.1, 1));
    after_rest(sets.1, bytes, 1);
}

/// Data that has run out gives an entry that writes nothing.
pub proof fn no_data_gives_an_empty_entry()
    ensures
        generate::make_entry(Seq::empty()) == (
            FuzzEntryView {
                timestamps: Seq::empty(),
                allow_split_entries: false,
                entry_dimensions: None,
                fields: Seq::empty(),
            },
            Seq::<u8>::empty(),
        ),
{
    let none = Seq::<u8>::empty();
    source::small_range(none, 99);
    assert(generate::make_chance(none, generate::OMIT_ENTRY_DIMENSIONS_PERCENT) == (true, none));
}

/// The mode matters to metrics alone: with different modes, an entry makes the same calls for its
/// configuration, its timestamps and its string properties.
pub proof fn modes_matter_to_metrics_alone(a: EmfFuzzEntry, b: EmfFuzzEntry, at: int)
    requires
        a.inner == b.inner,
        0 <= at < a.content().len(),
        a.content()[at] != b.content()[at],
    ensures
        a.content().len() == b.content().len(),
        ({
            let head = writing::head_calls(a.inner).len();
            &&& head <= at
            &&& a.inner.fields@[at - head]@ is Metric
        }),
{
    let head = writing::head_calls(a.inner);
    let fields = types::field_views(a.inner.fields@);
    if head.len() <= at {
        let i = at - head.len();
        assert(fields[i] == a.inner.fields@[i]@);
        assert(a.content()[at] == writing::field_call(
            fields[i],
            emf::mode_at(a.flag_modes@, i),
        ));
        assert(b.content()[at] == writing::field_call(
            fields[i],
            emf::mode_at(b.flag_modes@, i),
        ));
    }
}

/// An entry whose metrics are given the modes that they have anyway writes what it wrote.
pub proof fn own_modes_change_nothing(entry: EmfFuzzEntry)
    requires
        forall|i: int|
            0 <= i < entry.inner.fields@.len() ==> (
            (#[trigger] entry.inner.fields@[i]) matches FuzzField::Metric { flag_mode, .. }
                ==> emf::mode_at(entry.flag_modes@, i) == flag_mode),
    ensures
        entry.content() == entry.inner.content(),
{
    let fields = types::field_views(entry.inner.fields@);
    assert forall|i: int| 0 <= i < fields.len() implies emf::indexed_mode_calls(
        fields,
        entry.flag_modes@,
    )[i] == writing::own_mode_calls(fields)[i] by {
        assert(fields[i] == entry.inner.fields@[i]@);
    }
    assert(emf::indexed_mode_calls(fields, entry.flag_modes@) =~= writing::own_mode_calls(fields));
}

} // verus!
