//! What is generated for a type of metrics: which fields it writes, and what its sample group
//! consists of.
use crate::entry_impl::enum_impl::{
    self, collect_tuple_sample_group, generate_enum_entry_impl, generate_sample_group_arms,
    generate_sample_group_impl, generate_sample_group_iter_enum, generate_tuple_writes,
    generate_write_arms, struct_pattern, tuple_pattern, ArmWrites, EnumEntryImpl, FieldPattern,
    IterEnum, MetricsVariant, Pattern, SampleGroup, SampleGroupArm, Tag, TupleWrite, VariantData,
    WriteArm,
};
use crate::entry_impl::struct_impl::{
    generate_sample_group_statements, generate_struct_entry_impl, generate_write_statements,
    StructEntryImpl, StructWrite,
};
use crate::entry_impl::{
    self, binding_name, iter_variant_name, make_binary_tree_chain, Chain, MetricsField,
    MetricsFieldKind, MetricsFields, TupleData,
};
use vstd::arithmetic::power2::pow2;
use vstd::prelude::*;

verus! {

/// Chained expressions are iterated over from left to right.
pub proof fn chains_go_from_left_to_right<X>(x: X, a: Chain<X>, b: Chain<X>)
    ensures
        Chain::<X>::Empty.leaves().len() == 0,
        Chain::One(x).leaves() =~= seq![x],
        Chain::Both(Box::new(a), Box::new(b)).leaves() == a.leaves() + b.leaves(),
{
}

/// How deep a chain is nested.
pub open spec fn depth<X>(chain: Chain<X>) -> nat
    decreases chain,
{
    match chain {
        Chain::Both(a, b) => 1 + if depth(*a) >= depth(*b) {
            depth(*a)
        } else {
            depth(*b)
        },
        _ => 0,
    }
}

/// Chaining keeps every expression, in its order, and nests as little as it can: up to twice as
/// many expressions nest one deeper.
pub proof fn chaining_keeps_order_and_stays_shallow<X>(items: Vec<X>, r: Chain<X>, k: nat)
    requires
        call_ensures(make_binary_tree_chain::<X>, (items,), r),
    ensures
        r.leaves() == items@,
        items@.len() <= pow2(k) ==> depth(r) <= k,
{
    if items@.len() <= pow2(k) {
        balanced_is_shallow(r, k);
    }
}

/// A balanced chain nests as little as it can.
proof fn balanced_is_shallow<X>(chain: Chain<X>, k: nat)
    requires
        chain.balanced(),
        chain.leaves().len() <= pow2(k),
    ensures
        depth(chain) <= k,
    decreases k,
{
    if let Chain::Both(a, b) = chain {
        assert(chain.leaves().len() == a.leaves().len() + b.leaves().len());
        if k == 0 {
            vstd::arithmetic::power2::lemma2_to64();
        } else {
            vstd::arithmetic::power2::lemma_pow2_unfold(k);
            balanced_is_shallow(*a, (k - 1) as nat);
            balanced_is_shallow(*b, (k - 1) as nat);
        }
    }
}

/// Which fields are in the sample group.
pub open spec fn in_sample_group<T>() -> spec_fn(MetricsField<T>) -> bool {
    |field: MetricsField<T>| field.sample_group is Some
}

/// What is chosen from a list comes in the order of the list, and nothing that is to be chosen is
/// left out: it comes behind as many as were to be chosen before it.
proof fn chosen_in_order<A>(list: Seq<A>, choice: spec_fn(A) -> bool, at: int)
    requires
        0 <= at < list.len(),
        choice(list[at]),
    ensures
        list.take(at).filter(choice).len() < list.filter(choice).len(),
        list.filter(choice)[list.take(at).filter(choice).len() as int] == list[at],
    decreases list.len(),
{
    reveal(Seq::filter);
    let shorter = list.drop_last();
    if at == list.len() - 1 {
        assert(list.take(at) =~= shorter);
    } else {
        assert(shorter[at] == list[at]);
        assert(shorter.take(at) =~= list.take(at));
        chosen_in_order(shorter, choice, at);
    }
}

/// The expressions of the fields in the sample group are those of the fields that have one, in the
/// order of the fields.
proof fn groups_are_chosen<T>(fields: Seq<MetricsField<T>>, n: nat)
    requires
        n <= fields.len(),
    ensures
        ({
            let chosen = fields.take(n as int).filter(in_sample_group());
            let groups = entry_impl::field_sample_groups(fields, n);
            let used = enum_impl::used_fields(fields, n);
            &&& groups.len() == chosen.len()
            &&& used.len() == chosen.len()
            &&& forall|i: int|
                0 <= i < chosen.len() ==> #[trigger] groups[i] == chosen[i].sample_group->0.iter
            &&& forall|i: int|
                0 <= i < chosen.len() ==> #[trigger] used[i] == chosen[i].sample_group->0.field
        }),
    decreases n,
{
    reveal(Seq::filter);
    if n > 0 {
        groups_are_chosen(fields, (n - 1) as nat);
        assert(fields.take(n as int).drop_last() =~= fields.take(n - 1));
        assert(fields.take(n as int).last() == fields[n - 1]);
    }
}

/// Every field with a sample group contributes its expression, and the name that the expression
/// needs, exactly once and in the order of the fields: there are as many as there are such fields,
/// and that of each comes behind those of the fields before it.
pub proof fn every_field_contributes_once<T>(fields: Seq<MetricsField<T>>, at: int)
    ensures
        ({
            let groups = entry_impl::field_sample_groups(fields, fields.len());
            let used = enum_impl::used_fields(fields, fields.len());
            let before = fields.take(at).filter(in_sample_group()).len() as int;
            &&& groups.len() == fields.filter(in_sample_group()).len()
            &&& used.len() == fields.filter(in_sample_group()).len()
            &&& 0 <= at < fields.len() && fields[at].sample_group is Some ==> before < groups.len()
                && groups[before] == fields[at].sample_group->0.iter && used[before]
                == fields[at].sample_group->0.field
        }),
{
    groups_are_chosen(fields, fields.len());
    assert(fields.take(fields.len() as int) =~= fields);
    if 0 <= at < fields.len() && fields[at].sample_group is Some {
        chosen_in_order(fields, in_sample_group(), at);
    }
}

/// The sample group that is generated for a struct chains the expressions of all fields that have
/// one, each once, earlier fields first.
pub proof fn structs_sample_by_every_field<T>(
    fields: Vec<MetricsField<T>>,
    r: Chain<&T>,
    at: int,
)
    requires
        call_ensures(generate_sample_group_statements::<T>, (&fields,), r),
    ensures
        r.leaves().len() == fields@.filter(in_sample_group()).len(),
        0 <= at < fields@.len() && fields@[at].sample_group is Some ==> {
            let before = fields@.take(at).filter(in_sample_group()).len() as int;
            before < r.leaves().len() && *r.leaves()[before] == fields@[at].sample_group->0.iter
        },
{
    every_field_contributes_once(fields@, at);
    let groups = entry_impl::field_sample_groups(fields@, fields@.len());
    assert(entry_impl::referents(r.leaves()) == groups);
    assert(entry_impl::referents(r.leaves()).len() == r.leaves().len());
    if 0 <= at < fields@.len() && fields@[at].sample_group is Some {
        let before = fields@.take(at).filter(in_sample_group()).len() as int;
        assert(entry_impl::referents(r.leaves())[before] == *r.leaves()[before]);
    }
}

/// A struct writes each field with configuration first, then does each statement for its fields,
/// all in their order and nothing else.
pub proof fn structs_write_configuration_first<T>(
    fields: MetricsFields<T>,
    configuration: Vec<T>,
    r: Vec<StructWrite<T>>,
    at: int,
)
    requires
        call_ensures(generate_write_statements::<T>, (&fields, &configuration), r),
    ensures
        r@.len() == configuration@.len() + fields.writes@.len(),
        0 <= at < configuration@.len() ==> (r@[at] matches StructWrite::Configuration(field)
            && *field == configuration@[at]),
        0 <= at < fields.writes@.len() ==> (r@[configuration@.len() + at]
            matches StructWrite::Fields(write) && *write == fields.writes@[at]),
{
}

/// All that is generated for a struct is what its parts are.
pub proof fn structs_are_generated_in_full<T>(
    fields: MetricsFields<T>,
    configuration: Vec<T>,
    r: StructEntryImpl<T>,
    at: int,
)
    requires
        call_ensures(generate_struct_entry_impl::<T>, (&fields, &configuration), r),
    ensures
        r.writes@.len() == configuration@.len() + fields.writes@.len(),
        0 <= at < configuration@.len() ==> (r.writes@[at] matches StructWrite::Configuration(field)
            && *field == configuration@[at]),
        0 <= at < fields.writes@.len() ==> (r.writes@[configuration@.len() + at]
            matches StructWrite::Fields(write) && *write == fields.writes@[at]),
        r.sample_groups.leaves().len() == fields.fields@.filter(in_sample_group()).len(),
        0 <= at < fields.fields@.len() && fields.fields@[at].sample_group is Some ==> {
            let before = fields.fields@.take(at).filter(in_sample_group()).len() as int;
            before < r.sample_groups.leaves().len() && *r.sample_groups.leaves()[before]
                == fields.fields@[at].sample_group->0.iter
        },
{
    every_field_contributes_once(fields.fields@, at);
    let leaves = r.sample_groups.leaves();
    assert(entry_impl::referents(leaves).len() == leaves.len());
    if 0 <= at < fields.fields@.len() && fields.fields@[at].sample_group is Some {
        let before = fields.fields@.take(at).filter(in_sample_group()).len() as int;
        assert(entry_impl::referents(leaves)[before] == *leaves[before]);
    }
}

/// Whether a statement writes the field at `index` of a tuple variant as it is to be written: one
/// that is flattened in its style, with the prefix if it has one; one that is an entry as such; and
/// one that is left out not at all.
pub open spec fn writes_as_told<T, S>(
    kind: MetricsFieldKind<T, S>,
    write: TupleWrite<T, S>,
    index: int,
) -> bool {
    match (kind, write) {
        (
            MetricsFieldKind::Flatten { span, ns, prefix },
            TupleWrite::Inflected { span: at, extra, ns: style, binding },
        ) => {
            &&& at == span
            &&& binding == index
            &&& match prefix {
                None => extra is None && *style == ns,
                Some(p) => extra matches Some(e) && *e == p.extra && *style == p.ns,
            }
        },
        (MetricsFieldKind::FlattenEntry(span), TupleWrite::Entry { span: at, binding }) => at
            == span && binding == index,
        (MetricsFieldKind::Ignore(_), TupleWrite::Nothing) => true,
        _ => false,
    }
}

/// Everything is generated for every enum whose tuple variants hold neither timestamps nor plain
/// fields, and whose tag, if there is one, is known in each variant.
pub proof fn nothing_more_is_asked_of_an_enum<T, S>(
    variants: Seq<MetricsVariant<T, S>>,
    tag: Option<Tag<T>>,
)
    requires
        tag is Some ==> tag->0.texts@.len() == variants.len(),
        forall|i: int, k: int|
            0 <= i < variants.len() && variants[i].data is Some && variants[i].data->0 is Tuple
                && 0 <= k < variants[i].data->0->Tuple_0@.len() ==> {
                let kind = (#[trigger] variants[i].data->0->Tuple_0@[k]).kind;
                kind is Flatten || kind is FlattenEntry || kind is Ignore
            },
    ensures
        enum_impl::consistent(variants, tag),
{
    assert forall|i: int| 0 <= i < variants.len() implies ((#[trigger] variants[i]).data
        matches Some(VariantData::Tuple(fields)) ==> enum_impl::all_allowed(fields@)) by {
        if variants[i].data is Some && variants[i].data->0 is Tuple {
            let fields = variants[i].data->0->Tuple_0@;
            assert forall|k: int| 0 <= k < fields.len() implies enum_impl::allowed_in_tuple(
                #[trigger] fields[k],
            ) by {
                assert(fields[k] == variants[i].data->0->Tuple_0@[k]);
            }
        }
    }
}

/// Each field of a tuple variant is bound to its own number, and written as it is to be written,
/// once and in the order of the fields.
pub proof fn tuple_fields_are_written_as_told<T, S: Copy>(
    fields: Vec<TupleData<T, S>>,
    r: (Vec<usize>, Vec<TupleWrite<T, S>>),
    at: int,
)
    requires
        enum_impl::all_allowed(fields@),
        call_ensures(generate_tuple_writes::<T, S>, (&fields,), r),
    ensures
        r.0@.len() == fields@.len(),
        r.1@.len() == fields@.len(),
        0 <= at < fields@.len() ==> r.0@[at] == at && writes_as_told(
            fields@[at].kind,
            r.1@[at],
            at,
        ),
{
    vstd::std_specs::vec::axiom_spec_len(&fields);
    if 0 <= at < fields@.len() {
        assert(enum_impl::allowed_in_tuple(fields@[at]));
    }
}

/// Whether a pattern is for a variant of a type.
pub open spec fn is_for<T, S>(
    pattern: Pattern<T>,
    entry_name: T,
    variant: MetricsVariant<T, S>,
) -> bool {
    match (variant.data, pattern) {
        (None, Pattern::Unit { entry_name: e, variant: v }) => *e == entry_name && *v
            == variant.ident,
        (
            Some(VariantData::Tuple(fields)),
            Pattern::Tuple { entry_name: e, variant: v, bindings },
        ) => {
            &&& *e == entry_name
            &&& *v == variant.ident
            &&& bindings@.len() == fields@.len()
            &&& forall|k: int| 0 <= k < fields@.len() ==> #[trigger] bindings@[k] == k
        },
        (Some(VariantData::Struct(_)), Pattern::Struct { entry_name: e, variant: v, .. }) => *e
            == entry_name && *v == variant.ident,
        _ => false,
    }
}

/// Whether an arm writes a variant: it is for that variant, binds all of its fields, begins with
/// the tag if there is one, and writes every field as it is to be written.
pub open spec fn writes_variant<T, S>(
    arm: WriteArm<T, S>,
    entry_name: T,
    variant: MetricsVariant<T, S>,
    tag: Option<Tag<T>>,
    index: int,
) -> bool {
    &&& arm.span == variant.span
    &&& is_for(arm.pattern, entry_name, variant)
    &&& match tag {
        Some(t) => arm.tag matches Some(text) && *text == t.texts@[index],
        None => arm.tag is None,
    }
    &&& match (variant.data, arm.writes) {
        (None, ArmWrites::Unit) => true,
        (Some(VariantData::Tuple(fields)), ArmWrites::Tuple(writes)) => {
            &&& writes@.len() == fields@.len()
            &&& forall|k: int|
                0 <= k < fields@.len() ==> writes_as_told(
                    (#[trigger] fields@[k]).kind,
                    writes@[k],
                    k,
                )
        },
        (Some(VariantData::Struct(fields)), ArmWrites::Struct(writes)) => {
            &&& writes@ == fields.writes@
            &&& arm.pattern matches Pattern::Struct {
                fields: FieldPattern::Exhaustive(names),
                ..
            } && {
                &&& names@.len() == fields.fields@.len()
                &&& forall|k: int|
                    0 <= k < fields.fields@.len() ==> *(#[trigger] names@[k])
                        == fields.fields@[k].ident
            }
        },
        _ => false,
    }
}

/// There is one arm that writes each variant, in the order of the variants.
pub proof fn every_variant_is_written<T, S: Copy>(
    entry_name: T,
    variants: Vec<MetricsVariant<T, S>>,
    tag: Option<Tag<T>>,
    r: Vec<WriteArm<T, S>>,
    at: int,
)
    requires
        enum_impl::consistent(variants@, tag),
        call_ensures(generate_write_arms::<T, S>, (&entry_name, &variants, &tag), r),
    ensures
        r@.len() == variants@.len(),
        0 <= at < variants@.len() ==> writes_variant(
            r@[at],
            entry_name,
            variants@[at],
            tag,
            at,
        ),
{
    if 0 <= at < variants@.len() {
        arm_writes_variant(r@[at], entry_name, variants@[at], tag, at);
    }
}

/// An arm whose model is that of a variant writes the variant.
proof fn arm_writes_variant<T, S>(
    arm: WriteArm<T, S>,
    entry_name: T,
    variant: MetricsVariant<T, S>,
    tag: Option<Tag<T>>,
    index: int,
)
    requires
        arm@ == enum_impl::write_arm(entry_name, variant, enum_impl::tag_text(tag, index)),
        variant.data matches Some(VariantData::Tuple(fields)) ==> enum_impl::all_allowed(fields@),
    ensures
        writes_variant(arm, entry_name, variant, tag, index),
{
    let view = enum_impl::write_arm(entry_name, variant, enum_impl::tag_text(tag, index));
    assert(arm.pattern@ == view.pattern);
    assert(arm.writes@ == view.writes);
    match variant.data {
        Some(VariantData::Tuple(fields)) => {
            vstd::std_specs::vec::axiom_spec_len(&fields);
            assert forall|k: int| 0 <= k < fields@.len() implies writes_as_told(
                (#[trigger] fields@[k]).kind,
                arm.writes->Tuple_0@[k],
                k,
            ) by {
                assert(enum_impl::allowed_in_tuple(fields@[k]));
            }
        },
        Some(VariantData::Struct(fields)) => {
            let names = arm.pattern->Struct_fields->Exhaustive_0;
            let idents = enum_impl::field_names(fields.fields@);
            assert(entry_impl::referents(names@) == idents);
            assert(entry_impl::referents(names@).len() == names@.len());
            assert forall|k: int| 0 <= k < fields.fields@.len() implies *(#[trigger] names@[k])
                == fields.fields@[k].ident by {
                assert(entry_impl::referents(names@)[k] == idents[k]);
            }
        },
        None => {},
    }
}

/// Patterns bind what they are to bind: all fields, some of them, or none.
pub proof fn patterns_bind_what_they_are_to_bind<T>(
    entry_name: T,
    variant: T,
    fields: Vec<&T>,
    exhaustive: bool,
    bindings: Vec<usize>,
    named: Pattern<T>,
    numbered: Pattern<T>,
    at: int,
)
    requires
        call_ensures(struct_pattern::<T>, (&entry_name, &variant, fields, exhaustive), named),
        call_ensures(tuple_pattern::<T>, (&entry_name, &variant, bindings), numbered),
    ensures
        named matches Pattern::Struct { entry_name: e, variant: v, fields: bound } && {
            &&& *e == entry_name
            &&& *v == variant
            &&& match bound {
                FieldPattern::Exhaustive(names) => exhaustive && names@.len() == fields@.len() && (
                0 <= at < fields@.len() ==> *names@[at] == *fields@[at]),
                FieldPattern::Open(names) => !exhaustive && fields@.len() > 0 && names@.len()
                    == fields@.len() && (0 <= at < fields@.len() ==> *names@[at] == *fields@[at]),
                FieldPattern::Any => !exhaustive && fields@.len() == 0,
            }
        },
        numbered matches Pattern::Tuple { entry_name: e, variant: v, bindings: bound } && *e
            == entry_name && *v == variant && bound@ == bindings@,
{
    let given = entry_impl::referents(fields@);
    assert(given.len() == fields@.len());
    let bound = named->Struct_fields;
    match bound {
        FieldPattern::Exhaustive(names) => {
            assert(entry_impl::referents(names@) == given);
            assert(entry_impl::referents(names@).len() == names@.len());
            if 0 <= at < fields@.len() {
                assert(entry_impl::referents(names@)[at] == given[at]);
            }
        },
        FieldPattern::Open(names) => {
            assert(entry_impl::referents(names@) == given);
            assert(entry_impl::referents(names@).len() == names@.len());
            if 0 <= at < fields@.len() {
                assert(entry_impl::referents(names@)[at] == given[at]);
            }
        },
        FieldPattern::Any => {},
    }
}

/// Whether an expression is what a field of a tuple variant contributes to the sample group: that
/// of a field that is flattened, in its style without the prefix, or that of an entry.
pub open spec fn contributes<T, S>(
    kind: MetricsFieldKind<T, S>,
    group: SampleGroup<T, S>,
    index: int,
) -> bool {
    match (kind, group) {
        (
            MetricsFieldKind::Flatten { span, ns, .. },
            SampleGroup::Inflected { span: at, ns: style, binding },
        ) => at == span && *style == ns && binding == index,
        (MetricsFieldKind::FlattenEntry(span), SampleGroup::Entry { span: at, binding }) => at
            == span && binding == index,
        _ => false,
    }
}

/// Which fields of a tuple variant are in the sample group.
pub open spec fn is_flattened<T, S>() -> spec_fn(TupleData<T, S>) -> bool {
    |field: TupleData<T, S>| field.kind is Flatten || field.kind is FlattenEntry
}

/// A field of a tuple variant contributes to the sample group if and only if it is flattened.
pub proof fn flattened_fields_contribute<T, S: Copy>(
    kind: MetricsFieldKind<T, S>,
    binding: usize,
    r: Option<SampleGroup<T, S>>,
)
    requires
        !(kind is Timestamp) && !(kind is Field),
        call_ensures(collect_tuple_sample_group::<T, S>, (&kind, binding), r),
    ensures
        r is Some <==> kind is Flatten || kind is FlattenEntry,
        r matches Some(group) ==> contributes(kind, group, binding as int),
{
}

/// What the first fields of a tuple variant contribute, in their order.
proof fn tuple_groups_are_chosen<'a, T, S>(fields: Seq<TupleData<T, S>>, n: nat, at: int)
    requires
        n <= fields.len() <= usize::MAX,
    ensures
        ({
            let groups = enum_impl::tuple_sample_groups::<'a, T, S>(fields, n);
            let chosen = fields.take(n as int).filter(is_flattened());
            let before = fields.take(at).filter(is_flattened()).len() as int;
            &&& groups.len() == chosen.len()
            &&& 0 <= at < n && is_flattened()(fields[at]) ==> before < groups.len() && contributes(
                fields[at].kind,
                groups[before],
                at,
            )
        }),
    decreases n,
{
    reveal(Seq::filter);
    if n > 0 {
        tuple_groups_are_chosen::<T, S>(fields, (n - 1) as nat, at);
        assert(fields.take(n as int).drop_last() =~= fields.take(n - 1));
        assert(fields.take(n as int).last() == fields[n - 1]);
    }
}

/// Whether an arm gives the sample group of a variant: it is for that variant, gives the iterator
/// with its number, and chains the tag, if it belongs there, with what every field contributes,
/// each once and in the order of the fields.
pub open spec fn samples_variant<T, S>(
    arm: SampleGroupArm<T, S>,
    entry_name: T,
    variant: MetricsVariant<T, S>,
    tag: Option<Tag<T>>,
    index: int,
) -> bool {
    let leaves = arm.iter.leaves();
    let tagged = tag is Some && tag->0.sample_group;
    let first: int = if tagged {
        1
    } else {
        0
    };
    &&& arm.span == variant.span
    &&& arm.iter_variant == index
    &&& is_for(arm.pattern, entry_name, variant)
    &&& tagged ==> leaves.len() > 0 && (leaves[0] matches SampleGroup::Tag(text) && *text
        == tag->0.texts@[index])
    &&& match variant.data {
        None => leaves.len() == first,
        Some(VariantData::Tuple(fields)) => {
            &&& leaves.len() == first + fields@.filter(is_flattened()).len()
            &&& forall|k: int|
                0 <= k < fields@.len() && is_flattened()(#[trigger] fields@[k]) ==> {
                    let at = first + fields@.take(k).filter(is_flattened()).len();
                    at < leaves.len() && contributes(fields@[k].kind, leaves[at], k)
                }
        },
        Some(VariantData::Struct(fields)) => {
            let n = fields.fields@.filter(in_sample_group()).len();
            &&& leaves.len() == first + n
            &&& match arm.pattern->Struct_fields {
                FieldPattern::Open(names) => n > 0 && names@.len() == n,
                FieldPattern::Any => n == 0,
                FieldPattern::Exhaustive(_) => false,
            }
            &&& forall|k: int|
                0 <= k < fields.fields@.len() && (#[trigger] fields.fields@[k]).sample_group is Some
                    ==> {
                    let at = fields.fields@.take(k).filter(in_sample_group()).len() as int;
                    let group = fields.fields@[k].sample_group->0;
                    &&& at < n
                    &&& leaves[first + at] matches SampleGroup::Field(iter) && *iter == group.iter
                    &&& arm.pattern->Struct_fields matches FieldPattern::Open(names) && *names@[at]
                        == group.field
                }
        },
    }
}

/// There is one arm that gives the sample group of each variant, in the order of the variants.
pub proof fn every_variant_is_sampled<T, S: Copy>(
    entry_name: T,
    variants: Vec<MetricsVariant<T, S>>,
    tag: Option<Tag<T>>,
    r: Vec<SampleGroupArm<T, S>>,
    at: int,
)
    requires
        enum_impl::consistent(variants@, tag),
        call_ensures(generate_sample_group_arms::<T, S>, (&entry_name, &variants, &tag), r),
    ensures
        r@.len() == variants@.len(),
        0 <= at < variants@.len() ==> samples_variant(
            r@[at],
            entry_name,
            variants@[at],
            tag,
            at,
        ),
{
    if 0 <= at < variants@.len() {
        arm_samples_variant(r@[at], entry_name, variants@[at], tag, at);
    }
}

/// An arm of the sample group of a variant gives it.
proof fn arm_samples_variant<T, S>(
    arm: SampleGroupArm<T, S>,
    entry_name: T,
    variant: MetricsVariant<T, S>,
    tag: Option<Tag<T>>,
    index: int,
)
    requires
        enum_impl::is_sample_group_arm(
            arm,
            entry_name,
            variant,
            enum_impl::sample_group_tag(tag, index),
            index,
        ),
    ensures
        samples_variant(arm, entry_name, variant, tag, index),
{
    let leaves = arm.iter.leaves();
    let tagged = tag is Some && tag->0.sample_group;
    let first: int = if tagged {
        1
    } else {
        0
    };
    match variant.data {
        Some(VariantData::Tuple(fields)) => {
            let groups = enum_impl::tuple_sample_groups::<T, S>(fields@, fields@.len());
            assert(fields@.len() <= usize::MAX) by {
                vstd::std_specs::vec::axiom_spec_len(&fields);
            }
            assert(leaves.len() == first + groups.len());
            assert(fields@.take(fields@.len() as int) =~= fields@);
            tuple_groups_are_chosen::<T, S>(fields@, fields@.len(), 0);
            assert forall|k: int|
                0 <= k < fields@.len() && is_flattened()(#[trigger] fields@[k]) implies {
                let at = first + fields@.take(k).filter(is_flattened()).len();
                at < leaves.len() && contributes(fields@[k].kind, leaves[at], k)
            } by {
                tuple_groups_are_chosen::<T, S>(fields@, fields@.len(), k);
                let before = fields@.take(k).filter(is_flattened()).len() as int;
                assert(leaves[first + before] == groups[before]);
            }
        },
        Some(VariantData::Struct(fields)) => {
            let all = fields.fields@;
            let groups = entry_impl::field_sample_groups(all, all.len());
            let used = enum_impl::used_fields(all, all.len());
            let n = all.filter(in_sample_group()).len();
            let wrapped = enum_impl::as_field_groups::<T, S>(groups);
            every_field_contributes_once(all, 0);
            assert(wrapped.len() == groups.len());
            assert(leaves.len() == first + n);
            let bound = arm.pattern->Struct_fields;
            assert(bound@ == enum_impl::field_pattern(used, false));
            if let FieldPattern::Open(names) = bound {
                assert(entry_impl::referents(names@) == used);
                assert(entry_impl::referents(names@).len() == names@.len());
            }
            assert forall|k: int|
                0 <= k < all.len() && (#[trigger] all[k]).sample_group is Some implies {
                let at = all.take(k).filter(in_sample_group()).len() as int;
                let group = all[k].sample_group->0;
                &&& at < n
                &&& leaves[first + at] matches SampleGroup::Field(iter) && *iter == group.iter
                &&& bound matches FieldPattern::Open(names) && *names@[at] == group.field
            } by {
                every_field_contributes_once(all, k);
                let at = all.take(k).filter(in_sample_group()).len() as int;
                assert(leaves[first + at] == wrapped[at]);
                if let FieldPattern::Open(names) = bound {
                    assert(entry_impl::referents(names@)[at] == used[at]);
                }
            }
        },
        None => {},
    }
}

/// The enum of iterators has one variant for each variant of the enum of metrics, by its number,
/// and is named after it.
pub proof fn iterators_are_numbered<T, S: Copy>(
    name: String,
    count: usize,
    r: IterEnum,
    ident: &str,
    entry_name: T,
    variants: Vec<MetricsVariant<T, S>>,
    tag: Option<Tag<T>>,
    both: (IterEnum, Vec<SampleGroupArm<T, S>>),
    at: int,
)
    requires
        call_ensures(generate_sample_group_iter_enum, (name, count), r),
        enum_impl::consistent(variants@, tag),
        call_ensures(
            generate_sample_group_impl::<T, S>,
            (ident, &entry_name, &variants, &tag),
            both,
        ),
    ensures
        r.name@ == name@,
        r.variants@.len() == count,
        0 <= at < count ==> r.variants@[at] == at,
        both.0.name@ == ident@ + "SampleGroupIter"@,
        both.0.variants@.len() == variants@.len(),
        0 <= at < variants@.len() ==> both.0.variants@[at] == at,
        both.1@.len() == variants@.len(),
        0 <= at < variants@.len() ==> samples_variant(
            both.1@[at],
            entry_name,
            variants@[at],
            tag,
            at,
        ),
{
    if 0 <= at < variants@.len() {
        arm_samples_variant(both.1@[at], entry_name, variants@[at], tag, at);
    }
}

/// All that is generated for an enum is what its parts are.
pub proof fn enums_are_generated_in_full<T, S: Copy>(
    ident: &str,
    entry_name: T,
    variants: Vec<MetricsVariant<T, S>>,
    tag: Option<Tag<T>>,
    r: EnumEntryImpl<T, S>,
    at: int,
)
    requires
        enum_impl::consistent(variants@, tag),
        call_ensures(
            generate_enum_entry_impl::<T, S>,
            (ident, &entry_name, &variants, &tag),
            r,
        ),
    ensures
        r.iter_enum.name@ == ident@ + "SampleGroupIter"@,
        r.iter_enum.variants@.len() == variants@.len(),
        r.write_arms@.len() == variants@.len(),
        r.sample_group_arms@.len() == variants@.len(),
        0 <= at < variants@.len() ==> {
            &&& r.iter_enum.variants@[at] == at
            &&& writes_variant(r.write_arms@[at], entry_name, variants@[at], tag, at)
            &&& samples_variant(r.sample_group_arms@[at], entry_name, variants@[at], tag, at)
        },
{
    if 0 <= at < variants@.len() {
        arm_writes_variant(r.write_arms@[at], entry_name, variants@[at], tag, at);
        arm_samples_variant(r.sample_group_arms@[at], entry_name, variants@[at], tag, at);
    }
}

/// The number that digits stand for.
pub open spec fn read_digits(digits: Seq<char>) -> int
    decreases digits.len(),
{
    if digits.len() == 0 {
        0
    } else {
        10 * read_digits(digits.drop_last()) + (digits.last() as int - '0' as int)
    }
}

/// The digits of a number stand for that number. They are digits, and do not begin with a zero
/// unless the number is zero.
pub proof fn digits_stand_for_their_number(n: nat)
    ensures
        read_digits(entry_impl::decimal(n)) == n,
        entry_impl::decimal(n).len() > 0,
        n > 0 ==> entry_impl::decimal(n)[0] != '0',
        forall|i: int|
            0 <= i < entry_impl::decimal(n).len() ==> '0' <= #[trigger] entry_impl::decimal(n)[i]
                <= '9',
    decreases n,
{
    let digits = entry_impl::decimal(n);
    if n < 10 {
        assert(digits.drop_last() =~= Seq::empty());
        assert(read_digits(digits.drop_last()) == 0);
    } else {
        digits_stand_for_their_number(n / 10);
        assert(digits.drop_last() =~= entry_impl::decimal(n / 10));
    }
}

/// The name bound to a field is `v` and its number, the name of an iterator `V` and its number.
pub proof fn names_are_numbered(index: usize, bound: String, variant: String)
    requires
        call_ensures(binding_name, (index,), bound),
        call_ensures(iter_variant_name, (index,), variant),
    ensures
        bound@.len() > 1,
        bound@[0] == 'v',
        read_digits(bound@.skip(1)) == index,
        variant@.len() > 1,
        variant@[0] == 'V',
        variant@.skip(1) == bound@.skip(1),
{
    digits_stand_for_their_number(index as nat);
    assert(bound@.skip(1) =~= entry_impl::decimal(index as nat));
    assert(variant@.skip(1) =~= entry_impl::decimal(index as nat));
}

} // verus!
