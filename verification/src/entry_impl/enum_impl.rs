//! What is generated for an enum.
use crate::entry_impl::{
    self, make_binary_tree_chain, Chain, MetricsField, MetricsFieldKind, MetricsFields, PrefixedStyle,
    TupleData,
};
use vstd::prelude::*;

verus! {

/// A variant of the enum.
pub struct MetricsVariant<T, S> {
    /// Its name.
    pub ident: T,
    /// Where it is declared.
    pub span: S,
    /// Its fields. A unit variant has none.
    pub data: Option<VariantData<T, S>>,
}

/// The fields of a variant.
pub enum VariantData<T, S> {
    Tuple(Vec<TupleData<T, S>>),
    Struct(MetricsFields<T>),
}

/// The tag, a field that tells which variant was written.
pub struct Tag<T> {
    /// Whether the tag is part of the sample group.
    pub sample_group: bool,
    /// What the tag is in each variant.
    pub texts: Vec<TagText<T>>,
}

/// The tag in one variant.
pub struct TagText<T> {
    /// Declarations that the name needs.
    pub extra: T,
    /// The name of the tag, inflected.
    pub name: T,
    /// The name of the variant, inflected.
    pub value: T,
}

/// Which fields of a variant with named fields a pattern binds.
pub enum FieldPattern<'a, T> {
    /// Binds these, which are all.
    Exhaustive(Vec<&'a T>),
    /// Binds these, and passes over the others.
    Open(Vec<&'a T>),
    /// Binds none.
    Any,
}

/// The pattern of an arm.
pub enum Pattern<'a, T> {
    /// A unit variant.
    Unit {
        entry_name: &'a T,
        variant: &'a T,
    },
    /// A tuple variant: each field is bound to the name with its number.
    Tuple {
        entry_name: &'a T,
        variant: &'a T,
        bindings: Vec<usize>,
    },
    /// A variant with named fields.
    Struct {
        entry_name: &'a T,
        variant: &'a T,
        fields: FieldPattern<'a, T>,
    },
}

/// Model of a [`FieldPattern`].
#[verifier::ext_equal]
pub enum FieldPatternView<T> {
    Exhaustive(Seq<T>),
    Open(Seq<T>),
    Any,
}

/// Model of a [`Pattern`].
#[verifier::ext_equal]
pub enum PatternView<T> {
    Unit {
        entry_name: T,
        variant: T,
    },
    Tuple {
        entry_name: T,
        variant: T,
        bindings: Seq<usize>,
    },
    Struct {
        entry_name: T,
        variant: T,
        fields: FieldPatternView<T>,
    },
}

impl<'a, T> View for FieldPattern<'a, T> {
    type V = FieldPatternView<T>;

    open spec fn view(&self) -> FieldPatternView<T> {
        match self {
            FieldPattern::Exhaustive(fields) => FieldPatternView::Exhaustive(entry_impl::referents(fields@)),
            FieldPattern::Open(fields) => FieldPatternView::Open(entry_impl::referents(fields@)),
            FieldPattern::Any => FieldPatternView::Any,
        }
    }
}

impl<'a, T> View for Pattern<'a, T> {
    type V = PatternView<T>;

    open spec fn view(&self) -> PatternView<T> {
        match self {
            Pattern::Unit { entry_name, variant } => PatternView::Unit {
                entry_name: **entry_name,
                variant: **variant,
            },
            Pattern::Tuple { entry_name, variant, bindings } => PatternView::Tuple {
                entry_name: **entry_name,
                variant: **variant,
                bindings: bindings@,
            },
            Pattern::Struct { entry_name, variant, fields } => PatternView::Struct {
                entry_name: **entry_name,
                variant: **variant,
                fields: fields@,
            },
        }
    }
}

/// The pattern that binds some fields by name: all of them if it is to be exhaustive.
pub open spec fn field_pattern<T>(fields: Seq<T>, exhaustive: bool) -> FieldPatternView<T> {
    if exhaustive {
        FieldPatternView::Exhaustive(fields)
    } else if fields.len() > 0 {
        FieldPatternView::Open(fields)
    } else {
        FieldPatternView::Any
    }
}

/// Builds the pattern of a variant with named fields.
pub fn struct_pattern<'a, T>(
    entry_name: &'a T,
    variant: &'a T,
    fields: Vec<&'a T>,
    exhaustive: bool,
) -> (r: Pattern<'a, T>)
    ensures
        r@ == (PatternView::Struct {
            entry_name: *entry_name,
            variant: *variant,
            fields: field_pattern(entry_impl::referents(fields@), exhaustive),
        }),
{
    let fields = if exhaustive {
        FieldPattern::Exhaustive(fields)
    } else if fields.len() > 0 {
        FieldPattern::Open(fields)
    } else {
        FieldPattern::Any
    };
    Pattern::Struct { entry_name, variant, fields }
}

/// Builds the pattern of a tuple variant.
pub fn tuple_pattern<'a, T>(entry_name: &'a T, variant: &'a T, bindings: Vec<usize>) -> (r: Pattern<
    'a,
    T,
>)
    ensures
        r@ == (PatternView::Tuple {
            entry_name: *entry_name,
            variant: *variant,
            bindings: bindings@,
        }),
{
    Pattern::Tuple { entry_name, variant, bindings }
}

/// A statement that writes a field of a tuple variant.
pub enum TupleWrite<'a, T, S> {
    /// Writes the bound field, which is inflectable, in the style `ns`.
    Inflected {
        span: S,
        extra: Option<&'a T>,
        ns: &'a T,
        binding: usize,
    },
    /// Writes the bound field, which is an entry.
    Entry {
        span: S,
        binding: usize,
    },
    /// Writes nothing.
    Nothing,
}

/// Whether a field can stand in a tuple variant. Timestamps and plain fields cannot.
pub open spec fn allowed_in_tuple<T, S>(field: TupleData<T, S>) -> bool {
    !(field.kind is Timestamp) && !(field.kind is Field)
}

/// Whether all fields can stand in a tuple variant.
pub open spec fn all_allowed<T, S>(fields: Seq<TupleData<T, S>>) -> bool {
    forall|i: int| 0 <= i < fields.len() ==> allowed_in_tuple(#[trigger] fields[i])
}

/// The statement that writes the field at `index` of a tuple variant. The prefix of a field that
/// is flattened extends the style in which its fields are named.
pub open spec fn tuple_write<'a, T, S>(kind: MetricsFieldKind<T, S>, index: usize) -> TupleWrite<
    'a,
    T,
    S,
> {
    match kind {
        MetricsFieldKind::Flatten { span, ns, prefix } => match prefix {
            None => TupleWrite::Inflected { span, extra: None, ns: &ns, binding: index },
            Some(p) => TupleWrite::Inflected {
                span,
                extra: Some(&p.extra),
                ns: &p.ns,
                binding: index,
            },
        },
        MetricsFieldKind::FlattenEntry(span) => TupleWrite::Entry { span, binding: index },
        _ => TupleWrite::Nothing,
    }
}

/// The statements that write the fields of a tuple variant.
pub open spec fn tuple_writes<'a, T, S>(fields: Seq<TupleData<T, S>>) -> Seq<TupleWrite<'a, T, S>> {
    Seq::new(fields.len(), |i: int| tuple_write(fields[i].kind, i as usize))
}

/// The names that are bound to the fields of a tuple variant, by their numbers.
pub open spec fn all_bindings(n: nat) -> Seq<usize> {
    Seq::new(n, |i: int| i as usize)
}

/// Binds and writes the fields of a tuple variant, in their order.
pub fn generate_tuple_writes<'a, T, S: Copy>(tuple_data: &'a Vec<TupleData<T, S>>) -> (r: (
    Vec<usize>,
    Vec<TupleWrite<'a, T, S>>,
))
    requires
        all_allowed(tuple_data@),
    ensures
        r.0@ == all_bindings(tuple_data@.len()),
        r.1@ == tuple_writes(tuple_data@),
{
    let mut bindings: Vec<usize> = Vec::new();
    let mut writes: Vec<TupleWrite<'a, T, S>> = Vec::new();
    let n: usize = tuple_data.len();
    for index in 0..n
        invariant
            n == tuple_data.len(),
            bindings.len() == index,
            forall|i: int| 0 <= i < index ==> #[trigger] bindings@[i] == i,
            writes@ == tuple_writes(tuple_data@).take(index as int),
    {
        bindings.push(index);
        let write = match &tuple_data[index].kind {
            MetricsFieldKind::Flatten { span, ns, prefix } => {
                match prefix {
                    None => TupleWrite::Inflected { span: *span, extra: None, ns, binding: index },
                    Some(PrefixedStyle { extra, ns }) => TupleWrite::Inflected {
                        span: *span,
                        extra: Some(extra),
                        ns,
                        binding: index,
                    },
                }
            },
            MetricsFieldKind::FlattenEntry(span) => TupleWrite::Entry {
                span: *span,
                binding: index,
            },
            _ => TupleWrite::Nothing,
        };
        writes.push(write);
        assert(tuple_writes(tuple_data@).take(index + 1) =~= tuple_writes(tuple_data@).take(
            index as int,
        ).push(tuple_writes(tuple_data@)[index as int]));
    }
    assert(bindings@ =~= all_bindings(tuple_data@.len()));
    assert(writes@ =~= tuple_writes(tuple_data@));
    (bindings, writes)
}

/// The statements of an arm that write fields.
pub enum ArmWrites<'a, T, S> {
    /// Those of a tuple variant.
    Tuple(Vec<TupleWrite<'a, T, S>>),
    /// Those of a variant with named fields.
    Struct(&'a Vec<T>),
    /// A unit variant has none.
    Unit,
}

/// Model of [`ArmWrites`].
#[verifier::ext_equal]
pub enum ArmWritesView<'a, T, S> {
    Tuple(Seq<TupleWrite<'a, T, S>>),
    Struct(Seq<T>),
    Unit,
}

impl<'a, T, S> View for ArmWrites<'a, T, S> {
    type V = ArmWritesView<'a, T, S>;

    open spec fn view(&self) -> ArmWritesView<'a, T, S> {
        match self {
            ArmWrites::Tuple(writes) => ArmWritesView::Tuple(writes@),
            ArmWrites::Struct(writes) => ArmWritesView::Struct(writes@),
            ArmWrites::Unit => ArmWritesView::Unit,
        }
    }
}

/// The arm that writes one variant: first the tag, if there is one, then the fields.
pub struct WriteArm<'a, T, S> {
    pub span: S,
    pub pattern: Pattern<'a, T>,
    pub tag: Option<&'a TagText<T>>,
    pub writes: ArmWrites<'a, T, S>,
}

/// Model of a [`WriteArm`].
#[verifier::ext_equal]
pub struct WriteArmView<'a, T, S> {
    pub span: S,
    pub pattern: PatternView<T>,
    pub tag: Option<TagText<T>>,
    pub writes: ArmWritesView<'a, T, S>,
}

impl<'a, T, S> View for WriteArm<'a, T, S> {
    type V = WriteArmView<'a, T, S>;

    open spec fn view(&self) -> WriteArmView<'a, T, S> {
        WriteArmView {
            span: self.span,
            pattern: self.pattern@,
            tag: match self.tag {
                Some(t) => Some(*t),
                None => None,
            },
            writes: self.writes@,
        }
    }
}

/// The names of some fields.
pub open spec fn field_names<T>(fields: Seq<MetricsField<T>>) -> Seq<T> {
    fields.map_values(|f: MetricsField<T>| f.ident)
}

/// The pattern that binds all fields of a variant.
pub open spec fn full_pattern<T, S>(entry_name: T, variant: MetricsVariant<T, S>) -> PatternView<T> {
    match variant.data {
        Some(VariantData::Tuple(fields)) => PatternView::Tuple {
            entry_name,
            variant: variant.ident,
            bindings: all_bindings(fields@.len()),
        },
        Some(VariantData::Struct(fields)) => PatternView::Struct {
            entry_name,
            variant: variant.ident,
            fields: FieldPatternView::Exhaustive(field_names(fields.fields@)),
        },
        None => PatternView::Unit { entry_name, variant: variant.ident },
    }
}

/// What the tag is in the variant at `index`.
pub open spec fn tag_text<T>(tag: Option<Tag<T>>, index: int) -> Option<TagText<T>> {
    match tag {
        Some(t) => Some(t.texts@[index]),
        None => None,
    }
}

/// The arm that writes a variant.
pub open spec fn write_arm<'a, T, S>(
    entry_name: T,
    variant: MetricsVariant<T, S>,
    tag: Option<TagText<T>>,
) -> WriteArmView<'a, T, S> {
    WriteArmView {
        span: variant.span,
        pattern: full_pattern(entry_name, variant),
        tag,
        writes: match variant.data {
            Some(VariantData::Tuple(fields)) => ArmWritesView::Tuple(tuple_writes(fields@)),
            Some(VariantData::Struct(fields)) => ArmWritesView::Struct(fields.writes@),
            None => ArmWritesView::Unit,
        },
    }
}

/// Whether the description of an enum is consistent: the tag is known in each variant, and tuple
/// variants hold only what can stand in them.
pub open spec fn consistent<T, S>(
    variants: Seq<MetricsVariant<T, S>>,
    tag: Option<Tag<T>>,
) -> bool {
    &&& tag matches Some(t) ==> t.texts@.len() == variants.len()
    &&& forall|i: int|
        0 <= i < variants.len() ==> ((#[trigger] variants[i]).data matches Some(
            VariantData::Tuple(fields),
        ) ==> all_allowed(fields@))
}

/// Borrows the names of some fields.
fn borrow_names<'a, T>(fields: &'a Vec<MetricsField<T>>) -> (r: Vec<&'a T>)
    ensures
        entry_impl::referents(r@) == field_names(fields@),
{
    let mut names: Vec<&'a T> = Vec::new();
    let n: usize = fields.len();
    for i in 0..n
        invariant
            n == fields.len(),
            names.len() == i,
            forall|j: int| 0 <= j < i ==> *(#[trigger] names@[j]) == fields@[j].ident,
    {
        names.push(&fields[i].ident);
    }
    assert(entry_impl::referents(names@) =~= field_names(fields@));
    names
}

/// Generates the arm that writes a variant.
fn generate_write_arm<'a, T, S: Copy>(
    entry_name: &'a T,
    variant: &'a MetricsVariant<T, S>,
    tag: Option<&'a TagText<T>>,
) -> (r: WriteArm<'a, T, S>)
    requires
        variant.data matches Some(VariantData::Tuple(fields)) ==> all_allowed(fields@),
    ensures
        r@ == write_arm(
            *entry_name,
            *variant,
            match tag {
                Some(t) => Some(*t),
                None => None,
            },
        ),
{
    let variant_ident = &variant.ident;
    let (pattern, writes) = match &variant.data {
        Some(VariantData::Tuple(tuple_data)) => {
            let (bindings, writes) = generate_tuple_writes(tuple_data);
            (tuple_pattern(entry_name, variant_ident, bindings), ArmWrites::Tuple(writes))
        },
        Some(VariantData::Struct(fields)) => {
            let names = borrow_names(&fields.fields);
            (
                struct_pattern(entry_name, variant_ident, names, true),
                ArmWrites::Struct(&fields.writes),
            )
        },
        None => (Pattern::Unit { entry_name, variant: variant_ident }, ArmWrites::Unit),
    };
    WriteArm { span: variant.span, pattern, tag, writes }
}

/// Generates the arms that write the variants, one for each and in their order.
pub fn generate_write_arms<'a, T, S: Copy>(
    entry_name: &'a T,
    variants: &'a Vec<MetricsVariant<T, S>>,
    tag: &'a Option<Tag<T>>,
) -> (r: Vec<WriteArm<'a, T, S>>)
    requires
        consistent(variants@, *tag),
    ensures
        r.len() == variants.len(),
        forall|i: int|
            0 <= i < variants.len() ==> (#[trigger] r@[i])@ == write_arm(
                *entry_name,
                variants@[i],
                tag_text(*tag, i),
            ),
{
    let mut arms: Vec<WriteArm<'a, T, S>> = Vec::new();
    let n: usize = variants.len();
    for index in 0..n
        invariant
            n == variants.len(),
            consistent(variants@, *tag),
            arms.len() == index,
            forall|i: int|
                0 <= i < index ==> (#[trigger] arms@[i])@ == write_arm(
                    *entry_name,
                    variants@[i],
                    tag_text(*tag, i),
                ),
    {
        let text = match tag {
            Some(t) => Some(&t.texts[index]),
            None => None,
        };
        arms.push(generate_write_arm(entry_name, &variants[index], text));
    }
    arms
}

/// An expression that iterates over a part of the sample group.
pub enum SampleGroup<'a, T, S> {
    /// The tag alone.
    Tag(&'a TagText<T>),
    /// The sample group of a bound field, which is inflectable, in the style `ns`.
    Inflected {
        span: S,
        ns: &'a T,
        binding: usize,
    },
    /// The sample group of a bound field, which is an entry.
    Entry {
        span: S,
        binding: usize,
    },
    /// The expression of a field with a name.
    Field(&'a T),
}

/// What the field at `index` of a tuple variant contributes to the sample group. The prefix of a
/// field that is flattened does not matter here.
pub open spec fn tuple_sample_group<'a, T, S>(
    kind: MetricsFieldKind<T, S>,
    index: usize,
) -> Option<SampleGroup<'a, T, S>> {
    match kind {
        MetricsFieldKind::Flatten { span, ns, prefix } => Some(
            SampleGroup::Inflected { span, ns: &ns, binding: index },
        ),
        MetricsFieldKind::FlattenEntry(span) => Some(SampleGroup::Entry { span, binding: index }),
        _ => None,
    }
}

/// What a field of a tuple variant, bound to the name with number `binding`, contributes to the
/// sample group.
pub fn collect_tuple_sample_group<'a, T, S: Copy>(
    kind: &'a MetricsFieldKind<T, S>,
    binding: usize,
) -> (r: Option<SampleGroup<'a, T, S>>)
    requires
        !(kind is Timestamp) && !(kind is Field),
    ensures
        r == tuple_sample_group(*kind, binding),
{
    match kind {
        MetricsFieldKind::Flatten { span, ns, .. } => Some(
            SampleGroup::Inflected { span: *span, ns, binding },
        ),
        MetricsFieldKind::FlattenEntry(span) => Some(SampleGroup::Entry { span: *span, binding }),
        _ => None,
    }
}

/// What the first `n` fields of a tuple variant contribute to the sample group.
pub open spec fn tuple_sample_groups<'a, T, S>(fields: Seq<TupleData<T, S>>, n: nat) -> Seq<
    SampleGroup<'a, T, S>,
>
    decreases n,
{
    if n == 0 {
        Seq::empty()
    } else {
        let before = tuple_sample_groups(fields, (n - 1) as nat);
        match tuple_sample_group(fields[n - 1].kind, (n - 1) as usize) {
            Some(group) => before.push(group),
            None => before,
        }
    }
}

/// Those of the first `n` fields that contribute to the sample group.
pub open spec fn used_fields<T>(fields: Seq<MetricsField<T>>, n: nat) -> Seq<T>
    decreases n,
{
    if n == 0 {
        Seq::empty()
    } else {
        let before = used_fields(fields, (n - 1) as nat);
        match fields[n - 1].sample_group {
            Some(group) => before.push(group.field),
            None => before,
        }
    }
}

/// Expressions of fields with a name.
pub open spec fn as_field_groups<'a, T, S>(iters: Seq<T>) -> Seq<SampleGroup<'a, T, S>> {
    iters.map_values(|iter: T| SampleGroup::Field(&iter))
}

/// The pattern that binds what the sample group of a variant needs.
pub open spec fn sample_group_pattern<T, S>(
    entry_name: T,
    variant: MetricsVariant<T, S>,
) -> PatternView<T> {
    match variant.data {
        Some(VariantData::Struct(fields)) => PatternView::Struct {
            entry_name,
            variant: variant.ident,
            fields: field_pattern(used_fields(fields.fields@, fields.fields@.len()), false),
        },
        _ => full_pattern(entry_name, variant),
    }
}

/// The sample group of a variant: first the tag, if it belongs there, then what the fields
/// contribute.
pub open spec fn sample_groups<'a, T, S>(
    variant: MetricsVariant<T, S>,
    tag: Option<TagText<T>>,
) -> Seq<SampleGroup<'a, T, S>> {
    let of_fields = match variant.data {
        Some(VariantData::Tuple(fields)) => tuple_sample_groups(fields@, fields@.len()),
        Some(VariantData::Struct(fields)) => as_field_groups(
            entry_impl::field_sample_groups(fields.fields@, fields.fields@.len()),
        ),
        None => Seq::empty(),
    };
    match tag {
        Some(text) => seq![SampleGroup::Tag(&text)] + of_fields,
        None => of_fields,
    }
}

/// What the tag contributes to the sample group of the variant at `index`.
pub open spec fn sample_group_tag<T>(tag: Option<Tag<T>>, index: int) -> Option<TagText<T>> {
    match tag {
        Some(t) => if t.sample_group {
            Some(t.texts@[index])
        } else {
            None
        },
        None => None,
    }
}

/// The arm that iterates over the sample group of one variant: it gives the variant with the
/// number `iter_variant` of the enum of iterators.
pub struct SampleGroupArm<'a, T, S> {
    pub span: S,
    pub pattern: Pattern<'a, T>,
    pub iter_variant: usize,
    pub iter: Chain<SampleGroup<'a, T, S>>,
}

/// Whether an arm iterates over the sample group of the variant at `index`.
pub open spec fn is_sample_group_arm<T, S>(
    arm: SampleGroupArm<T, S>,
    entry_name: T,
    variant: MetricsVariant<T, S>,
    tag: Option<TagText<T>>,
    index: int,
) -> bool {
    &&& arm.span == variant.span
    &&& arm.pattern@ == sample_group_pattern(entry_name, variant)
    &&& arm.iter_variant == index
    &&& arm.iter.leaves() == sample_groups(variant, tag)
    &&& arm.iter.balanced()
}

/// Binds all fields of a tuple variant, and collects what they contribute to the sample group.
fn collect_tuple_sample_groups<'a, T, S: Copy>(tuple_data: &'a Vec<TupleData<T, S>>) -> (r: (
    Vec<usize>,
    Vec<SampleGroup<'a, T, S>>,
))
    requires
        all_allowed(tuple_data@),
    ensures
        r.0@ == all_bindings(tuple_data@.len()),
        r.1@ == tuple_sample_groups(tuple_data@, tuple_data@.len()),
{
    let mut bindings: Vec<usize> = Vec::new();
    let mut groups: Vec<SampleGroup<'a, T, S>> = Vec::new();
    let n: usize = tuple_data.len();
    for index in 0..n
        invariant
            n == tuple_data.len(),
            all_allowed(tuple_data@),
            bindings.len() == index,
            forall|i: int| 0 <= i < index ==> #[trigger] bindings@[i] == i,
            groups@ == tuple_sample_groups(tuple_data@, index as nat),
    {
        bindings.push(index);
        assert(allowed_in_tuple(tuple_data@[index as int]));
        if let Some(group) = collect_tuple_sample_group(&tuple_data[index].kind, index) {
            groups.push(group);
        }
    }
    assert(bindings@ =~= all_bindings(tuple_data@.len()));
    (bindings, groups)
}

/// Collects what fields with names contribute to the sample group, and the names that it needs.
fn collect_field_sample_groups<'a, T, S>(fields: &'a Vec<MetricsField<T>>) -> (r: (
    Vec<&'a T>,
    Vec<SampleGroup<'a, T, S>>,
))
    ensures
        entry_impl::referents(r.0@) == used_fields(fields@, fields@.len()),
        r.1@ == as_field_groups::<T, S>(entry_impl::field_sample_groups(fields@, fields@.len())),
{
    let mut used: Vec<&'a T> = Vec::new();
    let mut groups: Vec<SampleGroup<'a, T, S>> = Vec::new();
    assert(entry_impl::referents(used@) =~= used_fields(fields@, 0));
    assert(groups@ =~= as_field_groups::<T, S>(entry_impl::field_sample_groups(fields@, 0)));
    let n: usize = fields.len();
    for index in 0..n
        invariant
            n == fields.len(),
            entry_impl::referents(used@) == used_fields(fields@, index as nat),
            groups@ == as_field_groups::<T, S>(entry_impl::field_sample_groups(fields@, index as nat)),
    {
        if let Some(group) = &fields[index].sample_group {
            let ghost names = used@;
            let ghost iters = entry_impl::field_sample_groups(fields@, index as nat);
            used.push(&group.field);
            groups.push(SampleGroup::Field(&group.iter));
            assert(entry_impl::referents(used@) =~= entry_impl::referents(names).push(group.field));
            assert(groups@ =~= as_field_groups::<T, S>(iters.push(group.iter)));
        }
    }
    (used, groups)
}

/// Generates the arm that iterates over the sample group of the variant at `index`.
fn generate_sample_group_arm<'a, T, S: Copy>(
    entry_name: &'a T,
    variant: &'a MetricsVariant<T, S>,
    tag: Option<&'a TagText<T>>,
    index: usize,
) -> (r: SampleGroupArm<'a, T, S>)
    requires
        variant.data matches Some(VariantData::Tuple(fields)) ==> all_allowed(fields@),
    ensures
        is_sample_group_arm(
            r,
            *entry_name,
            *variant,
            match tag {
                Some(t) => Some(*t),
                None => None,
            },
            index as int,
        ),
{
    let variant_ident = &variant.ident;
    let (pattern, of_fields) = match &variant.data {
        Some(VariantData::Tuple(tuple_data)) => {
            let (bindings, groups) = collect_tuple_sample_groups(tuple_data);
            (tuple_pattern(entry_name, variant_ident, bindings), groups)
        },
        Some(VariantData::Struct(fields)) => {
            let (used, groups) = collect_field_sample_groups(&fields.fields);
            (struct_pattern(entry_name, variant_ident, used, false), groups)
        },
        None => {
            let none: Vec<SampleGroup<'a, T, S>> = Vec::new();
            assert(none@ =~= Seq::empty());
            (Pattern::Unit { entry_name, variant: variant_ident }, none)
        },
    };
    let ghost before = of_fields@;
    let mut groups = of_fields;
    if let Some(text) = tag {
        groups.insert(0, SampleGroup::Tag(text));
        assert(groups@ =~= seq![SampleGroup::Tag(text)] + before);
    }
    SampleGroupArm {
        span: variant.span,
        pattern,
        iter_variant: index,
        iter: make_binary_tree_chain(groups),
    }
}

/// Generates the arms that iterate over the sample groups of the variants, one for each and in
/// their order.
pub fn generate_sample_group_arms<'a, T, S: Copy>(
    entry_name: &'a T,
    variants: &'a Vec<MetricsVariant<T, S>>,
    tag: &'a Option<Tag<T>>,
) -> (r: Vec<SampleGroupArm<'a, T, S>>)
    requires
        consistent(variants@, *tag),
    ensures
        r.len() == variants.len(),
        forall|i: int|
            0 <= i < variants.len() ==> is_sample_group_arm(
                #[trigger] r@[i],
                *entry_name,
                variants@[i],
                sample_group_tag(*tag, i),
                i,
            ),
{
    let mut arms: Vec<SampleGroupArm<'a, T, S>> = Vec::new();
    let n: usize = variants.len();
    for index in 0..n
        invariant
            n == variants.len(),
            consistent(variants@, *tag),
            arms.len() == index,
            forall|i: int|
                0 <= i < index ==> is_sample_group_arm(
                    #[trigger] arms@[i],
                    *entry_name,
                    variants@[i],
                    sample_group_tag(*tag, i),
                    i,
                ),
    {
        let text = match tag {
            Some(t) => if t.sample_group {
                Some(&t.texts[index])
            } else {
                None
            },
            None => None,
        };
        arms.push(generate_sample_group_arm(entry_name, &variants[index], text, index));
    }
    arms
}

/// The enum of iterators: it has one variant for each variant of the enum of metrics, and iterates
/// as the iterator in it does.
pub struct IterEnum {
    pub name: String,
    /// The numbers of its variants.
    pub variants: Vec<usize>,
}

/// Generates the enum of iterators.
pub fn generate_sample_group_iter_enum(iter_enum_name: String, variant_count: usize) -> (r:
    IterEnum)
    ensures
        r.name@ == iter_enum_name@,
        r.variants@ == all_bindings(variant_count as nat),
{
    let mut variants: Vec<usize> = Vec::new();
    for index in 0..variant_count
        invariant
            variants.len() == index,
            forall|i: int| 0 <= i < index ==> #[trigger] variants@[i] == i,
    {
        variants.push(index);
    }
    assert(variants@ =~= all_bindings(variant_count as nat));
    IterEnum { name: iter_enum_name, variants }
}

/// The name of the enum of iterators for an enum of metrics.
pub open spec fn iter_enum_name(entry_name: Seq<char>) -> Seq<char> {
    entry_name + "SampleGroupIter"@
}

/// Generates the enum of iterators and the arms that use it.
pub fn generate_sample_group_impl<'a, T, S: Copy>(
    entry_ident: &str,
    entry_name: &'a T,
    variants: &'a Vec<MetricsVariant<T, S>>,
    tag: &'a Option<Tag<T>>,
) -> (r: (IterEnum, Vec<SampleGroupArm<'a, T, S>>))
    requires
        consistent(variants@, *tag),
    ensures
        r.0.name@ == iter_enum_name(entry_ident@),
        r.0.variants@ == all_bindings(variants@.len()),
        r.1.len() == variants.len(),
        forall|i: int|
            0 <= i < variants.len() ==> is_sample_group_arm(
                #[trigger] r.1@[i],
                *entry_name,
                variants@[i],
                sample_group_tag(*tag, i),
                i,
            ),
{
    let mut name = entry_ident.to_owned();
    name.append("SampleGroupIter");
    let arms = generate_sample_group_arms(entry_name, variants, tag);
    (generate_sample_group_iter_enum(name, variants.len()), arms)
}

/// All that is generated for an enum.
pub struct EnumEntryImpl<'a, T, S> {
    pub iter_enum: IterEnum,
    pub write_arms: Vec<WriteArm<'a, T, S>>,
    pub sample_group_arms: Vec<SampleGroupArm<'a, T, S>>,
}

/// Generates the implementation of an inflectable entry for an enum.
pub fn generate_enum_entry_impl<'a, T, S: Copy>(
    entry_ident: &str,
    entry_name: &'a T,
    variants: &'a Vec<MetricsVariant<T, S>>,
    tag: &'a Option<Tag<T>>,
) -> (r: EnumEntryImpl<'a, T, S>)
    requires
        consistent(variants@, *tag),
    ensures
        r.iter_enum.name@ == iter_enum_name(entry_ident@),
        r.iter_enum.variants@ == all_bindings(variants@.len()),
        r.write_arms.len() == variants.len(),
        forall|i: int|
            0 <= i < variants.len() ==> (#[trigger] r.write_arms@[i])@ == write_arm(
                *entry_name,
                variants@[i],
                tag_text(*tag, i),
            ),
        r.sample_group_arms.len() == variants.len(),
        forall|i: int|
            0 <= i < variants.len() ==> is_sample_group_arm(
                #[trigger] r.sample_group_arms@[i],
                *entry_name,
                variants@[i],
                sample_group_tag(*tag, i),
                i,
            ),
{
    let write_arms = generate_write_arms(entry_name, variants, tag);
    let (iter_enum, sample_group_arms) = generate_sample_group_impl(
        entry_ident,
        entry_name,
        variants,
        tag,
    );
    EnumEntryImpl { iter_enum, write_arms, sample_group_arms }
}

/// Every variant of the enum of metrics iterates by a variant of the enum of iterators of its own,
/// and no variant of the latter is left over.
pub proof fn arms_match_the_iter_enum<T, S>(
    iter_enum: IterEnum,
    arms: Seq<SampleGroupArm<T, S>>,
    entry_name: T,
    variants: Seq<MetricsVariant<T, S>>,
    tag: Option<Tag<T>>,
)
    requires
        iter_enum.variants@ == all_bindings(variants.len()),
        arms.len() == variants.len(),
        forall|i: int|
            0 <= i < variants.len() ==> is_sample_group_arm(
                #[trigger] arms[i],
                entry_name,
                variants[i],
                sample_group_tag(tag, i),
                i,
            ),
    ensures
        iter_enum.variants@.len() == arms.len(),
        forall|i: int|
            0 <= i < arms.len() ==> #[trigger] arms[i].iter_variant == iter_enum.variants@[i],
        forall|i: int, j: int|
            0 <= i < j < arms.len() ==> (#[trigger] arms[i]).iter_variant != (
            #[trigger] arms[j]).iter_variant,
{
    assert forall|i: int| 0 <= i < arms.len() implies #[trigger] arms[i].iter_variant
        == iter_enum.variants@[i] by {
        assert(is_sample_group_arm(
            arms[i],
            entry_name,
            variants[i],
            sample_group_tag(tag, i),
            i,
        ));
    }
}

/// The arm of a tuple variant binds each field to its number and writes each field once, in the
/// order of the fields; what it writes is bound.
pub proof fn tuple_writes_use_their_bindings<T, S>(fields: Seq<TupleData<T, S>>, index: int)
    requires
        0 <= index < fields.len() <= usize::MAX,
    ensures
        tuple_writes(fields).len() == all_bindings(fields.len()).len(),
        tuple_writes(fields)[index] matches TupleWrite::Inflected { binding, .. } ==> binding
            == all_bindings(fields.len())[index],
        tuple_writes(fields)[index] matches TupleWrite::Entry { binding, .. } ==> binding
            == all_bindings(fields.len())[index],
        tuple_writes(fields)[index] is Nothing <==> !(fields[index].kind is Flatten) && !(
        fields[index].kind is FlattenEntry),
{
}

} // verus!
