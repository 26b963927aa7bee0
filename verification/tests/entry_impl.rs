use metrique::entry_impl::enum_impl::{
    collect_tuple_sample_group, generate_enum_entry_impl, generate_sample_group_arms,
    generate_sample_group_iter_enum, generate_tuple_writes, generate_write_arms, struct_pattern,
    tuple_pattern, ArmWrites, FieldPattern, MetricsVariant, Pattern, SampleGroup, Tag, TagText,
    TupleWrite, VariantData,
};
use metrique::entry_impl::struct_impl::{generate_struct_entry_impl, StructWrite};
use metrique::entry_impl::{
    binding_name, iter_variant_name, make_binary_tree_chain, Chain, FieldSampleGroup, MetricsField,
    MetricsFieldKind, MetricsFields, PrefixedStyle, TupleData,
};

type Code = &'static str;

fn leaves<X>(chain: Chain<X>) -> Vec<X> {
    match chain {
        Chain::Empty => Vec::new(),
        Chain::One(x) => vec![x],
        Chain::Both(a, b) => {
            let mut all = leaves(*a);
            all.extend(leaves(*b));
            all
        }
    }
}

fn depth<X>(chain: &Chain<X>) -> usize {
    match chain {
        Chain::Empty | Chain::One(_) => 0,
        Chain::Both(a, b) => 1 + depth(a).max(depth(b)),
    }
}

fn tuple_fields() -> Vec<TupleData<Code, u32>> {
    vec![
        TupleData { kind: MetricsFieldKind::Flatten { span: 1, ns: "NS", prefix: None } },
        TupleData { kind: MetricsFieldKind::Ignore(2) },
        TupleData {
            kind: MetricsFieldKind::Flatten {
                span: 3,
                ns: "NS",
                prefix: Some(PrefixedStyle { extra: "struct P;", ns: "NS::Append<P>" }),
            },
        },
        TupleData { kind: MetricsFieldKind::FlattenEntry(4) },
    ]
}

fn named_fields() -> MetricsFields<Code> {
    MetricsFields {
        fields: vec![
            MetricsField { ident: "a", sample_group: None },
            MetricsField {
                ident: "b",
                sample_group: Some(FieldSampleGroup { field: "b", iter: "once(b)" }),
            },
        ],
        writes: vec!["write(a);", "write(b);"],
    }
}

fn variants() -> Vec<MetricsVariant<Code, u32>> {
    vec![
        MetricsVariant { ident: "Nothing", span: 10, data: None },
        MetricsVariant { ident: "Some", span: 11, data: Some(VariantData::Tuple(tuple_fields())) },
        MetricsVariant { ident: "Named", span: 12, data: Some(VariantData::Struct(named_fields())) },
    ]
}

fn tag(sample_group: bool) -> Option<Tag<Code>> {
    let texts = vec![
        TagText { extra: "", name: "tag", value: "nothing" },
        TagText { extra: "", name: "tag", value: "some" },
        TagText { extra: "", name: "tag", value: "named" },
    ];
    Some(Tag { sample_group, texts })
}

#[test]
fn struct_patterns() {
    let all = struct_pattern(&"E", &"V", vec![&"a", &"b"], true);
    assert!(matches!(
        all,
        Pattern::Struct { entry_name: &"E", variant: &"V", fields: FieldPattern::Exhaustive(f) }
            if f == vec![&"a", &"b"]
    ));
    let none = struct_pattern(&"E", &"V", vec![], true);
    assert!(matches!(
        none,
        Pattern::Struct { fields: FieldPattern::Exhaustive(f), .. } if f.is_empty()
    ));
    let some = struct_pattern(&"E", &"V", vec![&"a"], false);
    assert!(matches!(
        some,
        Pattern::Struct { fields: FieldPattern::Open(f), .. } if f == vec![&"a"]
    ));
    let any = struct_pattern(&"E", &"V", vec![], false);
    assert!(matches!(any, Pattern::Struct { fields: FieldPattern::Any, .. }));
}

#[test]
fn tuple_patterns() {
    let pattern = tuple_pattern(&"E", &"V", vec![0, 1]);
    assert!(matches!(
        pattern,
        Pattern::Tuple { entry_name: &"E", variant: &"V", bindings } if bindings == vec![0, 1]
    ));
}

#[test]
fn tuple_variant_writes() {
    let fields = tuple_fields();
    let (bindings, writes) = generate_tuple_writes(&fields);
    assert_eq!(bindings, vec![0, 1, 2, 3]);
    assert!(matches!(
        writes[0],
        TupleWrite::Inflected { span: 1, extra: None, ns: &"NS", binding: 0 }
    ));
    assert!(matches!(writes[1], TupleWrite::Nothing));
    assert!(matches!(
        writes[2],
        TupleWrite::Inflected {
            span: 3,
            extra: Some(&"struct P;"),
            ns: &"NS::Append<P>",
            binding: 2
        }
    ));
    assert!(matches!(writes[3], TupleWrite::Entry { span: 4, binding: 3 }));
}

#[test]
fn write_arms_begin_with_the_tag() {
    let variants = variants();
    let tag = tag(false);
    let arms = generate_write_arms(&"E", &variants, &tag);
    assert_eq!(arms.len(), 3);
    assert!(matches!(arms[0].pattern, Pattern::Unit { variant: &"Nothing", .. }));
    assert!(matches!(arms[0].writes, ArmWrites::Unit));
    assert_eq!(arms[0].tag.unwrap().value, "nothing");
    assert!(matches!(&arms[1].writes, ArmWrites::Tuple(w) if w.len() == 4));
    assert_eq!(arms[1].tag.unwrap().value, "some");
    assert_eq!(arms[2].span, 12);
    assert_eq!(arms[2].tag.unwrap().value, "named");
    assert!(matches!(
        &arms[2].pattern,
        Pattern::Struct { fields: FieldPattern::Exhaustive(f), .. } if *f == vec![&"a", &"b"]
    ));
    assert!(matches!(
        &arms[2].writes,
        ArmWrites::Struct(w) if **w == vec!["write(a);", "write(b);"]
    ));
    let untagged = generate_write_arms(&"E", &variants, &None);
    assert!(untagged[0].tag.is_none());
}

#[test]
fn sample_group_arms_begin_with_the_tag() {
    let variants = variants();
    let tag = tag(true);
    let arms = generate_sample_group_arms(&"E", &variants, &tag);
    let mut arms = arms.into_iter();

    let unit = arms.next().unwrap();
    assert_eq!(unit.iter_variant, 0);
    let groups = leaves(unit.iter);
    assert_eq!(groups.len(), 1);
    assert!(matches!(groups[0], SampleGroup::Tag(TagText { value: "nothing", .. })));

    let tuple = arms.next().unwrap();
    assert_eq!(tuple.iter_variant, 1);
    let groups = leaves(tuple.iter);
    assert_eq!(groups.len(), 4);
    assert!(matches!(groups[0], SampleGroup::Tag(TagText { value: "some", .. })));
    assert!(matches!(groups[1], SampleGroup::Inflected { span: 1, ns: &"NS", binding: 0 }));
    // The prefix does not matter to the sample group.
    assert!(matches!(groups[2], SampleGroup::Inflected { span: 3, ns: &"NS", binding: 2 }));
    assert!(matches!(groups[3], SampleGroup::Entry { span: 4, binding: 3 }));

    let named = arms.next().unwrap();
    assert!(matches!(
        &named.pattern,
        Pattern::Struct { fields: FieldPattern::Open(f), .. } if *f == vec![&"b"]
    ));
    let groups = leaves(named.iter);
    assert_eq!(groups.len(), 2);
    assert!(matches!(groups[1], SampleGroup::Field(&"once(b)")));
    assert!(arms.next().is_none());
}

#[test]
fn tag_outside_the_sample_group() {
    let variants = variants();
    let tag = tag(false);
    let arms = generate_sample_group_arms(&"E", &variants, &tag);
    assert!(matches!(arms[0].iter, Chain::Empty));
    assert!(matches!(arms[2].iter, Chain::One(SampleGroup::Field(&"once(b)"))));
}

#[test]
fn ignored_fields_have_no_sample_group() {
    let kind: MetricsFieldKind<Code, u32> = MetricsFieldKind::Ignore(1);
    assert!(collect_tuple_sample_group(&kind, 0).is_none());
}

#[test]
fn enum_of_iterators() {
    let iter_enum = generate_sample_group_iter_enum(String::from("EIter"), 3);
    assert_eq!(iter_enum.name, "EIter");
    assert_eq!(iter_enum.variants, vec![0, 1, 2]);
    let variants = variants();
    let tag = tag(true);
    let generated = generate_enum_entry_impl("MyEntry", &"MyEntry", &variants, &tag);
    assert_eq!(generated.iter_enum.name, "MyEntrySampleGroupIter");
    let numbers: Vec<usize> = generated.sample_group_arms.iter().map(|a| a.iter_variant).collect();
    assert_eq!(generated.iter_enum.variants, numbers);
    assert_eq!(generated.write_arms.len(), 3);
}

#[test]
fn struct_statements() {
    let fields = named_fields();
    let configuration = vec!["config"];
    let generated = generate_struct_entry_impl(&fields, &configuration);
    assert_eq!(generated.writes.len(), 3);
    assert!(matches!(generated.writes[0], StructWrite::Configuration(&"config")));
    assert!(matches!(generated.writes[1], StructWrite::Fields(&"write(a);")));
    assert!(matches!(generated.writes[2], StructWrite::Fields(&"write(b);")));
    assert_eq!(leaves(generated.sample_groups), vec![&"once(b)"]);
}

#[test]
fn chains_are_shallow_and_in_order() {
    let chain = make_binary_tree_chain((0..100).collect::<Vec<u32>>());
    assert_eq!(depth(&chain), 7);
    assert_eq!(leaves(chain), (0..100).collect::<Vec<u32>>());
}

#[test]
fn numbered_names() {
    assert_eq!(binding_name(0), "v0");
    assert_eq!(binding_name(10), "v10");
    assert_eq!(iter_variant_name(7), "V7");
    assert_eq!(iter_variant_name(1203), "V1203");
    let names: Vec<String> = (0..120).map(binding_name).collect();
    for i in 0..names.len() {
        for j in 0..i {
            assert_ne!(names[i], names[j]);
        }
    }
}
