use metrique::close::CloseValue;
use metrique::concat::{const_str_value, Concatenated, EmptyConstStr, MaybeConstStr};
use metrique::entry::{BoxEntry, Entry, EntryCall, EntryWriter, UnixTime};
use metrique::flex::{Flex, FlexEntry};
use metrique::inflect::InflectableEntry;
use metrique::namestyle::{
    AppendPrefix, DynamicNameStyle, Identity, Inflect, KebabCase, NameStyle, PascalCase, SnakeCase,
};
use metrique::value::{
    HighStorageResolution, MetricFlag, NoMetric, Observation, RecordedValue, Value, ValueCall,
    WithDimensions,
};
use std::borrow::Cow;

struct Api;

impl MaybeConstStr for Api {
    fn value() -> Cow<'static, str> {
        Cow::Borrowed("api_")
    }
}

struct Count;

impl MaybeConstStr for Count {
    fn value() -> Cow<'static, str> {
        Cow::Borrowed("Count")
    }
}

/// An entry with one field, whose name has four spellings.
struct Workers(u64);

impl<NS: NameStyle> InflectableEntry<NS> for Workers {
    fn write<W: EntryWriter>(&self, writer: &mut W) {
        writer.timestamp(UnixTime { before_epoch: false, secs: 1, nanos: 0 });
        let name = NS::inflect("workersCount", "WorkersCount", "workers_count", "workers-count");
        writer.value(&name, &self.0);
    }
}

fn written<NS: NameStyle, T: InflectableEntry<NS>>(entry: &T) -> BoxEntry {
    let mut writer = BoxEntry::new();
    entry.write(&mut writer);
    writer
}

/// The names of the fields.
fn names(entry: &BoxEntry) -> Vec<String> {
    let mut names = Vec::new();
    for call in entry.calls() {
        if let EntryCall::Value(name, _) = call {
            names.push(name.clone());
        }
    }
    names
}

/// The calls of the first field.
fn first_value(entry: &BoxEntry) -> Vec<ValueCall> {
    for call in entry.calls() {
        if let EntryCall::Value(_, value) = call {
            return value.calls.clone();
        }
    }
    panic!("no field")
}

fn inflected<NS: NameStyle>() -> String {
    NS::inflect("id", "Pascal", "snake", "kebab")
}

#[test]
fn styles_choose_a_spelling_and_keep_the_prefix() {
    assert_eq!(inflected::<Identity>(), "id");
    assert_eq!(inflected::<PascalCase>(), "Pascal");
    assert_eq!(inflected::<SnakeCase>(), "snake");
    assert_eq!(inflected::<KebabCase>(), "kebab");
    assert_eq!(inflected::<SnakeCase<Api>>(), "api_snake");
    assert_eq!(inflected::<<SnakeCase<Api> as NameStyle>::PascalCase>(), "api_Pascal");
    assert_eq!(inflected::<<PascalCase<Api> as NameStyle>::KebabCase>(), "api_kebab");
    assert_eq!(<KebabCase<Api> as NameStyle>::inflect_affix("i", "p", "s", "k"), "k");
}

#[test]
fn prefixes_accumulate() {
    type Longer = <Identity<Api> as AppendPrefix<Count>>::Style;
    assert_eq!(inflected::<Longer>(), "api_Countid");
    type Name = <SnakeCase<Api> as Inflect<EmptyConstStr, EmptyConstStr, Count, Api>>::Name;
    assert_eq!(const_str_value::<Name>(), "api_Count");
    type Affix = <SnakeCase<Api> as Inflect<EmptyConstStr, EmptyConstStr, Count, Api>>::Affix;
    assert_eq!(const_str_value::<Affix>(), "Count");
    assert_eq!(const_str_value::<Concatenated<Count, Api>>(), "Countapi_");
    assert_eq!(const_str_value::<EmptyConstStr>(), "");
}

#[test]
fn default_style_keeps_names() {
    assert_eq!(DynamicNameStyle::default(), DynamicNameStyle::Identity);
}

#[test]
fn flex_holds_a_key_and_a_value() {
    let mut metric = Flex::<u64>::new("dynamic_field");
    assert_eq!(metric.key(), "dynamic_field");
    assert_eq!(metric.value(), None);
    metric.set_value(3);
    assert_eq!(metric.value(), Some(&3));
    metric.clear_value();
    assert_eq!(metric.value(), None);
    let metric = metric.with_value(42);
    assert_eq!(metric.value(), Some(&42));
    let metric = metric.with_optional_value(None);
    assert_eq!(metric.value(), None);
    assert_eq!(metric.with_default_value().value(), Some(&0));
    assert_eq!(Flex::<u64>::new(String::from("api_requests")).key(), "api_requests");
}

#[test]
fn flex_writes_its_value_under_its_key_in_every_style() {
    let closed: FlexEntry<u64> = Flex::new("some_key").with_value(42u64).close();
    assert_eq!(names(&written::<PascalCase<Api>, _>(&closed)), vec!["some_key"]);
    let entry = closed.boxed();
    assert_eq!(names(&entry), vec!["some_key"]);
    assert!(matches!(&first_value(&entry)[0], ValueCall::Metric(_)));
    let counted = Flex::<usize>::new(format!("{}_requests", "api")).with_value(42).close().boxed();
    assert_eq!(names(&counted), vec!["api_requests"]);
    match &first_value(&counted)[0] {
        ValueCall::Metric(m) => assert_eq!(m.observations, vec![Observation::Unsigned(42)]),
        _ => panic!("expected a metric"),
    }
    let empty: FlexEntry<u64> = Flex::<u64>::new("some_key").close();
    assert!(first_value(&empty.boxed()).is_empty());
}

#[test]
fn forced_flags_reach_every_metric() {
    let plain = written::<Identity, _>(&Workers(5));
    let flagged = written::<PascalCase, _>(&HighStorageResolution::new(Workers(5)));
    assert_eq!(names(&plain), vec!["workersCount"]);
    assert_eq!(names(&flagged), vec!["WorkersCount"]);
    assert!(matches!(flagged.calls()[0], EntryCall::Timestamp(_)));
    match &first_value(&flagged)[0] {
        ValueCall::Metric(m) => assert_eq!(m.flags, vec![MetricFlag::HighStorageResolution]),
        _ => panic!("expected a metric"),
    }
    let twice: NoMetric<HighStorageResolution<u64>> = NoMetric::new(HighStorageResolution::new(3));
    match &RecordedValue::of(&twice).calls[0] {
        ValueCall::Metric(m) => assert_eq!(
            m.flags,
            vec![MetricFlag::HighStorageResolution, MetricFlag::NoMetric]
        ),
        _ => panic!("expected a metric"),
    }
    assert!(matches!(
        &RecordedValue::of(&NoMetric::new("text")).calls[0],
        ValueCall::Str(s) if s == "text"
    ));
}

#[test]
fn dimensions_reach_every_metric() {
    let entry: WithDimensions<Workers, 1> = WithDimensions::new(Workers(5), "foo", "bar");
    let entry = written::<KebabCase, _>(&entry);
    assert_eq!(names(&entry), vec!["workers-count"]);
    match &first_value(&entry)[0] {
        ValueCall::Metric(m) => {
            assert_eq!(m.dimensions, vec![(String::from("foo"), String::from("bar"))])
        }
        _ => panic!("expected a metric"),
    }
}

#[test]
fn optional_values_may_be_absent() {
    assert!(RecordedValue::of(&None::<u64>).calls.is_empty());
    assert_eq!(RecordedValue::of(&Some(1u64)).calls.len(), 1);
    let mut twice = RecordedValue::new();
    String::from("x").write(&mut twice);
    2u64.write(&mut twice);
    assert_eq!(RecordedValue::of(&twice).calls.len(), 2);
}

#[test]
fn sample_group_is_empty_unless_given() {
    assert!(InflectableEntry::<Identity>::sample_group(&Workers(1)).is_empty());
}
