use arbitrary::Unstructured;
use metrique::entry::{Entry, EntryCall, EntryConfig, UnixTime};
use metrique::fuzz::emf::{build_emf, inputs_from, EmfFuzzEntry, FuzzEmfConfig};
use metrique::fuzz::generate::{
    arbitrary_char, arbitrary_entry_dimensions, arbitrary_f64, arbitrary_field, arbitrary_string,
    chance_percent, choose_index, entries_from,
};
use metrique::fuzz::json::{
    assert_valid_json_line, assert_valid_json_lines, judge_document, judge_documents, single_line,
    split_documents, JsonFault, JsonKind, JsonLineError, JsonLinesError,
};
use metrique::fuzz::types::{
    FuzzEntry, FuzzField, FuzzMetricFlagMode, FuzzObservation, FuzzTimestamp, FuzzUnit,
};
use metrique::value::{
    Float64, MetricCall, MetricFlag, NegativeScale, Observation, PositiveScale, Unit, ValueCall,
};
use std::time::{Duration, SystemTime};

/// Data that gives an entry in which everything occurs.
fn rich_data() -> Vec<u8> {
    let mut data: Vec<u8> = vec![1, 1];
    data.extend(5u64.to_le_bytes());
    // May be split; the roll for the dimensions; one set with one name of two characters.
    data.extend([1, 60, 1, 1, 2, 0, 1, 3, 1]);
    // Two fields. The first is the property "a" with an empty value.
    data.extend([2, 1, 1, 4, 0x61, 0, 0, 0, 0]);
    // The second is a metric that takes the name of the first, with one observation.
    data.extend([0, 10, 1, 0]);
    data.extend(7u64.to_le_bytes());
    // One dimension with an empty name and an empty value, a unit and flags.
    data.extend([1, 0, 0, 1, 3]);
    data
}

#[test]
fn entry_from_data() {
    let data = rich_data();
    let mut u = Unstructured::new(&data);
    let entry = FuzzEntry::arbitrary(&mut u).unwrap();
    assert_eq!(u.len(), 0);
    assert_eq!(entry.timestamps, vec![FuzzTimestamp { before_epoch: true, secs: 5 }]);
    assert!(entry.allow_split_entries);
    assert_eq!(entry.entry_dimensions.as_ref().unwrap().sets, vec![vec![String::from("\\ ")]]);
    assert_eq!(entry.fields.len(), 2);
    match &entry.fields[0] {
        FuzzField::StringProperty { name, value } => {
            assert_eq!(name, "a");
            assert_eq!(value, "");
        }
        _ => panic!("expected a property"),
    }
    match &entry.fields[1] {
        FuzzField::Metric { name, observations, dimensions, unit, flag_mode } => {
            assert_eq!(name, "a");
            assert_eq!(*observations, vec![FuzzObservation::Unsigned(7)]);
            assert_eq!(*dimensions, vec![(String::new(), String::new())]);
            assert_eq!(*unit, FuzzUnit::Count);
            assert_eq!(*flag_mode, FuzzMetricFlagMode::HighThenNoMetric);
        }
        _ => panic!("expected a metric"),
    }
}

#[test]
fn generation_leaves_the_rest() {
    let mut data = rich_data();
    data.extend([9, 8, 7]);
    let mut u = Unstructured::new(&data);
    FuzzEntry::arbitrary(&mut u).unwrap();
    assert_eq!(u.take_rest(), &[9, 8, 7]);
}

#[test]
fn no_data_gives_an_empty_entry() {
    let mut u = Unstructured::new(&[]);
    let entry = FuzzEntry::arbitrary(&mut u).unwrap();
    assert!(entry.timestamps.is_empty());
    assert!(!entry.allow_split_entries);
    assert!(entry.entry_dimensions.is_none());
    assert!(entry.fields.is_empty());
    assert!(entry.boxed().calls().is_empty());
}

#[test]
fn entries_are_bounded() {
    for seed in 0..=255u8 {
        let data: Vec<u8> =
            (0..40_000u32).map(|i| (i.wrapping_mul(2654435761) >> 11) as u8 ^ seed).collect();
        let mut u = Unstructured::new(&data);
        let entry = FuzzEntry::arbitrary(&mut u).unwrap();
        assert!(entry.timestamps.len() <= 4);
        assert!(entry.fields.len() <= 24);
        for field in &entry.fields {
            match field {
                FuzzField::StringProperty { name, value } => {
                    assert!(name.chars().count() <= 96);
                    assert!(value.chars().count() <= 192);
                }
                FuzzField::Metric { name, observations, dimensions, .. } => {
                    assert!(name.chars().count() <= 96);
                    assert!(observations.len() <= 24);
                    assert!(dimensions.len() <= 12);
                }
            }
        }
    }
}

#[test]
fn written_entry() {
    let data = rich_data();
    let entry = FuzzEntry::arbitrary(&mut Unstructured::new(&data)).unwrap();
    let written = entry.boxed();
    let calls = written.calls();
    assert_eq!(calls.len(), 5);
    assert!(matches!(calls[0], EntryCall::Config(EntryConfig::AllowSplitEntries)));
    assert!(matches!(calls[1], EntryCall::Config(EntryConfig::EntryDimensions(_))));
    match calls[2] {
        EntryCall::Timestamp(UnixTime { before_epoch, secs, nanos }) => {
            assert!(before_epoch);
            assert_eq!(secs, 5);
            assert_eq!(nanos, 0);
        }
        _ => panic!("expected a timestamp"),
    }
    match &calls[3] {
        EntryCall::Value(name, value) => {
            assert_eq!(name, "a");
            assert!(matches!(&value.calls[0], ValueCall::Str(s) if s.is_empty()));
        }
        _ => panic!("expected a value"),
    }
    match &calls[4] {
        EntryCall::Value(name, value) => {
            assert_eq!(name, "a");
            match &value.calls[0] {
                ValueCall::Metric(MetricCall { observations, unit, dimensions, flags }) => {
                    assert_eq!(*observations, vec![Observation::Unsigned(7)]);
                    assert_eq!(*unit, Unit::Count);
                    assert_eq!(dimensions.len(), 1);
                    assert_eq!(
                        *flags,
                        vec![MetricFlag::HighStorageResolution, MetricFlag::NoMetric]
                    );
                }
                _ => panic!("expected a metric"),
            }
        }
        _ => panic!("expected a value"),
    }
}

#[test]
fn emf_entry_takes_its_flags_from_the_list() {
    let data = rich_data();
    let inner = FuzzEntry::arbitrary(&mut Unstructured::new(&data)).unwrap();
    let mut u = Unstructured::new(&[1, 2]);
    let entry = EmfFuzzEntry::with_arbitrary_flags(inner, &mut u);
    assert_eq!(
        entry.flag_modes,
        vec![FuzzMetricFlagMode::HighStorageResolution, FuzzMetricFlagMode::NoMetric]
    );
    let written = entry.boxed();
    match &written.calls()[4] {
        EntryCall::Value(_, value) => match &value.calls[0] {
            ValueCall::Metric(m) => assert_eq!(m.flags, vec![MetricFlag::NoMetric]),
            _ => panic!("expected a metric"),
        },
        _ => panic!("expected a value"),
    }
}

#[test]
fn emf_entry_without_flags_is_plain() {
    let data = rich_data();
    let inner = FuzzEntry::arbitrary(&mut Unstructured::new(&data)).unwrap();
    let entry = EmfFuzzEntry { inner, flag_modes: Vec::new() };
    match &entry.boxed().calls()[4] {
        EntryCall::Value(_, value) => match &value.calls[0] {
            ValueCall::Metric(m) => assert_eq!(m.flags, vec![]),
            _ => panic!("expected a metric"),
        },
        _ => panic!("expected a value"),
    }
}

#[test]
fn emf_config_from_data() {
    // Namespace "[", no second one, log group "\n", two sets: none, and one empty name.
    let data = [1, 2, 2, 0, 1, 1, 3, 0, 1, 0, 1, 0, 1];
    let mut u = Unstructured::new(&data);
    let config = FuzzEmfConfig::arbitrary(&mut u).unwrap();
    assert_eq!(u.len(), 0);
    assert_eq!(config.namespace, "[");
    assert_eq!(config.extra_namespace, None);
    assert_eq!(config.log_group_name.as_deref(), Some("\n"));
    assert_eq!(config.default_dimensions, vec![vec![], vec![String::new()]]);
    assert!(config.allow_ignored_dimensions);

    let settings = build_emf(&config);
    assert_eq!(settings.namespaces, vec!["["]);
    assert_eq!(settings.log_group_name.as_deref(), Some("\n"));
    assert_eq!(settings.default_dimensions, config.default_dimensions);
    assert!(settings.allow_ignored_dimensions);
}

#[test]
fn emf_config_always_has_a_set() {
    let config = FuzzEmfConfig::arbitrary(&mut Unstructured::new(&[])).unwrap();
    assert_eq!(config.default_dimensions, vec![Vec::<String>::new()]);
    let with_extra = FuzzEmfConfig { extra_namespace: Some(String::from("x")), ..config };
    assert_eq!(build_emf(&with_extra).namespaces, vec!["", "x"]);
}

#[test]
fn characters_from_data() {
    fn of(data: &[u8]) -> char {
        arbitrary_char(&mut Unstructured::new(data)).unwrap()
    }
    assert_eq!(of(&[0, 0]), '"');
    assert_eq!(of(&[0, 1]), '\\');
    assert_eq!(of(&[0, 2]), '\n');
    assert_eq!(of(&[0, 3]), '\r');
    assert_eq!(of(&[0, 4]), '\t');
    assert_eq!(of(&[0, 5]), '\u{08}');
    assert_eq!(of(&[0, 6]), '"');
    assert_eq!(of(&[1, 0x1f]), '\u{1f}');
    assert_eq!(of(&[1, 0x21]), '\u{1}');
    assert_eq!(of(&[2, 0]), '{');
    assert_eq!(of(&[2, 1]), '}');
    assert_eq!(of(&[2, 2]), '[');
    assert_eq!(of(&[2, 3]), ']');
    assert_eq!(of(&[2, 4]), ':');
    assert_eq!(of(&[2, 5]), ',');
    assert_eq!(of(&[3, 1]), ' ');
    assert_eq!(of(&[3, 2]), '\n');
    assert_eq!(of(&[4, 0xe9, 0, 0, 0]), 'é');
    assert_eq!(of(&[14, 0x41, 0, 0x11, 0]), 'A');
    assert_eq!(of(&[9, 0x41, 0xd8, 0, 0]), 'A');
    assert_eq!(of(&[]), '"');
}

#[test]
fn strings_from_data() {
    let mut u = Unstructured::new(&[3, 2, 0, 2, 1, 2, 2, 9]);
    assert_eq!(arbitrary_string(&mut u, 2).unwrap(), "{}");
    assert_eq!(u.len(), 3);
    assert_eq!(arbitrary_string(&mut Unstructured::new(&[]), 10).unwrap(), "");
}

#[test]
fn numbers_from_data() {
    fn of(data: &[u8]) -> Float64 {
        arbitrary_f64(&mut Unstructured::new(data)).unwrap()
    }
    assert_eq!(of(&[0]), Float64::Nan);
    assert_eq!(of(&[1]), Float64::Infinity);
    assert_eq!(of(&[2]), Float64::NegInfinity);
    assert_eq!(of(&[3]), Float64::NegZero);
    assert_eq!(of(&[4]), Float64::Zero);
    assert_eq!(of(&[5]), Float64::Max);
    assert_eq!(of(&[6]), Float64::Min);
    assert_eq!(of(&[7]), Float64::MinPositive);
    assert_eq!(of(&[8]), Float64::Bits(1));
    assert_eq!(of(&[9, 1, 2, 0, 0, 0, 0, 0, 0x80]), Float64::Bits(0x8000_0000_0000_0201));
    assert_eq!(of(&[12]), Float64::Nan);
}

#[test]
fn observations_from_data() {
    fn of(data: &[u8]) -> FuzzObservation {
        FuzzObservation::arbitrary(&mut Unstructured::new(data)).unwrap()
    }
    assert_eq!(of(&[0, 3]), FuzzObservation::Unsigned(3));
    assert_eq!(of(&[1, 1]), FuzzObservation::Floating(Float64::Infinity));
    assert_eq!(
        of(&[2, 4, 0, 1]),
        FuzzObservation::Repeated { total: Float64::Zero, occurrences: 256 }
    );
    assert_eq!(
        of(&[3, 4, 1, 9]),
        FuzzObservation::Repeated { total: Float64::Zero, occurrences: 0 }
    );
    assert_eq!(
        of(&[3, 4, 2, 9]),
        FuzzObservation::Repeated { total: Float64::Zero, occurrences: 9 }
    );
    assert_eq!(of(&[0, 3]).to_observation(), Observation::Unsigned(3));
    assert_eq!(of(&[1, 1]).to_observation(), Observation::Floating(Float64::Infinity));
    assert_eq!(
        of(&[2, 4, 0, 1]).to_observation(),
        Observation::Repeated { total: Float64::Zero, occurrences: 256 }
    );
}

#[test]
fn units_from_data() {
    let expected = [
        Unit::Unitless,
        Unit::Count,
        Unit::Percent,
        Unit::Second(NegativeScale::Micro),
        Unit::Second(NegativeScale::Milli),
        Unit::Second(NegativeScale::One),
        Unit::Byte(PositiveScale::One),
        Unit::Byte(PositiveScale::Kilo),
        Unit::Byte(PositiveScale::Mega),
        Unit::Bit(PositiveScale::One),
        Unit::Bit(PositiveScale::Kilo),
    ];
    for (tag, unit) in expected.iter().enumerate() {
        let data = [tag as u8 + 11];
        let made = FuzzUnit::arbitrary(&mut Unstructured::new(&data)).unwrap();
        assert_eq!(made.to_unit(), *unit);
    }
}

#[test]
fn flag_modes_from_data() {
    let expected = [
        FuzzMetricFlagMode::Plain,
        FuzzMetricFlagMode::HighStorageResolution,
        FuzzMetricFlagMode::NoMetric,
        FuzzMetricFlagMode::HighThenNoMetric,
        FuzzMetricFlagMode::NoMetricThenHigh,
    ];
    for (tag, mode) in expected.iter().enumerate() {
        let data = [tag as u8];
        assert_eq!(FuzzMetricFlagMode::arbitrary(&mut Unstructured::new(&data)).unwrap(), *mode);
    }
}

#[test]
fn chances_and_indices() {
    let roll = |byte: u8, percent: u8| {
        chance_percent(&mut Unstructured::new(&[byte]), percent).unwrap()
    };
    assert!(!roll(0, 0));
    assert!(roll(99, 100));
    assert!(roll(54, 55));
    assert!(!roll(55, 55));
    assert!(roll(154, 55));
    assert_eq!(choose_index(&mut Unstructured::new(&[17]), 10).unwrap(), 7);
    assert_eq!(choose_index(&mut Unstructured::new(&[17]), 1).unwrap(), 0);
    assert_eq!(choose_index(&mut Unstructured::new(&[1, 2]), 1000).unwrap(), 258);
}

#[test]
fn name_pool_is_reused_replaced_and_extended() {
    let mut pool = vec![String::from("x")];
    // The pool is rolled for and not used; the new name "{" takes the place of "x".
    let mut u = Unstructured::new(&[1, 70, 1, 2, 0, 19]);
    let field = arbitrary_field(&mut u, &mut pool).unwrap();
    assert!(matches!(field, FuzzField::StringProperty { name, .. } if name == "{"));
    assert_eq!(pool, vec!["{"]);
    // The new name "}" is added.
    let mut u = Unstructured::new(&[1, 70, 1, 2, 1, 20]);
    arbitrary_field(&mut u, &mut pool).unwrap();
    assert_eq!(pool, vec!["{", "}"]);
    // The second name is used again.
    let mut u = Unstructured::new(&[1, 69, 1]);
    let field = arbitrary_field(&mut u, &mut pool).unwrap();
    assert!(matches!(field, FuzzField::StringProperty { name, .. } if name == "}"));
    // A full pool stays as it is.
    let mut pool = vec![String::from("x"); 16];
    let mut u = Unstructured::new(&[1, 70, 1, 2, 1, 20]);
    arbitrary_field(&mut u, &mut pool).unwrap();
    assert_eq!(pool, vec![String::from("x"); 16]);
}

#[test]
fn dimension_sets_from_data() {
    let mut u = Unstructured::new(&[5]);
    let dimensions = arbitrary_entry_dimensions(&mut u).unwrap();
    assert_eq!(dimensions.sets, vec![Vec::<String>::new(); 6]);
}

#[test]
fn timestamps_stay_near_the_epoch() {
    let year = 365 * 24 * 3600;
    let after = FuzzTimestamp { before_epoch: false, secs: 500 * year + 3 };
    assert_eq!(after.to_system_time(), SystemTime::UNIX_EPOCH + Duration::from_secs(3));
    let before = FuzzTimestamp { before_epoch: true, secs: 7 };
    assert_eq!(before.to_system_time(), SystemTime::UNIX_EPOCH - Duration::from_secs(7));
    let data = [1, 7];
    let made = FuzzTimestamp::arbitrary(&mut Unstructured::new(&data)).unwrap();
    assert_eq!(made, before);
}

#[test]
fn json_line() {
    assert_eq!(assert_valid_json_line(b"{\"a\":1}\n"), Ok(()));
    assert_eq!(assert_valid_json_line(b"{}"), Err(JsonLineError::MissingNewline));
    assert_eq!(assert_valid_json_line(b""), Err(JsonLineError::MissingNewline));
    assert_eq!(assert_valid_json_line(b"{\n}\n"), Err(JsonLineError::EmbeddedNewline));
    assert_eq!(
        assert_valid_json_line(b"{\n"),
        Err(JsonLineError::Line(JsonFault::InvalidJson))
    );
    assert_eq!(
        assert_valid_json_line(b"[1]\n"),
        Err(JsonLineError::Line(JsonFault::NotAnObject))
    );
    assert_eq!(single_line(b"abc\n"), Ok(&b"abc"[..]));
}

#[test]
fn json_lines() {
    assert_eq!(assert_valid_json_lines(b"{}\n\n{\"a\":[1]}\n"), Ok(()));
    assert_eq!(assert_valid_json_lines(b"{}"), Ok(()));
    assert_eq!(assert_valid_json_lines(b"\n\n"), Err(JsonLinesError::NoDocuments));
    assert_eq!(
        assert_valid_json_lines(b"{}\n\nx\n3\n"),
        Err(JsonLinesError::Document(1, JsonFault::InvalidJson))
    );
    assert_eq!(
        assert_valid_json_lines(b"null\n"),
        Err(JsonLinesError::Document(0, JsonFault::NotAnObject))
    );
    assert_eq!(split_documents(b"\na\n\nbc"), vec![b"a".to_vec(), b"bc".to_vec()]);
}

#[test]
fn json_verdicts() {
    assert_eq!(judge_document(None), Some(JsonFault::InvalidJson));
    assert_eq!(judge_document(Some(JsonKind::Object)), None);
    for kind in
        [JsonKind::Null, JsonKind::Bool, JsonKind::Number, JsonKind::Str, JsonKind::Array]
    {
        assert_eq!(judge_document(Some(kind)), Some(JsonFault::NotAnObject));
    }
    for text in ["null\n", "true\n", "1\n", "\"s\"\n", "[]\n"] {
        assert_eq!(
            assert_valid_json_line(text.as_bytes()),
            Err(JsonLineError::Line(JsonFault::NotAnObject))
        );
    }
    assert_eq!(judge_documents(&vec![]), Err(JsonLinesError::NoDocuments));
    assert_eq!(judge_documents(&vec![Some(JsonKind::Object)]), Ok(()));
}

#[test]
fn own_modes_change_nothing() {
    let data = rich_data();
    let plain = FuzzEntry::arbitrary(&mut Unstructured::new(&data)).unwrap();
    let inner = FuzzEntry::arbitrary(&mut Unstructured::new(&data)).unwrap();
    let own = EmfFuzzEntry {
        inner,
        flag_modes: vec![FuzzMetricFlagMode::NoMetric, FuzzMetricFlagMode::HighThenNoMetric],
    };
    // The mode of the property does not matter, and that of the metric is the one it had.
    assert_eq!(format!("{:?}", own.boxed()), format!("{:?}", plain.boxed()));
}

#[test]
fn modes_matter_to_metrics_alone() {
    let data = rich_data();
    let written = |mode: FuzzMetricFlagMode| {
        let inner = FuzzEntry::arbitrary(&mut Unstructured::new(&data)).unwrap();
        EmfFuzzEntry { inner, flag_modes: vec![mode, mode] }.boxed()
    };
    let a = written(FuzzMetricFlagMode::Plain);
    let b = written(FuzzMetricFlagMode::NoMetricThenHigh);
    for at in 0..4 {
        assert_eq!(format!("{:?}", a.calls()[at]), format!("{:?}", b.calls()[at]));
    }
    assert_ne!(format!("{:?}", a.calls()[4]), format!("{:?}", b.calls()[4]));
}

#[test]
fn configs_are_bounded_and_leave_the_rest() {
    for seed in 0..=255u8 {
        let data: Vec<u8> =
            (0..4_000u32).map(|i| (i.wrapping_mul(2654435761) >> 13) as u8 ^ seed).collect();
        let mut u = Unstructured::new(&data);
        let config = FuzzEmfConfig::arbitrary(&mut u).unwrap();
        assert!(config.namespace.chars().count() <= 48);
        assert!((1..=4).contains(&config.default_dimensions.len()));
        for set in &config.default_dimensions {
            assert!(set.len() <= 4);
            assert!(set.iter().all(|name| name.chars().count() <= 32));
        }
        let rest = u.take_rest();
        assert!(data.ends_with(rest));
    }
}

#[test]
fn inputs_from_data() {
    let mut data = rich_data();
    data.extend([1, 0]);
    data.extend(9u64.to_le_bytes());
    data.extend([0, 0, 0]);
    // The settings: namespace "[", and one set without names.
    data.extend([1, 2, 2, 0, 0, 0, 0, 1]);
    data.extend([7, 8]);

    let (first, second, mut u) = entries_from(&data).unwrap();
    assert_eq!(first.fields.len(), 2);
    assert_eq!(second.timestamps, vec![FuzzTimestamp { before_epoch: false, secs: 9 }]);
    assert!(second.fields.is_empty());
    assert_eq!(u.arbitrary::<u8>().unwrap(), 1);

    let (first, second, config, u) = inputs_from(&data).unwrap();
    assert_eq!(first.fields.len(), 2);
    assert_eq!(second.timestamps, vec![FuzzTimestamp { before_epoch: false, secs: 9 }]);
    assert_eq!(config.namespace, "[");
    assert_eq!(config.default_dimensions, vec![Vec::<String>::new()]);
    assert!(config.allow_ignored_dimensions);
    assert_eq!(u.take_rest(), &[7, 8]);
}
