//! What fuzzing the embedded metric format (EMF) adds: flags for each metric of an entry, and
//! the settings of the formatter.
use crate::entry::{self, Entry, EntryCallView, EntryWriter};
use crate::fuzz::generate::{self, arbitrary_string, arbitrary_strings, entries_from};
use crate::fuzz::source::{self, take_bool, take_u8};
use crate::fuzz::types::{self, FuzzEntry, FuzzFieldView, FuzzMetricFlagMode};
use crate::fuzz::writing::{self, write_field, write_head};
use arbitrary::Unstructured;
use vstd::prelude::*;

verus! {

/// A fuzzed entry, with other flags for its metrics.
#[derive(Debug)]
pub struct EmfFuzzEntry {
    /// The entry.
    pub inner: FuzzEntry,
    /// One flag mode for each field. A string property ignores its mode; a metric without a mode
    /// has no flag.
    pub flag_modes: Vec<FuzzMetricFlagMode>,
}

/// The mode at position `i`, plain past the end.
pub open spec fn mode_at(modes: Seq<FuzzMetricFlagMode>, i: int) -> FuzzMetricFlagMode {
    if 0 <= i < modes.len() {
        modes[i]
    } else {
        FuzzMetricFlagMode::Plain
    }
}

/// The calls that the fields of an entry make, the one at position `i` with the flags of the mode
/// at that position.
pub open spec fn indexed_mode_calls(
    fields: Seq<FuzzFieldView>,
    modes: Seq<FuzzMetricFlagMode>,
) -> Seq<EntryCallView> {
    Seq::new(fields.len(), |i: int| writing::field_call(fields[i], mode_at(modes, i)))
}

/// Configuration and timestamps are written as the inner entry writes them; its fields with the
/// flags that stand here.
impl Entry for EmfFuzzEntry {
    open spec fn content(&self) -> Seq<EntryCallView> {
        writing::head_calls(self.inner) + indexed_mode_calls(
            types::field_views(self.inner.fields@),
            self.flag_modes@,
        )
    }

    fn write<W: EntryWriter>(&self, writer: &mut W) {
        write_head(&self.inner, writer);
        let ghost start = writer.written();
        let ghost all = indexed_mode_calls(
            types::field_views(self.inner.fields@),
            self.flag_modes@,
        );
        let mut i: usize = 0;
        while i < self.inner.fields.len()
            invariant
                i <= self.inner.fields@.len(),
                all == indexed_mode_calls(
                    types::field_views(self.inner.fields@),
                    self.flag_modes@,
                ),
                writer.written() == start + all.take(i as int),
            decreases self.inner.fields@.len() - i,
        {
            let mode = if i < self.flag_modes.len() {
                self.flag_modes[i]
            } else {
                FuzzMetricFlagMode::Plain
            };
            write_field(&self.inner.fields[i], mode, writer);
            proof {
                assert(all.take(i + 1) =~= all.take(i as int).push(all[i as int]));
                assert(start + all.take(i + 1) =~= (start + all.take(i as int)).push(
                    all[i as int],
                ));
            }
            i += 1;
        }
        proof {
            assert(all.take(i as int) =~= all);
            assert(writer.written() =~= old(writer).written() + self.content());
        }
    }
}

/// A flag mode, and what is left.
pub open spec fn make_flag_mode(bytes: Seq<u8>) -> (FuzzMetricFlagMode, Seq<u8>) {
    (generate::flag_mode_of(source::byte_at(bytes, 0)), source::after(bytes, 1))
}

/// [`make_flag_mode`] as a value.
pub open spec fn flag_mode_maker() -> spec_fn(Seq<u8>) -> (FuzzMetricFlagMode, Seq<u8>) {
    |bytes: Seq<u8>| make_flag_mode(bytes)
}

impl EmfFuzzEntry {
    /// Gives each field of `inner` a flag mode.
    pub fn with_arbitrary_flags(inner: FuzzEntry, u: &mut Unstructured) -> (r: Self)
        ensures
            r.inner == inner,
            (r.flag_modes@, source::unread(final(u))) == generate::make_many(
                flag_mode_maker(),
                inner.fields@.len(),
                source::unread(old(u)),
            ),
    {
        let mut flag_modes: Vec<FuzzMetricFlagMode> = Vec::new();
        let mut i: usize = 0;
        while i < inner.fields.len()
            invariant
                i <= inner.fields@.len(),
                (flag_modes@, source::unread(u)) == generate::make_many(
                    flag_mode_maker(),
                    i as nat,
                    source::unread(old(u)),
                ),
            decreases inner.fields@.len() - i,
        {
            let mode = match FuzzMetricFlagMode::arbitrary(u) {
                Ok(mode) => mode,
                Err(_) => FuzzMetricFlagMode::Plain,
            };
            flag_modes.push(mode);
            i += 1;
        }
        EmfFuzzEntry { inner, flag_modes }
    }
}

/// How an EMF formatter is set up for a fuzzing run.
#[derive(Debug)]
pub struct FuzzEmfConfig {
    /// The namespace of the metrics.
    pub namespace: String,
    /// The default dimension sets; at least one.
    pub default_dimensions: Vec<Vec<String>>,
    /// A second namespace.
    pub extra_namespace: Option<String>,
    /// The log group.
    pub log_group_name: Option<String>,
    /// Whether dimensions may be ignored.
    pub allow_ignored_dimensions: bool,
}

/// Model of a [`FuzzEmfConfig`].
#[verifier::ext_equal]
pub struct FuzzEmfConfigView {
    pub namespace: Seq<char>,
    pub default_dimensions: Seq<Seq<Seq<char>>>,
    pub extra_namespace: Option<Seq<char>>,
    pub log_group_name: Option<Seq<char>>,
    pub allow_ignored_dimensions: bool,
}

/// The text of an optional string.
pub open spec fn optional_text(s: Option<String>) -> Option<Seq<char>> {
    match s {
        Some(s) => Some(s@),
        None => None,
    }
}

impl View for FuzzEmfConfig {
    type V = FuzzEmfConfigView;

    open spec fn view(&self) -> FuzzEmfConfigView {
        FuzzEmfConfigView {
            namespace: self.namespace@,
            default_dimensions: entry::text_sets(self.default_dimensions@),
            extra_namespace: optional_text(self.extra_namespace),
            log_group_name: optional_text(self.log_group_name),
            allow_ignored_dimensions: self.allow_ignored_dimensions,
        }
    }
}

/// Model of [`arbitrary_optional_string`].
pub open spec fn make_optional_string(bytes: Seq<u8>, max_len: nat) -> (
    Option<Seq<char>>,
    Seq<u8>,
) {
    let rest = source::after(bytes, 1);
    if source::byte_at(bytes, 0) % 2 == 1 {
        let s = generate::make_string(rest, max_len);
        (Some(s.0), s.1)
    } else {
        (None, rest)
    }
}

/// A string of at most `max_len` characters, in one of two cases.
pub fn arbitrary_optional_string(u: &mut Unstructured, max_len: usize) -> (r: Result<
    Option<String>,
    arbitrary::Error,
>)
    ensures
        r is Ok,
        optional_text(r->Ok_0) == make_optional_string(source::unread(old(u)), max_len as nat).0,
        source::unread(final(u)) == make_optional_string(
            source::unread(old(u)),
            max_len as nat,
        ).1,
{
    if take_bool(u)? {
        Ok(Some(arbitrary_string(u, max_len)?))
    } else {
        Ok(None)
    }
}

/// A default dimension set: at most four names of at most 32 characters.
pub open spec fn make_default_set(bytes: Seq<u8>) -> (Seq<Seq<char>>, Seq<u8>) {
    generate::make_many(
        generate::string_maker(32),
        (source::byte_at(bytes, 0) % 5) as nat,
        source::after(bytes, 1),
    )
}

/// [`make_default_set`] as a value.
pub open spec fn default_set_maker() -> spec_fn(Seq<u8>) -> (Seq<Seq<char>>, Seq<u8>) {
    |bytes: Seq<u8>| make_default_set(bytes)
}

/// Model of [`FuzzEmfConfig::arbitrary`].
pub open spec fn make_config(bytes: Seq<u8>) -> (FuzzEmfConfigView, Seq<u8>) {
    let namespace = generate::make_string(bytes, 48);
    let extra = make_optional_string(namespace.1, 48);
    let log_group = make_optional_string(extra.1, 64);
    let sets = generate::make_many(
        default_set_maker(),
        (source::byte_at(log_group.1, 0) % 4) as nat + 1,
        source::after(log_group.1, 1),
    );
    (
        FuzzEmfConfigView {
            namespace: namespace.0,
            default_dimensions: sets.0,
            extra_namespace: extra.0,
            log_group_name: log_group.0,
            allow_ignored_dimensions: source::byte_at(sets.1, 0) % 2 == 1,
        },
        source::after(sets.1, 1),
    )
}

impl FuzzEmfConfig {
    /// Settings with at least one default dimension set, as EMF is commonly set up.
    pub fn arbitrary(u: &mut Unstructured) -> (r: Result<Self, arbitrary::Error>)
        ensures
            r is Ok,
            r->Ok_0@ == make_config(source::unread(old(u))).0,
            source::unread(final(u)) == make_config(source::unread(old(u))).1,
            r->Ok_0.default_dimensions@.len() >= 1,
    {
        let namespace = arbitrary_string(u, 48)?;
        let extra_namespace = arbitrary_optional_string(u, 48)?;
        let log_group_name = arbitrary_optional_string(u, 64)?;
        let set_count: u8 = (take_u8(u)? % 4) + 1;
        let ghost start = source::unread(u);
        let mut default_dimensions: Vec<Vec<String>> = Vec::new();
        let mut i: u8 = 0;
        proof {
            assert(entry::text_sets(default_dimensions@) =~= Seq::<Seq<Seq<char>>>::empty());
        }
        while i < set_count
            invariant
                i <= set_count,
                default_dimensions@.len() == i,
                (entry::text_sets(default_dimensions@), source::unread(u)) == generate::make_many(
                    default_set_maker(),
                    i as nat,
                    start,
                ),
            decreases set_count - i,
        {
            let dim_count = take_u8(u)? % 5;
            let dims = arbitrary_strings(u, dim_count as usize, 32)?;
            let ghost before = default_dimensions@;
            default_dimensions.push(dims);
            proof {
                assert(entry::text_sets(default_dimensions@) =~= entry::text_sets(before).push(
                    entry::texts(dims@),
                ));
            }
            i += 1;
        }
        let allow_ignored_dimensions = take_bool(u)?;
        Ok(
            FuzzEmfConfig {
                namespace,
                default_dimensions,
                extra_namespace,
                log_group_name,
                allow_ignored_dimensions,
            },
        )
    }
}

/// The two entries with which an EMF formatter is fuzzed, its settings, and the source of what is
/// left of `data`. Each is made from the bytes that the one before it left.
pub fn inputs_from(data: &[u8]) -> (r: Result<
    (FuzzEntry, FuzzEntry, FuzzEmfConfig, Unstructured<'_>),
    arbitrary::Error,
>)
    ensures
        r is Ok,
        r->Ok_0.0@ == generate::make_entry(data@).0,
        r->Ok_0.1@ == generate::make_entry(generate::make_entry(data@).1).0,
        ({
            let made = make_config(generate::make_entry(generate::make_entry(data@).1).1);
            r->Ok_0.2@ == made.0 && source::unread(&r->Ok_0.3) == made.1
        }),
{
    let (first, second, mut u) = entries_from(data)?;
    let config = FuzzEmfConfig::arbitrary(&mut u)?;
    Ok((first, second, config, u))
}

/// What an EMF formatter is built from.
#[derive(Debug)]
pub struct EmfSettings {
    /// The namespaces, the main one first.
    pub namespaces: Vec<String>,
    /// The default dimension sets.
    pub default_dimensions: Vec<Vec<String>>,
    /// Whether dimensions may be ignored.
    pub allow_ignored_dimensions: bool,
    /// The log group.
    pub log_group_name: Option<String>,
}

/// The formatter that `config` describes: a second namespace follows the first, and everything
/// else is taken over.
pub fn build_emf(config: &FuzzEmfConfig) -> (r: EmfSettings)
    ensures
        entry::texts(r.namespaces@) == (match config@.extra_namespace {
            Some(extra) => seq![config@.namespace, extra],
            None => seq![config@.namespace],
        }),
        entry::text_sets(r.default_dimensions@) == config@.default_dimensions,
        r.allow_ignored_dimensions == config.allow_ignored_dimensions,
        optional_text(r.log_group_name) == config@.log_group_name,
{
    let mut namespaces: Vec<String> = Vec::new();
    namespaces.push(config.namespace.clone());
    if let Some(extra) = &config.extra_namespace {
        namespaces.push(extra.clone());
        proof {
            assert(entry::texts(namespaces@) =~= seq![config.namespace@, extra@]);
        }
    } else {
        proof {
            assert(entry::texts(namespaces@) =~= seq![config.namespace@]);
        }
    }
    let log_group_name = match &config.log_group_name {
        Some(name) => Some(name.clone()),
        None => None,
    };
    EmfSettings {
        namespaces,
        default_dimensions: entry::clone_string_sets(&config.default_dimensions),
        allow_ignored_dimensions: config.allow_ignored_dimensions,
        log_group_name,
    }
}

} // verus!
