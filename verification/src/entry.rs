//! Metric entries: a timestamp, some configuration and a list of named values.
//!
//! An [`Entry`] describes itself to an [`EntryWriter`]. As with values, an entry is modelled by
//! the calls that it makes.
use crate::value::{self, RecordedValue, Value, ValueCallView};
use vstd::prelude::*;

verus! {

/// A point in time, given by its distance from the Unix epoch.
#[derive(Debug, Clone, Copy, PartialEq, Eq, Structural)]
pub struct UnixTime {
    /// Whether the time lies before the epoch.
    pub before_epoch: bool,
    /// Distance from the epoch, in whole seconds.
    pub secs: u64,
    /// What is to be added to that distance, in nanoseconds.
    pub nanos: u32,
}

/// The sets of dimensions by which an entry is aggregated.
#[derive(Debug, Clone)]
pub struct EntryDimensions {
    /// Each set holds the names of its dimensions.
    pub sets: Vec<Vec<String>>,
}

/// The texts of a list of strings.
pub open spec fn texts(strings: Seq<String>) -> Seq<Seq<char>> {
    strings.map_values(|s: String| s@)
}

/// The texts of a list of lists of strings.
pub open spec fn text_sets(sets: Seq<Vec<String>>) -> Seq<Seq<Seq<char>>> {
    sets.map_values(|set: Vec<String>| texts(set@))
}

impl View for EntryDimensions {
    type V = Seq<Seq<Seq<char>>>;

    open spec fn view(&self) -> Seq<Seq<Seq<char>>> {
        text_sets(self.sets@)
    }
}

/// Configuration that an entry hands to the formatter.
#[derive(Debug, Clone)]
pub enum EntryConfig {
    /// The entry may be written as several.
    AllowSplitEntries,
    /// The dimension sets of the entry.
    EntryDimensions(EntryDimensions),
}

/// Model of an [`EntryConfig`].
#[verifier::ext_equal]
pub enum EntryConfigView {
    /// The entry may be written as several.
    AllowSplitEntries,
    /// The dimension sets of the entry.
    EntryDimensions(Seq<Seq<Seq<char>>>),
}

impl View for EntryConfig {
    type V = EntryConfigView;

    open spec fn view(&self) -> EntryConfigView {
        match *self {
            EntryConfig::AllowSplitEntries => EntryConfigView::AllowSplitEntries,
            EntryConfig::EntryDimensions(d) => EntryConfigView::EntryDimensions(d@),
        }
    }
}

/// Copies a list of strings.
pub fn clone_strings(strings: &Vec<String>) -> (r: Vec<String>)
    ensures
        r@ == strings@,
{
    let mut r: Vec<String> = Vec::new();
    let mut i: usize = 0;
    while i < strings.len()
        invariant
            i <= strings@.len(),
            r@ == strings@.take(i as int),
        decreases strings@.len() - i,
    {
        r.push(strings[i].clone());
        proof {
            assert(strings@.take(i + 1) =~= strings@.take(i as int).push(strings@[i as int]));
        }
        i += 1;
    }
    proof {
        assert(strings@.take(i as int) =~= strings@);
    }
    r
}

/// Copies a list of lists of strings.
pub fn clone_string_sets(sets: &Vec<Vec<String>>) -> (r: Vec<Vec<String>>)
    ensures
        text_sets(r@) == text_sets(sets@),
{
    let mut r: Vec<Vec<String>> = Vec::new();
    let mut i: usize = 0;
    while i < sets.len()
        invariant
            i <= sets@.len(),
            text_sets(r@) == text_sets(sets@).take(i as int),
        decreases sets@.len() - i,
    {
        let set = clone_strings(&sets[i]);
        let ghost before = r@;
        r.push(set);
        proof {
            let all = text_sets(sets@);
            assert(all.take(i + 1) =~= all.take(i as int).push(all[i as int]));
            assert(text_sets(r@) =~= text_sets(before).push(texts(set@)));
        }
        i += 1;
    }
    proof {
        assert(text_sets(sets@).take(i as int) =~= text_sets(sets@));
    }
    r
}

impl EntryConfig {
    /// Copies the configuration.
    pub fn duplicate(&self) -> (r: EntryConfig)
        ensures
            r@ == self@,
    {
        match self {
            EntryConfig::AllowSplitEntries => EntryConfig::AllowSplitEntries,
            EntryConfig::EntryDimensions(d) => EntryConfig::EntryDimensions(
                EntryDimensions { sets: clone_string_sets(&d.sets) },
            ),
        }
    }
}

/// A call to an [`EntryWriter`], as data.
#[derive(Debug, Clone)]
pub enum EntryCall {
    /// [`EntryWriter::timestamp`].
    Timestamp(UnixTime),
    /// [`EntryWriter::value`].
    Value(String, RecordedValue),
    /// [`EntryWriter::config`].
    Config(EntryConfig),
}

/// Model of an [`EntryCall`].
#[verifier::ext_equal]
pub enum EntryCallView {
    /// The entry's time.
    Timestamp(UnixTime),
    /// A field: its name, and what its value writes.
    Value(Seq<char>, Seq<ValueCallView>),
    /// Configuration.
    Config(EntryConfigView),
}

impl View for EntryCall {
    type V = EntryCallView;

    open spec fn view(&self) -> EntryCallView {
        match *self {
            EntryCall::Timestamp(t) => EntryCallView::Timestamp(t),
            EntryCall::Value(name, value) => EntryCallView::Value(name@, value::value_calls(value.calls@)),
            EntryCall::Config(c) => EntryCallView::Config(c@),
        }
    }
}

/// The models of a list of calls.
pub open spec fn entry_calls(calls: Seq<EntryCall>) -> Seq<EntryCallView> {
    calls.map_values(|c: EntryCall| c@)
}

/// Receives what an [`Entry`] has to say.
pub trait EntryWriter {
    /// The calls made so far, oldest first.
    open spec fn written(&self) -> Seq<EntryCallView> {
        Seq::empty()
    }

    /// Takes the entry's time.
    fn timestamp(&mut self, timestamp: UnixTime)
        ensures
            final(self).written() == old(self).written().push(EntryCallView::Timestamp(timestamp)),
    ;

    /// Takes a field.
    fn value<V: Value>(&mut self, name: &str, value: &V)
        ensures
            final(self).written() == old(self).written().push(
                EntryCallView::Value(name@, value.calls()),
            ),
    ;

    /// Takes configuration.
    fn config(&mut self, config: &EntryConfig)
        ensures
            final(self).written() == old(self).written().push(EntryCallView::Config(config@)),
    ;
}

/// Something that can be written out as a metric entry. Entries are "pure": an entry makes the
/// same calls every time it is written.
pub trait Entry: Sized {
    /// The calls that this entry makes.
    open spec fn content(&self) -> Seq<EntryCallView> {
        Seq::empty()
    }

    /// Makes those calls to `writer`.
    fn write<W: EntryWriter>(&self, writer: &mut W)
        ensures
            final(writer).written() == old(writer).written() + self.content(),
    ;

    /// Erases the type of the entry.
    fn boxed(self) -> (r: BoxEntry)
        ensures
            r.content() == self.content(),
    {
        let mut r = BoxEntry::new();
        self.write(&mut r);
        proof {
            assert(Seq::<EntryCallView>::empty() + self.content() =~= self.content());
        }
        r
    }
}

/// An entry of any type: what it wrote, kept so that it can be written again.
#[derive(Debug, Clone)]
pub struct BoxEntry {
    calls: Vec<EntryCall>,
}

impl BoxEntry {
    /// The calls that this entry makes.
    pub closed spec fn content(&self) -> Seq<EntryCallView> {
        entry_calls(self.calls@)
    }

    /// An entry that writes nothing.
    pub fn new() -> (r: Self)
        ensures
            r.content() == Seq::<EntryCallView>::empty(),
    {
        let r = BoxEntry { calls: Vec::new() };
        proof {
            assert(r.content() =~= Seq::<EntryCallView>::empty());
        }
        r
    }

    /// Borrows the calls.
    pub fn calls(&self) -> (r: &Vec<EntryCall>)
        ensures
            entry_calls(r@) == self.content(),
    {
        &self.calls
    }
}

impl EntryWriter for BoxEntry {
    open spec fn written(&self) -> Seq<EntryCallView> {
        self.content()
    }

    fn timestamp(&mut self, timestamp: UnixTime) {
        self.calls.push(EntryCall::Timestamp(timestamp));
        proof {
            assert(self.content() =~= old(self).content().push(
                EntryCallView::Timestamp(timestamp),
            ));
        }
    }

    fn value<V: Value>(&mut self, name: &str, value: &V) {
        let recorded = RecordedValue::of(value);
        self.calls.push(EntryCall::Value(name.to_owned(), recorded));
        proof {
            assert(self.content() =~= old(self).content().push(
                EntryCallView::Value(name@, value.calls()),
            ));
        }
    }

    fn config(&mut self, config: &EntryConfig) {
        self.calls.push(EntryCall::Config(config.duplicate()));
        proof {
            assert(self.content() =~= old(self).content().push(EntryCallView::Config(config@)));
        }
    }
}

impl Entry for BoxEntry {
    open spec fn content(&self) -> Seq<EntryCallView> {
        BoxEntry::content(self)
    }

    fn write<W: EntryWriter>(&self, writer: &mut W) {
        let mut i: usize = 0;
        while i < self.calls.len()
            invariant
                i <= self.calls@.len(),
                writer.written() == old(writer).written() + entry_calls(self.calls@).take(i as int),
            decreases self.calls@.len() - i,
        {
            match &self.calls[i] {
                EntryCall::Timestamp(t) => writer.timestamp(*t),
                EntryCall::Value(name, value) => writer.value(name.as_str(), value),
                EntryCall::Config(c) => writer.config(c),
            }
            proof {
                let all = entry_calls(self.calls@);
                assert(all[i as int] == self.calls@[i as int]@);
                assert(all.take(i + 1) =~= all.take(i as int).push(all[i as int]));
                assert(old(writer).written() + all.take(i + 1) =~= (old(writer).written()
                    + all.take(i as int)).push(all[i as int]));
            }
            i += 1;
        }
        proof {
            let all = entry_calls(self.calls@);
            assert(all.take(i as int) =~= all);
        }
    }
}

} // verus!
