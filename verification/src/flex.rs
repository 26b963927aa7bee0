//! Metric fields whose names are only known at run time.
//!
//! A [`Flex`] holds a key and, possibly, a value. It is useful for user-provided tags,
//! configuration-driven field names, names computed from the request context, and the like.
use crate::close::CloseValue;
use crate::entry::{Entry, EntryCallView, EntryWriter};
use crate::inflect::InflectableEntry;
use crate::namestyle::NameStyle;
use crate::text::cow_str;
use crate::value::Value;
use std::borrow::Cow;
use vstd::prelude::*;

verus! {

/// A field with a dynamic key.
pub struct Flex<T> {
    key: Cow<'static, str>,
    value: Option<T>,
}

impl<T> Flex<T> {
    /// The key.
    pub closed spec fn key_cow(&self) -> Cow<'static, str> {
        self.key
    }

    /// The value, if there is one.
    pub closed spec fn content(&self) -> Option<T> {
        self.value
    }

    /// A field with the given key and no value. Use [`Flex::with_value`] to set the value.
    pub fn new<K: Into<Cow<'static, str>>>(key: K) -> (r: Self)
        ensures
            call_ensures(<K as Into<Cow<'static, str>>>::into, (key,), r.key_cow()),
            r.content() is None,
    {
        Flex { key: key.into(), value: None }
    }

    /// The same field with the given value.
    pub fn with_value(self, value: T) -> (r: Self)
        ensures
            r.key_cow() == self.key_cow(),
            r.content() == Some(value),
    {
        Flex { key: self.key, value: Some(value) }
    }

    /// The same field with the given value, or with none.
    ///
    /// If the value is `None`, the field will not be included in the output.
    pub fn with_optional_value(self, value: Option<T>) -> (r: Self)
        ensures
            r.key_cow() == self.key_cow(),
            r.content() == value,
    {
        Flex { key: self.key, value }
    }

    /// The key.
    pub fn key(&self) -> (r: &str)
        ensures
            r@ == self.key_cow()@,
    {
        cow_str(&self.key)
    }

    /// The value, if there is one.
    pub fn value(&self) -> (r: Option<&T>)
        ensures
            match (r, self.content()) {
                (Some(v), Some(c)) => *v == c,
                (None, None) => true,
                _ => false,
            },
    {
        self.value.as_ref()
    }

    /// Updates the value.
    pub fn set_value(&mut self, value: T)
        ensures
            final(self).key_cow() == old(self).key_cow(),
            final(self).content() == Some(value),
    {
        self.value = Some(value);
    }

    /// Clears the value.
    pub fn clear_value(&mut self)
        ensures
            final(self).key_cow() == old(self).key_cow(),
            final(self).content() is None,
    {
        self.value = None;
    }
}

impl<T: Default> Flex<T> {
    /// The same field with the default value of its type.
    pub fn with_default_value(self) -> (r: Self)
        ensures
            r.key_cow() == self.key_cow(),
            r.content() matches Some(v) && call_ensures(T::default, (), v),
    {
        Flex { key: self.key, value: Some(T::default()) }
    }
}

/// What a [`Flex`] is closed into.
pub struct FlexEntry<T> {
    key: Cow<'static, str>,
    value: Option<T>,
}

impl<T> FlexEntry<T> {
    /// The key.
    pub closed spec fn key_cow(&self) -> Cow<'static, str> {
        self.key
    }

    /// The value, if there is one.
    pub closed spec fn closed_value(&self) -> Option<T> {
        self.value
    }
}

impl<T: Value> FlexEntry<T> {
    /// The call that the field makes.
    pub open spec fn field_call(&self) -> EntryCallView {
        EntryCallView::Value(self.key_cow()@, self.closed_value().calls())
    }

    /// Writes the field.
    fn write_field<W: EntryWriter>(&self, writer: &mut W)
        ensures
            final(writer).written() == old(writer).written() + seq![self.field_call()],
    {
        writer.value(cow_str(&self.key), &self.value);
        proof {
            assert(writer.written() =~= old(writer).written() + seq![self.field_call()]);
        }
    }
}

impl<T: Value> Entry for FlexEntry<T> {
    open spec fn content(&self) -> Seq<EntryCallView> {
        seq![self.field_call()]
    }

    fn write<W: EntryWriter>(&self, writer: &mut W) {
        self.write_field(writer);
    }
}

/// The key is written as it is, whatever the style.
impl<T: Value, NS: NameStyle> InflectableEntry<NS> for FlexEntry<T> {
    open spec fn fields(&self) -> Seq<EntryCallView> {
        seq![self.field_call()]
    }

    fn write<W: EntryWriter>(&self, writer: &mut W) {
        self.write_field(writer);
    }
}

/// The key stays; the value is closed, if there is one.
impl<T: CloseValue> CloseValue for Flex<T> {
    type Closed = FlexEntry<T::Closed>;

    open spec fn closes_to(self, closed: FlexEntry<T::Closed>) -> bool {
        closed.key_cow() == self.key_cow() && self.content().closes_to(closed.closed_value())
    }

    fn close(self) -> FlexEntry<T::Closed> {
        FlexEntry { key: self.key, value: self.value.close() }
    }
}

/// A field without a value writes nothing under its key; one with a value writes that value, once,
/// under the key that it was made with, and under every name style alike.
pub proof fn flex_writes_its_value_under_its_key<T: CloseValue, NS: NameStyle>(
    flex: Flex<T>,
    closed: FlexEntry<T::Closed>,
) where T::Closed: Value
    requires
        flex.closes_to(closed),
    ensures
        <FlexEntry<T::Closed> as InflectableEntry<NS>>::fields(&closed) == Entry::content(&closed),
        match (flex.content(), closed.closed_value()) {
            (Some(v), Some(c)) => v.closes_to(c) && Entry::content(&closed) == seq![
                EntryCallView::Value(flex.key_cow()@, c.calls()),
            ],
            (None, None) => Entry::content(&closed) == seq![
                EntryCallView::Value(flex.key_cow()@, Seq::empty()),
            ],
            _ => false,
        },
{
}

} // verus!
