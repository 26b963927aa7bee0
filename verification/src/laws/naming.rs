//! How fields are named.
use crate::concat::{self, Concatenated, EmptyConstStr, MaybeConstStr};
use crate::entry::{Entry, EntryCallView};
use crate::flex::{Flex, FlexEntry};
use crate::inflect::InflectableEntry;
use crate::namestyle::{
    self, DynamicNameStyle, Identity, KebabCase, NameStyle, PascalCase, SnakeCase,
};
use crate::text;
use crate::value::Value;
use std::borrow::Cow;
use vstd::prelude::*;

verus! {

/// Each style takes its own spelling of the four that a name has, behind its prefix.
pub proof fn styles_take_their_own_spelling<P: MaybeConstStr>(
    id: &str,
    pascal: &str,
    snake: &str,
    kebab: &str,
    r: String,
)
    ensures
        call_ensures(Identity::<P>::inflect, (id, pascal, snake, kebab), r) ==> r@ == P::text()
            + id@,
        call_ensures(PascalCase::<P>::inflect, (id, pascal, snake, kebab), r) ==> r@ == P::text()
            + pascal@,
        call_ensures(SnakeCase::<P>::inflect, (id, pascal, snake, kebab), r) ==> r@ == P::text()
            + snake@,
        call_ensures(KebabCase::<P>::inflect, (id, pascal, snake, kebab), r) ==> r@ == P::text()
            + kebab@,
{
}

/// An affix takes the spelling of the style alone.
pub proof fn affixes_take_the_spelling_alone<P: MaybeConstStr>(
    id: &str,
    pascal: &str,
    snake: &str,
    kebab: &str,
    r: &str,
)
    ensures
        call_ensures(Identity::<P>::inflect_affix, (id, pascal, snake, kebab), r) ==> r@ == id@,
        call_ensures(PascalCase::<P>::inflect_affix, (id, pascal, snake, kebab), r) ==> r@
            == pascal@,
        call_ensures(SnakeCase::<P>::inflect_affix, (id, pascal, snake, kebab), r) ==> r@ == snake@,
        call_ensures(KebabCase::<P>::inflect_affix, (id, pascal, snake, kebab), r) ==> r@ == kebab@,
{
}

/// The styles and their prefixes are what they are called, and the choice among four things goes
/// by the style.
pub proof fn styles_are_what_they_are_called<P: MaybeConstStr, T>(a: T, b: T, c: T, d: T)
    ensures
        Identity::<P>::prefix() == P::text(),
        PascalCase::<P>::prefix() == P::text(),
        SnakeCase::<P>::prefix() == P::text(),
        KebabCase::<P>::prefix() == P::text(),
        namestyle::spelling(Identity::<P>::style(), a, b, c, d) == a,
        namestyle::spelling(PascalCase::<P>::style(), a, b, c, d) == b,
        namestyle::spelling(SnakeCase::<P>::style(), a, b, c, d) == c,
        namestyle::spelling(KebabCase::<P>::style(), a, b, c, d) == d,
        namestyle::spelling(DynamicNameStyle::Identity, a, b, c, d) == a,
        namestyle::spelling(DynamicNameStyle::PascalCase, a, b, c, d) == b,
        namestyle::spelling(DynamicNameStyle::SnakeCase, a, b, c, d) == c,
        namestyle::spelling(DynamicNameStyle::KebabCase, a, b, c, d) == d,
{
}

/// Names known at compile time are made as they are: the empty one, one behind the other, and any
/// other as it stands.
pub proof fn known_names_are_made_as_they_are<A: MaybeConstStr, B: MaybeConstStr>(
    r: Cow<'static, str>,
)
    ensures
        EmptyConstStr::text().len() == 0,
        Concatenated::<A, B>::text() == A::text() + B::text(),
        call_ensures(concat::const_str_value::<A>, (), r) ==> r@ == A::text(),
        call_ensures(concat::const_str_value::<Concatenated<A, B>>, (), r) ==> r@ == A::text()
            + B::text(),
        call_ensures(EmptyConstStr::value, (), r) ==> r@.len() == 0,
{
}

/// What a style names when names are made one after the other is what it names with all of the
/// prefix at once: prefixes can be put together in any order of steps.
pub proof fn prefixes_can_be_put_together<P: MaybeConstStr, Q: MaybeConstStr, R: MaybeConstStr>()
    ensures
        Concatenated::<Concatenated<P, Q>, R>::text() == Concatenated::<P, Concatenated<Q, R>>::text(),
        Concatenated::<EmptyConstStr, P>::text() == P::text(),
        Concatenated::<P, EmptyConstStr>::text() == P::text(),
{
    assert(Concatenated::<Concatenated<P, Q>, R>::text() =~= Concatenated::<
        P,
        Concatenated<Q, R>,
    >::text());
    assert(Concatenated::<EmptyConstStr, P>::text() =~= P::text());
    assert(Concatenated::<P, EmptyConstStr>::text() =~= P::text());
}

/// A field with a dynamic key is written under that key, whatever the style, with the value if
/// there is one.
pub proof fn dynamic_fields_keep_their_key<T: Value, NS: NameStyle>(entry: FlexEntry<T>)
    ensures
        Entry::content(&entry).len() == 1,
        Entry::content(&entry)[0] == EntryCallView::Value(
            entry.key_cow()@,
            match entry.closed_value() {
                Some(value) => value.calls(),
                None => Seq::empty(),
            },
        ),
        InflectableEntry::<NS>::fields(&entry) == Entry::content(&entry),
{
}

/// The key of a dynamic field is the one that it was made with, and nothing but the value changes
/// afterwards.
pub proof fn dynamic_fields_change_their_value_alone<T>(
    flex: Flex<T>,
    value: T,
    optional: Option<T>,
    with_value: Flex<T>,
    with_optional: Flex<T>,
    key: &str,
    held: Option<&T>,
)
    requires
        call_ensures(Flex::<T>::with_value, (flex, value), with_value),
        call_ensures(Flex::<T>::with_optional_value, (flex, optional), with_optional),
        call_ensures(Flex::<T>::key, (&flex,), key),
        call_ensures(Flex::<T>::value, (&flex,), held),
    ensures
        with_value.key_cow() == flex.key_cow(),
        with_value.content() == Some(value),
        with_optional.key_cow() == flex.key_cow(),
        with_optional.content() == optional,
        key@ == flex.key_cow()@,
        held is Some <==> flex.content() is Some,
        held matches Some(v) ==> flex.content() == Some(*v),
{
}

/// Setting and clearing the value of a dynamic field leaves its key.
pub proof fn setting_and_clearing_leave_the_key<T>(
    set: &mut Flex<T>,
    cleared: &mut Flex<T>,
    value: T,
)
    requires
        call_ensures(Flex::<T>::set_value, (set, value), ()),
        call_ensures(Flex::<T>::clear_value, (cleared,), ()),
    ensures
        final(set).content() == Some(value),
        final(set).key_cow() == old(set).key_cow(),
        final(cleared).content() is None,
        final(cleared).key_cow() == old(cleared).key_cow(),
{
}

/// The text of a borrowed or owned string is that text.
pub proof fn borrowed_text_is_the_text(cow: &Cow<'static, str>, r: &str)
    requires
        call_ensures(text::cow_str, (cow,), r),
    ensures
        r@ == cow@,
{
}

} // verus!
