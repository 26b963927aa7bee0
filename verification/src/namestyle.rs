//! Name styles: how the names of fields are inflected, and which prefix they get.
use crate::concat::{Concatenated, EmptyConstStr, MaybeConstStr};
use crate::private::NameStyleInternal;
use crate::text::cow_str;
use std::borrow::Cow;
use std::marker::PhantomData;
use vstd::prelude::*;

verus! {

/// The four spellings of a name.
#[derive(Debug, Clone, Copy, PartialEq, Eq, Structural)]
#[non_exhaustive]
pub enum DynamicNameStyle {
    /// Keep original field names.
    Identity,
    /// Convert to PascalCase (e.g. `WorkersCount`).
    PascalCase,
    /// Convert to snake_case (e.g. `workers_count`).
    SnakeCase,
    /// Convert to kebab-case (e.g. `workers-count`).
    KebabCase,
}

impl Default for DynamicNameStyle {
    fn default() -> (r: Self)
        ensures
            r == DynamicNameStyle::Identity,
    {
        DynamicNameStyle::Identity
    }
}

/// One of the four spellings of a name, by style.
pub open spec fn spelling<T>(
    style: DynamicNameStyle,
    id: T,
    pascal: T,
    snake: T,
    kebab: T,
) -> T {
    match style {
        DynamicNameStyle::Identity => id,
        DynamicNameStyle::PascalCase => pascal,
        DynamicNameStyle::SnakeCase => snake,
        DynamicNameStyle::KebabCase => kebab,
    }
}

/// Describes how an inflectable entry names its fields: which of the four spellings of a name it
/// takes, and what it puts before it.
pub trait NameStyle: NameStyleInternal {
    /// The same prefix with kebab-case names.
    type KebabCase;

    /// The same prefix with PascalCase names.
    type PascalCase;

    /// The same prefix with snake_case names.
    type SnakeCase;

    /// The spelling that this style takes.
    spec fn style() -> DynamicNameStyle;

    /// What this style puts before a name.
    spec fn prefix() -> Seq<char>;

    /// Names a field: the prefix, followed by the spelling that this style takes.
    fn inflect(id: &str, pascal: &str, snake: &str, kebab: &str) -> (r: String)
        ensures
            r@ == Self::prefix() + spelling(Self::style(), id@, pascal@, snake@, kebab@),
    ;

    /// Inflects an affix: the spelling that this style takes, without the prefix.
    fn inflect_affix<'a>(
        id: &'a str,
        pascal: &'a str,
        snake: &'a str,
        kebab: &'a str,
    ) -> (r: &'a str)
        ensures
            r@ == spelling(Self::style(), id@, pascal@, snake@, kebab@),
    ;
}

/// A style whose prefix can be extended by `T`.
pub trait AppendPrefix<T: MaybeConstStr>: NameStyle {
    /// The same spelling with the longer prefix.
    type Style: NameStyle;
}

/// A style under which the name with these four spellings can be inflected at compile time.
pub trait Inflect<
    ID: MaybeConstStr,
    PASCAL: MaybeConstStr,
    SNAKE: MaybeConstStr,
    KEBAB: MaybeConstStr,
>: NameStyle {
    /// The inflected name, with the prefix.
    type Name: MaybeConstStr;

    /// The inflected name, without the prefix.
    type Affix: MaybeConstStr;
}

/// Puts `prefix` before `name`.
fn prefixed(prefix: Cow<'static, str>, name: &str) -> (r: String)
    ensures
        r@ == prefix@ + name@,
{
    let mut r = cow_str(&prefix).to_owned();
    r.append(name);
    r
}

/// Keeps names as they are.
#[derive(Debug)]
pub struct Identity<PREFIX: MaybeConstStr = EmptyConstStr>(PhantomData<PREFIX>);

impl<PREFIX: MaybeConstStr> NameStyleInternal for Identity<PREFIX> {

}

impl<PREFIX: MaybeConstStr> NameStyle for Identity<PREFIX> {
    type KebabCase = KebabCase<PREFIX>;

    type PascalCase = PascalCase<PREFIX>;

    type SnakeCase = SnakeCase<PREFIX>;

    open spec fn style() -> DynamicNameStyle {
        DynamicNameStyle::Identity
    }

    open spec fn prefix() -> Seq<char> {
        PREFIX::text()
    }

    fn inflect(id: &str, _pascal: &str, _snake: &str, _kebab: &str) -> String {
        prefixed(PREFIX::value(), id)
    }

    fn inflect_affix<'a>(
        id: &'a str,
        _pascal: &'a str,
        _snake: &'a str,
        _kebab: &'a str,
    ) -> &'a str {
        id
    }
}

impl<PREFIX: MaybeConstStr, P: MaybeConstStr> AppendPrefix<P> for Identity<PREFIX> {
    type Style = Identity<Concatenated<PREFIX, P>>;
}

impl<
    PREFIX: MaybeConstStr,
    ID: MaybeConstStr,
    PASCAL: MaybeConstStr,
    SNAKE: MaybeConstStr,
    KEBAB: MaybeConstStr,
> Inflect<ID, PASCAL, SNAKE, KEBAB> for Identity<PREFIX> {
    type Name = Concatenated<PREFIX, ID>;

    type Affix = ID;
}

/// Inflects names to `PascalCase`.
#[derive(Debug)]
pub struct PascalCase<PREFIX: MaybeConstStr = EmptyConstStr>(PhantomData<PREFIX>);

impl<PREFIX: MaybeConstStr> NameStyleInternal for PascalCase<PREFIX> {

}

impl<PREFIX: MaybeConstStr> NameStyle for PascalCase<PREFIX> {
    type KebabCase = KebabCase<PREFIX>;

    type PascalCase = PascalCase<PREFIX>;

    type SnakeCase = SnakeCase<PREFIX>;

    open spec fn style() -> DynamicNameStyle {
        DynamicNameStyle::PascalCase
    }

    open spec fn prefix() -> Seq<char> {
        PREFIX::text()
    }

    fn inflect(_id: &str, pascal: &str, _snake: &str, _kebab: &str) -> String {
        prefixed(PREFIX::value(), pascal)
    }

    fn inflect_affix<'a>(
        _id: &'a str,
        pascal: &'a str,
        _snake: &'a str,
        _kebab: &'a str,
    ) -> &'a str {
        pascal
    }
}

impl<PREFIX: MaybeConstStr, P: MaybeConstStr> AppendPrefix<P> for PascalCase<PREFIX> {
    type Style = PascalCase<Concatenated<PREFIX, P>>;
}

impl<
    PREFIX: MaybeConstStr,
    ID: MaybeConstStr,
    PASCAL: MaybeConstStr,
    SNAKE: MaybeConstStr,
    KEBAB: MaybeConstStr,
> Inflect<ID, PASCAL, SNAKE, KEBAB> for PascalCase<PREFIX> {
    type Name = Concatenated<PREFIX, PASCAL>;

    type Affix = PASCAL;
}

/// Inflects names to `snake_case`.
#[derive(Debug)]
pub struct SnakeCase<PREFIX: MaybeConstStr = EmptyConstStr>(PhantomData<PREFIX>);

impl<PREFIX: MaybeConstStr> NameStyleInternal for SnakeCase<PREFIX> {

}

impl<PREFIX: MaybeConstStr> NameStyle for SnakeCase<PREFIX> {
    type KebabCase = KebabCase<PREFIX>;

    type PascalCase = PascalCase<PREFIX>;

    type SnakeCase = SnakeCase<PREFIX>;

    open spec fn style() -> DynamicNameStyle {
        DynamicNameStyle::SnakeCase
    }

    open spec fn prefix() -> Seq<char> {
        PREFIX::text()
    }

    fn inflect(_id: &str, _pascal: &str, snake: &str, _kebab: &str) -> String {
        prefixed(PREFIX::value(), snake)
    }

    fn inflect_affix<'a>(
        _id: &'a str,
        _pascal: &'a str,
        snake: &'a str,
        _kebab: &'a str,
    ) -> &'a str {
        snake
    }
}

impl<PREFIX: MaybeConstStr, P: MaybeConstStr> AppendPrefix<P> for SnakeCase<PREFIX> {
    type Style = SnakeCase<Concatenated<PREFIX, P>>;
}

impl<
    PREFIX: MaybeConstStr,
    ID: MaybeConstStr,
    PASCAL: MaybeConstStr,
    SNAKE: MaybeConstStr,
    KEBAB: MaybeConstStr,
> Inflect<ID, PASCAL, SNAKE, KEBAB> for SnakeCase<PREFIX> {
    type Name = Concatenated<PREFIX, SNAKE>;

    type Affix = SNAKE;
}

/// Inflects names to `kebab-case`.
#[derive(Debug)]
pub struct KebabCase<PREFIX: MaybeConstStr = EmptyConstStr>(PhantomData<PREFIX>);

impl<PREFIX: MaybeConstStr> NameStyleInternal for KebabCase<PREFIX> {

}

impl<PREFIX: MaybeConstStr> NameStyle for KebabCase<PREFIX> {
    type KebabCase = KebabCase<PREFIX>;

    type PascalCase = PascalCase<PREFIX>;

    type SnakeCase = SnakeCase<PREFIX>;

    open spec fn style() -> DynamicNameStyle {
        DynamicNameStyle::KebabCase
    }

    open spec fn prefix() -> Seq<char> {
        PREFIX::text()
    }

    fn inflect(_id: &str, _pascal: &str, _snake: &str, kebab: &str) -> String {
        prefixed(PREFIX::value(), kebab)
    }

    fn inflect_affix<'a>(
        _id: &'a str,
        _pascal: &'a str,
        _snake: &'a str,
        kebab: &'a str,
    ) -> &'a str {
        kebab
    }
}

impl<PREFIX: MaybeConstStr, P: MaybeConstStr> AppendPrefix<P> for KebabCase<PREFIX> {
    type Style = KebabCase<Concatenated<PREFIX, P>>;
}

impl<
    PREFIX: MaybeConstStr,
    ID: MaybeConstStr,
    PASCAL: MaybeConstStr,
    SNAKE: MaybeConstStr,
    KEBAB: MaybeConstStr,
> Inflect<ID, PASCAL, SNAKE, KEBAB> for KebabCase<PREFIX> {
    type Name = Concatenated<PREFIX, KEBAB>;

    type Affix = KEBAB;
}

/// For all four styles: the inflected name is the prefix followed by the style's spelling, and the
/// inflected affix is that spelling alone.
pub proof fn inflection_is_prefix_and_spelling<
    P: MaybeConstStr,
    ID: MaybeConstStr,
    PASCAL: MaybeConstStr,
    SNAKE: MaybeConstStr,
    KEBAB: MaybeConstStr,
>()
    ensures
        <Identity<P> as Inflect<ID, PASCAL, SNAKE, KEBAB>>::Name::text() == P::text() + ID::text(),
        <PascalCase<P> as Inflect<ID, PASCAL, SNAKE, KEBAB>>::Name::text() == P::text()
            + PASCAL::text(),
        <SnakeCase<P> as Inflect<ID, PASCAL, SNAKE, KEBAB>>::Name::text() == P::text()
            + SNAKE::text(),
        <KebabCase<P> as Inflect<ID, PASCAL, SNAKE, KEBAB>>::Name::text() == P::text()
            + KEBAB::text(),
        <Identity<P> as Inflect<ID, PASCAL, SNAKE, KEBAB>>::Affix::text() == ID::text(),
        <PascalCase<P> as Inflect<ID, PASCAL, SNAKE, KEBAB>>::Affix::text() == PASCAL::text(),
        <SnakeCase<P> as Inflect<ID, PASCAL, SNAKE, KEBAB>>::Affix::text() == SNAKE::text(),
        <KebabCase<P> as Inflect<ID, PASCAL, SNAKE, KEBAB>>::Affix::text() == KEBAB::text(),
{
}

/// Extending the prefix of a style keeps its spelling and puts the addition behind the prefix that
/// it had.
pub proof fn prefixes_accumulate<P: MaybeConstStr, T: MaybeConstStr>()
    ensures
        <Identity<P> as AppendPrefix<T>>::Style::prefix() == P::text() + T::text(),
        <Identity<P> as AppendPrefix<T>>::Style::style() == DynamicNameStyle::Identity,
        <PascalCase<P> as AppendPrefix<T>>::Style::prefix() == P::text() + T::text(),
        <PascalCase<P> as AppendPrefix<T>>::Style::style() == DynamicNameStyle::PascalCase,
        <SnakeCase<P> as AppendPrefix<T>>::Style::prefix() == P::text() + T::text(),
        <SnakeCase<P> as AppendPrefix<T>>::Style::style() == DynamicNameStyle::SnakeCase,
        <KebabCase<P> as AppendPrefix<T>>::Style::prefix() == P::text() + T::text(),
        <KebabCase<P> as AppendPrefix<T>>::Style::style() == DynamicNameStyle::KebabCase,
{
}

/// Going from one style to another keeps the prefix and takes the other's spelling, whichever
/// style one starts from.
pub proof fn restyling_keeps_the_prefix<P: MaybeConstStr>()
    ensures
        <Identity<P> as NameStyle>::PascalCase::prefix() == P::text(),
        <Identity<P> as NameStyle>::PascalCase::style() == DynamicNameStyle::PascalCase,
        <Identity<P> as NameStyle>::SnakeCase::prefix() == P::text(),
        <Identity<P> as NameStyle>::SnakeCase::style() == DynamicNameStyle::SnakeCase,
        <Identity<P> as NameStyle>::KebabCase::prefix() == P::text(),
        <Identity<P> as NameStyle>::KebabCase::style() == DynamicNameStyle::KebabCase,
        <PascalCase<P> as NameStyle>::PascalCase::prefix() == P::text(),
        <PascalCase<P> as NameStyle>::PascalCase::style() == DynamicNameStyle::PascalCase,
        <PascalCase<P> as NameStyle>::SnakeCase::prefix() == P::text(),
        <PascalCase<P> as NameStyle>::SnakeCase::style() == DynamicNameStyle::SnakeCase,
        <PascalCase<P> as NameStyle>::KebabCase::prefix() == P::text(),
        <PascalCase<P> as NameStyle>::KebabCase::style() == DynamicNameStyle::KebabCase,
        <SnakeCase<P> as NameStyle>::PascalCase::prefix() == P::text(),
        <SnakeCase<P> as NameStyle>::PascalCase::style() == DynamicNameStyle::PascalCase,
        <SnakeCase<P> as NameStyle>::SnakeCase::prefix() == P::text(),
        <SnakeCase<P> as NameStyle>::SnakeCase::style() == DynamicNameStyle::SnakeCase,
        <SnakeCase<P> as NameStyle>::KebabCase::prefix() == P::text(),
        <SnakeCase<P> as NameStyle>::KebabCase::style() == DynamicNameStyle::KebabCase,
        <KebabCase<P> as NameStyle>::PascalCase::prefix() == P::text(),
        <KebabCase<P> as NameStyle>::PascalCase::style() == DynamicNameStyle::PascalCase,
        <KebabCase<P> as NameStyle>::SnakeCase::prefix() == P::text(),
        <KebabCase<P> as NameStyle>::SnakeCase::style() == DynamicNameStyle::SnakeCase,
        <KebabCase<P> as NameStyle>::KebabCase::prefix() == P::text(),
        <KebabCase<P> as NameStyle>::KebabCase::style() == DynamicNameStyle::KebabCase,
{
}

} // verus!
