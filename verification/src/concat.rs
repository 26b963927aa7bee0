//! Strings that are known at compile time, and their concatenation.
use crate::text::cow_str;
use std::borrow::Cow;
use std::marker::PhantomData;
use vstd::prelude::*;

verus! {

/// A type that stands for a string.
pub trait MaybeConstStr {
    /// The string.
    open spec fn text() -> Seq<char> {
        Seq::empty()
    }

    /// Makes the string.
    fn value() -> (r: Cow<'static, str>)
        ensures
            r@ == Self::text(),
    ;
}

/// The string that `S` stands for.
pub fn const_str_value<S: MaybeConstStr>() -> (r: Cow<'static, str>)
    ensures
        r@ == S::text(),
{
    S::value()
}

/// Stands for the empty string.
#[derive(Debug, Clone, Copy)]
pub struct EmptyConstStr;

impl MaybeConstStr for EmptyConstStr {
    open spec fn text() -> Seq<char> {
        Seq::empty()
    }

    fn value() -> Cow<'static, str> {
        proof {
            reveal_strlit("");
        }
        assert(""@ =~= Seq::empty());
        Cow::from("")
    }
}

/// Stands for the string of `A`, followed by that of `B`.
#[derive(Debug)]
pub struct Concatenated<A, B>(PhantomData<(A, B)>);

impl<A: MaybeConstStr, B: MaybeConstStr> MaybeConstStr for Concatenated<A, B> {
    open spec fn text() -> Seq<char> {
        A::text() + B::text()
    }

    fn value() -> Cow<'static, str> {
        let a = A::value();
        let b = B::value();
        let mut s = cow_str(&a).to_owned();
        s.append(cow_str(&b));
        Cow::from(s)
    }
}

} // verus!
