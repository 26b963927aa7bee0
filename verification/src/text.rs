//! Small operations on text.
use std::borrow::Cow;
use vstd::prelude::*;

verus! {

/// [`String::push`] appends a character to the end of the string.
pub assume_specification[ String::push ](s: &mut String, c: char)
    ensures
        final(s)@ == old(s)@.push(c),
;

/// A string slice becomes a borrowed [`Cow`] of the same text.
pub assume_specification<'a>[ <Cow<'a, str> as From<&'a str>>::from ](s: &'a str) -> (res: Cow<'a, str>)
    ensures
        res@ == s@,
;

/// A string becomes an owned [`Cow`] of the same text.
pub assume_specification<'a>[ <Cow<'a, str> as From<String>>::from ](s: String) -> (res: Cow<'a, str>)
    ensures
        res@ == s@,
;

/// Borrows the text of a [`Cow`].
pub fn cow_str<'b>(cow: &'b Cow<'static, str>) -> (r: &'b str)
    ensures
        r@ == cow@,
{
    match cow {
        Cow::Borrowed(s) => *s,
        Cow::Owned(s) => s.as_str(),
    }
}

} // verus!
