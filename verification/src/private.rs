//! Traits that seal others: they cannot be named outside of this crate.
use crate::close::CloseValue;
use vstd::prelude::*;

verus! {

/// Marks the name styles of this crate; no other type is one.
pub trait NameStyleInternal {

}

/// Marks the types that can be closed by reference.
pub trait Sealed {

}

impl<C, T> Sealed for T where for <'a>&'a T: CloseValue<Closed = C> {

}

} // verus!
