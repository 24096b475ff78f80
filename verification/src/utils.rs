//! Attribute helpers: recognizing the representation hint of a source
//! declaration.

use vstd::prelude::*;
use crate::ast::Attribute;

verus! {

/// An attribute is a representation hint when its path is `repr`.
pub open spec fn is_repr(a: Attribute) -> bool {
    a.path@ == "repr"@
}

/// `r` is the first representation hint among `attrs`, or `None` when the
/// list carries none.
pub open spec fn is_first_repr(r: Option<Attribute>, attrs: Seq<Attribute>) -> bool {
    match r {
        Some(a) => exists|i: int|
            0 <= i < attrs.len() && attrs[i] == a && #[trigger] is_repr(attrs[i]) && (forall|j: int|
                0 <= j < i ==> !is_repr(#[trigger] attrs[j])),
        None => forall|i: int| 0 <= i < attrs.len() ==> !is_repr(#[trigger] attrs[i]),
    }
}

impl Attribute {
    /// Returns `true` if the attribute is a `#[repr(..)]` attribute.
    pub fn is_repr_attribute(&self) -> (r: bool)
        ensures
            r == is_repr(*self),
    {
        self.path == String::from_str("repr")
    }

    /// Returns `Some` if the attribute is a `#[repr(..)]` attribute.
    pub fn filter_repr(&self) -> (r: Option<&Attribute>)
        ensures
            is_repr(*self) ==> r == Some(self),
            !is_repr(*self) ==> r is None,
    {
        if self.is_repr_attribute() {
            return Some(self);
        }
        None
    }
}

} // verus!
