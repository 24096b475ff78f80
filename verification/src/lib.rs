//! Derivation of borrowed companion views for enumerated types.
//!
//! Given a parsed `enum` declaration, the library derives two companion
//! declarations: a shared view whose variants borrow every field read-only,
//! and an exclusive view whose variants borrow every field read-write.
//! The derivation is a pure transformation over a model of the parsed
//! declaration; rendering the result back into host-language tokens is left
//! to the caller.

use vstd::prelude::*;

pub mod ast;
pub mod derive;
pub mod names;
pub mod utils;

verus! {

/// Trait implemented by `enum` types for shared access.
///
/// This trait usually is implemented via the `EnumRef` derivation.
pub trait EnumRef {
    /// A wrapper type around `Self` for shared access.
    type Ref<'a> where Self: 'a;

    /// Returns a shared reference wrapper to `self`.
    fn as_ref(&self) -> Self::Ref<'_>;
}

/// Trait implemented by `enum` types for exclusive access.
///
/// This trait usually is implemented via the `EnumMut` derivation.
pub trait EnumMut {
    /// A wrapper type around `Self` for exclusive access.
    type Mut<'a> where Self: 'a;

    /// Returns an exclusive reference wrapper to `self`.
    fn as_mut(&mut self) -> Self::Mut<'_>;
}

} // verus!
