//! The model of a parsed type declaration that the derivation works on.
//!
//! Identifiers, field types and discriminant expressions are kept as the
//! verbatim source text they were written with; the derivation never needs
//! to look inside them, except to compare identifiers for equality.

use vstd::prelude::*;

verus! {

/// One parameter of a generic-parameter list, in the order and kind it was
/// written with.
#[derive(Debug, PartialEq, Eq, Clone)]
pub enum GenericParam {
    /// A lifetime parameter such as `'a`; the name keeps the leading tick.
    Lifetime { name: String },
    /// A type parameter such as `T`.
    TypeParam { name: String },
    /// A const parameter such as `const N: usize`.
    ConstParam { name: String, ty: String },
}

impl GenericParam {
    /// The parameter's identifier.
    pub open spec fn spec_name(&self) -> Seq<char> {
        match self {
            GenericParam::Lifetime { name } => name@,
            GenericParam::TypeParam { name } => name@,
            GenericParam::ConstParam { name, .. } => name@,
        }
    }

    /// Returns the parameter's identifier.
    pub fn name(&self) -> (r: &String)
        ensures
            r@ == self.spec_name(),
    {
        match self {
            GenericParam::Lifetime { name } => name,
            GenericParam::TypeParam { name } => name,
            GenericParam::ConstParam { name, .. } => name,
        }
    }
}

/// A generic-parameter list, in source order.
#[derive(Debug, PartialEq, Eq, Clone)]
pub struct Generics {
    pub params: Vec<GenericParam>,
}

/// A field's type.
#[derive(Debug, PartialEq, Eq)]
pub enum Ty {
    /// A type kept as the verbatim source text it was written with.
    Verbatim(String),
    /// A reference type `&'lt T` or `&'lt mut T`.
    Reference { lifetime: String, mutable: bool, ty: Box<Ty> },
}

/// A named field of a variant.
#[derive(Debug, PartialEq, Eq)]
pub struct NamedField {
    pub name: String,
    pub ty: Ty,
}

/// The field shape of one variant: no fields, positional fields, or named
/// fields. The shape is uniform within a variant, never mixed.
#[derive(Debug, PartialEq, Eq)]
pub enum Fields {
    Unit,
    Unnamed(Vec<Ty>),
    Named(Vec<NamedField>),
}

/// One variant of an enumerated type.
#[derive(Debug, PartialEq, Eq)]
pub struct Variant {
    pub ident: String,
    pub fields: Fields,
    /// The explicit discriminant expression, kept as verbatim source text,
    /// or `None` when the variant's tag is implicit.
    pub discriminant: Option<String>,
}

/// An outer attribute `#[path(args)]` of the declaration.
#[derive(Debug, PartialEq, Eq, Clone)]
pub struct Attribute {
    /// The attribute's path, such as `repr` or `doc`.
    pub path: String,
    /// The attribute's arguments, kept as verbatim source text.
    pub args: String,
}

/// The shape of the declaration's body: only enumerated types are
/// transformed, but the caller may hand any of the three shapes in.
#[derive(Debug, PartialEq, Eq)]
pub enum Data {
    Enum(Vec<Variant>),
    Struct,
    Union,
}

/// A parsed type declaration, as the derivation receives it.
#[derive(Debug, PartialEq, Eq)]
pub struct DeriveInput {
    pub ident: String,
    pub attrs: Vec<Attribute>,
    pub generics: Generics,
    pub data: Data,
    /// An opaque handle to the declaration's source location, chosen by the
    /// caller; a diagnostic carries it back unchanged.
    pub span: u64,
}

/// A diagnostic that replaces the output when the input is rejected.
#[derive(Debug, PartialEq, Eq, Clone)]
pub struct Diagnostic {
    /// The location handle of the offending declaration.
    pub span: u64,
    pub message: String,
}

/// Which of the two borrowed views is being derived.
#[derive(Debug, PartialEq, Eq, Structural, Clone, Copy)]
pub enum ViewKind {
    /// The read-only view: fields become shared borrows.
    Shared,
    /// The read-write view: fields become exclusive borrows.
    Exclusive,
}

/// The bindings of one conversion arm; the same bindings serve as the
/// arm's pattern and as its constructor arguments.
#[derive(Debug, PartialEq, Eq, Clone)]
pub enum ArmFields {
    /// A bare variant name: pattern and constructor are the name alone.
    Unit,
    /// Positional placeholders `_0`, `_1`, ... in declaration order.
    Positional(Vec<String>),
    /// Field-name shorthand bindings, in declaration order.
    Named(Vec<String>),
}

/// One conversion arm: a pattern over the source variant paired with a
/// constructor of the companion variant, both made of the variant name and
/// the same bindings.
#[derive(Debug, PartialEq, Eq, Clone)]
pub struct Arm {
    pub ident: String,
    pub fields: ArmFields,
}

/// The generated companion enumeration declaration.
#[derive(Debug, PartialEq, Eq)]
pub struct CompanionEnum {
    pub ident: String,
    /// The augmented parameter list: the injected scope parameter first,
    /// then the source's parameters in their original order.
    pub generics: Generics,
    /// The representation hint copied from the source, carried only by the
    /// shared view.
    pub repr: Option<Attribute>,
    pub variants: Vec<Variant>,
}

/// The generated implementation of the capability trait for the source
/// type, defining the companion type as its borrowed view.
#[derive(Debug, PartialEq, Eq, Clone)]
pub struct TraitImpl {
    /// Which capability trait is implemented.
    pub view: ViewKind,
    /// The source type's name.
    pub source_ident: String,
    /// The source type's own parameter list, for the implementation header.
    pub source_generics: Generics,
    /// The companion type's name.
    pub companion_ident: String,
    /// The injected scope parameter's identifier.
    pub scope_lifetime: String,
    /// The conversion arms, one per source variant, in source order.
    pub arms: Vec<Arm>,
}

/// Everything one derivation emits: the companion declaration and the
/// capability-trait implementation. The caller wraps both in a lexical
/// scope of their own when rendering, so no synthesized name leaks.
#[derive(Debug, PartialEq, Eq)]
pub struct Expansion {
    pub companion: CompanionEnum,
    pub trait_impl: TraitImpl,
}

/// The terminal output of one derivation: either the emitted declarations,
/// or a single diagnostic in their place.
#[derive(Debug, PartialEq, Eq)]
pub enum Emitted {
    Declarations(Expansion),
    CompileError(Diagnostic),
}

} // verus!
