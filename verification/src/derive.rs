//! The derivation pipeline: classify the input, inject the scope
//! parameter, transform the variants, generate the conversion arms, and
//! assemble the emitted declarations.

use vstd::prelude::*;
use crate::ast::{
    Arm, ArmFields, Attribute, CompanionEnum, Data, DeriveInput, Diagnostic, Emitted, Expansion,
    Fields, GenericParam, Generics, NamedField, TraitImpl, Ty, Variant, ViewKind,
};
use crate::names::{
    companion_ident, fresh_in, is_scope_name, lemma_param_name_len_bound,
    lemma_scope_name_unchanged_when_fresh, max_param_name_len, placeholder_ident,
    placeholder_name, scope_lifetime_base,
};
use crate::utils::{is_first_repr, is_repr};

verus! {

/// The diagnostic message for a structure-shaped input.
pub open spec fn struct_message() -> Seq<char> {
    "derive(EnumRef) only works on `enum` types but found struct"@
}

/// The diagnostic message for a union-shaped input.
pub open spec fn union_message() -> Seq<char> {
    "derive(EnumRef) only works on `enum` types but found union"@
}

/// `r` is `orig` behind a borrow scoped to the lifetime named `lt`,
/// read-write exactly when `mutable` holds.
pub open spec fn is_borrow_of(r: Ty, orig: Ty, lt: Seq<char>, mutable: bool) -> bool {
    match r {
        Ty::Reference { lifetime, mutable: m, ty } => {
            &&& lifetime@ == lt
            &&& m == mutable
            &&& *ty == orig
        },
        _ => false,
    }
}

/// The transformed fields `r` mirror the source fields `orig` exactly:
/// same shape, same order, same names, each type replaced by its borrow.
pub open spec fn fields_are_borrows(r: Fields, orig: Fields, lt: Seq<char>, mutable: bool) -> bool {
    match orig {
        Fields::Unit => r == Fields::Unit,
        Fields::Unnamed(tys) => match r {
            Fields::Unnamed(rt) => {
                &&& rt@.len() == tys@.len()
                &&& forall|i: int|
                    0 <= i < tys@.len() ==> is_borrow_of(#[trigger] rt@[i], tys@[i], lt, mutable)
            },
            _ => false,
        },
        Fields::Named(fs) => match r {
            Fields::Named(rf) => {
                &&& rf@.len() == fs@.len()
                &&& forall|i: int|
                    0 <= i < fs@.len() ==> (#[trigger] rf@[i]).name@ == fs@[i].name@
                        && is_borrow_of(rf@[i].ty, fs@[i].ty, lt, mutable)
            },
            _ => false,
        },
    }
}

/// The companion variant `r` derived from the source variant `orig` for
/// the given view kind: identical name, fields borrowed under `lt`, and
/// the explicit discriminant kept on the shared view only.
pub open spec fn is_view_variant(r: Variant, orig: Variant, lt: Seq<char>, kind: ViewKind) -> bool {
    &&& r.ident@ == orig.ident@
    &&& fields_are_borrows(r.fields, orig.fields, lt, kind == ViewKind::Exclusive)
    &&& r.discriminant == (if kind == ViewKind::Shared {
        orig.discriminant
    } else {
        None::<String>
    })
}

/// The conversion arm `a` generated for the source variant `v`: the bare
/// variant name for a unit variant, placeholder bindings `_0`, `_1`, ...
/// for positional fields, and field-name shorthand for named fields.
pub open spec fn is_arm_for(a: Arm, v: Variant) -> bool {
    &&& a.ident@ == v.ident@
    &&& match v.fields {
        Fields::Unit => a.fields == ArmFields::Unit,
        Fields::Unnamed(tys) => match a.fields {
            ArmFields::Positional(bs) => {
                &&& bs@.len() == tys@.len()
                &&& forall|i: int|
                    0 <= i < tys@.len() ==> (#[trigger] bs@[i])@ == placeholder_name(i as nat)
            },
            _ => false,
        },
        Fields::Named(fs) => match a.fields {
            ArmFields::Named(bs) => {
                &&& bs@.len() == fs@.len()
                &&& forall|i: int| 0 <= i < fs@.len() ==> (#[trigger] bs@[i])@ == fs@[i].name@
            },
            _ => false,
        },
    }
}

/// Everything a successful derivation promises of its output: for a source
/// declaration with N variants, exactly one companion declaration with the
/// same N variants in order, transformed for the view kind, under the
/// augmented parameter list with the fresh scope parameter first; and one
/// exhaustive conversion with exactly one arm per source variant, in
/// source order.
pub open spec fn expansion_matches(e: Expansion, input: DeriveInput, kind: ViewKind) -> bool
    recommends
        input.data is Enum,
{
    let vs = input.data->Enum_0@;
    let lt = e.trait_impl.scope_lifetime;
    &&& e.companion.ident@ == companion_ident(input.ident@, kind)
    &&& e.companion.generics.params@.len() == input.generics.params@.len() + 1
    &&& e.companion.generics.params@[0] == (GenericParam::Lifetime { name: lt })
    &&& (forall|i: int|
        0 <= i < input.generics.params@.len() ==> e.companion.generics.params@[i + 1]
            == #[trigger] input.generics.params@[i])
    &&& is_scope_name(lt@, input.generics.params@)
    &&& (kind == ViewKind::Shared ==> is_first_repr(e.companion.repr, input.attrs@))
    &&& (kind == ViewKind::Exclusive ==> e.companion.repr is None)
    &&& e.companion.variants@.len() == vs.len()
    &&& (forall|i: int|
        0 <= i < vs.len() ==> is_view_variant(#[trigger] e.companion.variants@[i], vs[i], lt@, kind))
    &&& e.trait_impl.view == kind
    &&& e.trait_impl.source_ident@ == input.ident@
    &&& e.trait_impl.source_generics.params@ == input.generics.params@
    &&& e.trait_impl.companion_ident@ == e.companion.ident@
    &&& e.trait_impl.arms@.len() == vs.len()
    &&& (forall|i: int| 0 <= i < vs.len() ==> is_arm_for(#[trigger] e.trait_impl.arms@[i], vs[i]))
}

/// What one derivation returns: the emitted declarations exactly when the
/// input is an enumerated type, and otherwise a single diagnostic carrying
/// the input's own location and a message naming the shape found.
pub open spec fn derive_result_matches(
    r: Result<Expansion, Diagnostic>,
    input: DeriveInput,
    kind: ViewKind,
) -> bool {
    match r {
        Ok(e) => input.data is Enum && expansion_matches(e, input, kind),
        Err(d) => {
            &&& !(input.data is Enum)
            &&& d.span == input.span
            &&& d.message@ == (if input.data is Struct {
                struct_message()
            } else {
                union_message()
            })
        },
    }
}

/// Sanitizes the input to the derivations: accepts an enumerated type and
/// rejects a structure or union shape with a diagnostic at the input's own
/// location.
pub fn extract_enum(input: &DeriveInput) -> (r: Result<&Vec<Variant>, Diagnostic>)
    ensures
        match r {
            Ok(vs) => input.data is Enum && vs@ == input.data->Enum_0@,
            Err(d) => {
                &&& !(input.data is Enum)
                &&& d.span == input.span
                &&& d.message@ == (if input.data is Struct {
                    struct_message()
                } else {
                    union_message()
                })
            },
        },
{
    match &input.data {
        Data::Enum(vs) => Ok(vs),
        Data::Struct => Err(
            Diagnostic {
                span: input.span,
                message: String::from_str(
                    "derive(EnumRef) only works on `enum` types but found struct",
                ),
            },
        ),
        Data::Union => Err(
            Diagnostic {
                span: input.span,
                message: String::from_str(
                    "derive(EnumRef) only works on `enum` types but found union",
                ),
            },
        ),
    }
}

/// Returns a copy of the attribute, equal to the original.
fn copy_attr(a: &Attribute) -> (r: Attribute)
    ensures
        r == *a,
{
    Attribute { path: a.path.clone(), args: a.args.clone() }
}

/// Returns a copy of the generic parameter, equal to the original.
fn copy_param(p: &GenericParam) -> (r: GenericParam)
    ensures
        r == *p,
{
    match p {
        GenericParam::Lifetime { name } => GenericParam::Lifetime { name: name.clone() },
        GenericParam::TypeParam { name } => GenericParam::TypeParam { name: name.clone() },
        GenericParam::ConstParam { name, ty } => GenericParam::ConstParam {
            name: name.clone(),
            ty: ty.clone(),
        },
    }
}

/// Returns a copy of the type, equal to the original.
fn copy_ty(t: &Ty) -> (r: Ty)
    ensures
        r == *t,
    decreases *t,
{
    match t {
        Ty::Verbatim(s) => Ty::Verbatim(s.clone()),
        Ty::Reference { lifetime, mutable, ty } => Ty::Reference {
            lifetime: lifetime.clone(),
            mutable: *mutable,
            ty: Box::new(copy_ty(&**ty)),
        },
    }
}

/// Returns a copy of the parameter list, element for element.
fn copy_generics(g: &Generics) -> (r: Generics)
    ensures
        r.params@ == g.params@,
{
    let mut params: Vec<GenericParam> = Vec::new();
    let n = g.params.len();
    for i in 0..n
        invariant
            n == g.params@.len(),
            params@.len() == i,
            forall|j: int| 0 <= j < i ==> params@[j] == g.params@[j],
    {
        params.push(copy_param(&g.params[i]));
    }
    proof {
        assert(params@ =~= g.params@);
    }
    Generics { params }
}

/// Returns `true` if some parameter in the list is named `name`.
fn name_collides(params: &Vec<GenericParam>, name: &String) -> (r: bool)
    ensures
        r == !fresh_in(name@, params@),
{
    let n = params.len();
    for i in 0..n
        invariant
            n == params@.len(),
            forall|j: int| 0 <= j < i ==> (#[trigger] params@[j]).spec_name() != name@,
    {
        if *params[i].name() == *name {
            proof {
                assert(params@[i as int].spec_name() == name@);
            }
            return true;
        }
    }
    false
}

/// Returns the reserved base identifier for the injected scope parameter.
pub fn make_ref_lifetime() -> (r: String)
    ensures
        r@ == scope_lifetime_base(),
{
    String::from_str("'__enum_ref_lt")
}

/// Adds a fresh scope parameter to the start of the given `generics`.
///
/// Returns the augmented parameter list together with the added
/// parameter's name. The name is drawn from the reserved namespace of
/// `make_ref_lifetime` and extended past any parameter of the source that
/// happens to collide with it, so it never equals an existing parameter's
/// name; when the base name is already fresh it is used unchanged.
pub fn make_ref_generics(generics: &Generics) -> (r: (Generics, String))
    ensures
        is_scope_name(r.1@, generics.params@),
        fresh_in(scope_lifetime_base(), generics.params@) ==> r.1@ == scope_lifetime_base(),
        r.0.params@.len() == generics.params@.len() + 1,
        r.0.params@[0] == (GenericParam::Lifetime { name: r.1 }),
        forall|i: int|
            0 <= i < generics.params@.len() ==> r.0.params@[i + 1] == #[trigger] generics.params@[i],
{
    let ghost base = scope_lifetime_base();
    let mut name = make_ref_lifetime();
    proof {
        assert(base.is_prefix_of(name@)) by {
            assert(name@.subrange(0, name@.len() as int) =~= name@);
        }
    }
    while name_collides(&generics.params, &name)
        invariant
            base == scope_lifetime_base(),
            base.is_prefix_of(name@),
            forall|i: int| base.len() <= i < name@.len() ==> name@[i] == '_',
            forall|n: int|
                base.len() <= n < name@.len() ==> !fresh_in(
                    name@.subrange(0, n),
                    generics.params@,
                ),
        decreases max_param_name_len(generics.params@) + 1 - name@.len(),
    {
        proof {
            let i = choose|i: int|
                0 <= i < generics.params@.len() && (#[trigger] generics.params@[i]).spec_name()
                    == name@;
            lemma_param_name_len_bound(generics.params@, i);
        }
        let ghost prev = name@;
        name.append("_");
        proof {
            reveal_strlit("_");
            assert(name@.subrange(0, base.len() as int) =~= prev.subrange(0, base.len() as int));
            assert(base.is_prefix_of(name@));
            assert forall|n: int| base.len() <= n < name@.len() implies !fresh_in(
                name@.subrange(0, n),
                generics.params@,
            ) by {
                assert(name@.subrange(0, n) =~= prev.subrange(0, n));
                if n == prev.len() {
                    assert(prev.subrange(0, n) =~= prev);
                }
            }
        }
    }
    proof {
        if fresh_in(base, generics.params@) {
            lemma_scope_name_unchanged_when_fresh(name@, generics.params@);
        }
    }
    let mut params: Vec<GenericParam> = Vec::new();
    params.push(GenericParam::Lifetime { name: name.clone() });
    let n = generics.params.len();
    for i in 0..n
        invariant
            n == generics.params@.len(),
            params@.len() == i + 1,
            params@[0] == (GenericParam::Lifetime { name: name }),
            forall|j: int| 0 <= j < i ==> params@[j + 1] == #[trigger] generics.params@[j],
    {
        params.push(copy_param(&generics.params[i]));
    }
    (Generics { params }, name)
}

/// Returns `orig` behind a borrow scoped to the lifetime named `lt`,
/// read-write exactly for the exclusive view.
fn borrow_ty(t: &Ty, mutable: ViewKind, lt: &String) -> (r: Ty)
    ensures
        is_borrow_of(r, *t, lt@, mutable == ViewKind::Exclusive),
{
    Ty::Reference {
        lifetime: lt.clone(),
        mutable: mutable == ViewKind::Exclusive,
        ty: Box::new(copy_ty(t)),
    }
}

/// Transforms one source variant into its companion variant for the given
/// view kind: same name, same field shape, each field's type borrowed
/// under the scope parameter named `lt`, and the explicit discriminant
/// kept on the shared view only.
pub fn make_ref_variant(variant: &Variant, mutable: ViewKind, lt: &String) -> (r: Variant)
    ensures
        is_view_variant(r, *variant, lt@, mutable),
{
    let m = mutable == ViewKind::Exclusive;
    let fields = match &variant.fields {
        Fields::Unit => Fields::Unit,
        Fields::Unnamed(tys) => {
            let mut out: Vec<Ty> = Vec::new();
            let n = tys.len();
            for i in 0..n
                invariant
                    n == tys@.len(),
                    m == (mutable == ViewKind::Exclusive),
                    out@.len() == i,
                    forall|j: int| 0 <= j < i ==> is_borrow_of(#[trigger] out@[j], tys@[j], lt@, m),
            {
                out.push(borrow_ty(&tys[i], mutable, lt));
            }
            Fields::Unnamed(out)
        },
        Fields::Named(fs) => {
            let mut out: Vec<NamedField> = Vec::new();
            let n = fs.len();
            for i in 0..n
                invariant
                    n == fs@.len(),
                    m == (mutable == ViewKind::Exclusive),
                    out@.len() == i,
                    forall|j: int|
                        0 <= j < i ==> (#[trigger] out@[j]).name@ == fs@[j].name@ && is_borrow_of(
                            out@[j].ty,
                            fs@[j].ty,
                            lt@,
                            m,
                        ),
            {
                out.push(NamedField { name: fs[i].name.clone(), ty: borrow_ty(&fs[i].ty, mutable, lt) });
            }
            Fields::Named(out)
        },
    };
    let discriminant = if mutable == ViewKind::Shared {
        match &variant.discriminant {
            Some(d) => Some(d.clone()),
            None => None,
        }
    } else {
        None
    };
    Variant { ident: variant.ident.clone(), fields, discriminant }
}

/// Transforms one source variant into its shared-view companion variant.
pub fn make_ref(variant: &Variant, lt: &String) -> (r: Variant)
    ensures
        is_view_variant(r, *variant, lt@, ViewKind::Shared),
{
    make_ref_variant(variant, ViewKind::Shared, lt)
}

/// Transforms one source variant into its exclusive-view companion
/// variant.
pub fn make_mut(variant: &Variant, lt: &String) -> (r: Variant)
    ensures
        is_view_variant(r, *variant, lt@, ViewKind::Exclusive),
{
    make_ref_variant(variant, ViewKind::Exclusive, lt)
}

/// Returns the first `#[repr(..)]` attribute of the input, if any.
pub fn repr_attr(input: &DeriveInput) -> (r: Option<Attribute>)
    ensures
        is_first_repr(r, input.attrs@),
{
    let n = input.attrs.len();
    for i in 0..n
        invariant
            n == input.attrs@.len(),
            forall|j: int| 0 <= j < i ==> !is_repr(#[trigger] input.attrs@[j]),
    {
        if input.attrs[i].is_repr_attribute() {
            let a = copy_attr(&input.attrs[i]);
            proof {
                assert(is_repr(input.attrs@[i as int]));
            }
            return Some(a);
        }
    }
    None
}

/// Generates the conversion arm for one source variant. The arm's bindings
/// serve both as the pattern over the source variant and as the arguments
/// of the companion variant's constructor: the bare name for a unit
/// variant, placeholders `_0`, `_1`, ... in declaration order for
/// positional fields, and field-name shorthand for named fields.
pub fn make_arm(variant: &Variant) -> (r: Arm)
    ensures
        is_arm_for(r, *variant),
{
    let fields = match &variant.fields {
        Fields::Unit => ArmFields::Unit,
        Fields::Unnamed(tys) => {
            let mut bs: Vec<String> = Vec::new();
            let n = tys.len();
            for i in 0..n
                invariant
                    n == tys@.len(),
                    bs@.len() == i,
                    forall|j: int|
                        0 <= j < i ==> (#[trigger] bs@[j])@ == placeholder_name(j as nat),
            {
                bs.push(placeholder_ident(i));
            }
            ArmFields::Positional(bs)
        },
        Fields::Named(fs) => {
            let mut bs: Vec<String> = Vec::new();
            let n = fs.len();
            for i in 0..n
                invariant
                    n == fs@.len(),
                    bs@.len() == i,
                    forall|j: int| 0 <= j < i ==> (#[trigger] bs@[j])@ == fs@[j].name@,
            {
                bs.push(fs[i].name.clone());
            }
            ArmFields::Named(bs)
        },
    };
    Arm { ident: variant.ident.clone(), fields }
}

/// Deriving both views from one source declaration never produces
/// colliding type names: each companion's name differs from the source
/// type's name, and the two companions' names differ from each other.
pub proof fn lemma_derived_names_distinct(
    e_ref: Expansion,
    e_mut: Expansion,
    input: DeriveInput,
)
    requires
        expansion_matches(e_ref, input, ViewKind::Shared),
        expansion_matches(e_mut, input, ViewKind::Exclusive),
    ensures
        e_ref.companion.ident@ != input.ident@,
        e_mut.companion.ident@ != input.ident@,
        e_ref.companion.ident@ != e_mut.companion.ident@,
{
    crate::names::lemma_companion_names_distinct(input.ident@);
}

/// Within one conversion arm the positional placeholder bindings are
/// pairwise distinct: no two field positions bind the same name.
pub proof fn lemma_arm_bindings_unique(a: Arm, v: Variant)
    requires
        is_arm_for(a, v),
        v.fields is Unnamed,
    ensures
        forall|i: int, j: int|
            0 <= i < a.fields->Positional_0@.len() && 0 <= j < a.fields->Positional_0@.len() && i
                != j ==> (#[trigger] a.fields->Positional_0@[i])@
                != (#[trigger] a.fields->Positional_0@[j])@,
{
    let bs = a.fields->Positional_0@;
    assert forall|i: int, j: int|
        0 <= i < bs.len() && 0 <= j < bs.len() && i != j implies (#[trigger] bs[i])@
        != (#[trigger] bs[j])@ by {
        if bs[i]@ == bs[j]@ {
            crate::names::lemma_placeholder_injective(i as nat, j as nat);
        }
    }
}

/// Runs the whole pipeline for one view kind: classification, scope
/// injection, variant transformation, arm generation, and assembly.
pub fn derive_view(input: &DeriveInput, kind: ViewKind) -> (r: Result<Expansion, Diagnostic>)
    ensures
        derive_result_matches(r, *input, kind),
{
    let variants = match extract_enum(input) {
        Ok(vs) => vs,
        Err(d) => {
            return Err(d);
        },
    };
    let suffix: &str = if kind == ViewKind::Shared {
        "Ref"
    } else {
        "Mut"
    };
    let companion_name = input.ident.clone().concat(suffix);
    proof {
        assert(companion_name@ == companion_ident(input.ident@, kind));
    }
    let repr = if kind == ViewKind::Shared {
        repr_attr(input)
    } else {
        None
    };
    let (ref_generics, lt) = make_ref_generics(&input.generics);
    let n = variants.len();
    let mut cvariants: Vec<Variant> = Vec::new();
    for i in 0..n
        invariant
            n == variants@.len(),
            cvariants@.len() == i,
            forall|j: int|
                0 <= j < i ==> is_view_variant(#[trigger] cvariants@[j], variants@[j], lt@, kind),
    {
        cvariants.push(make_ref_variant(&variants[i], kind, &lt));
    }
    let mut arms: Vec<Arm> = Vec::new();
    for i in 0..n
        invariant
            n == variants@.len(),
            arms@.len() == i,
            forall|j: int| 0 <= j < i ==> is_arm_for(#[trigger] arms@[j], variants@[j]),
    {
        arms.push(make_arm(&variants[i]));
    }
    let source_generics = copy_generics(&input.generics);
    let trait_impl = TraitImpl {
        view: kind,
        source_ident: input.ident.clone(),
        source_generics,
        companion_ident: companion_name.clone(),
        scope_lifetime: lt,
        arms,
    };
    let companion = CompanionEnum {
        ident: companion_name,
        generics: ref_generics,
        repr,
        variants: cvariants,
    };
    Ok(Expansion { companion, trait_impl })
}

/// Implements the shared-view derivation for the given `input`.
pub fn enum_ref_impl(input: &DeriveInput) -> (r: Result<Expansion, Diagnostic>)
    ensures
        derive_result_matches(r, *input, ViewKind::Shared),
{
    derive_view(input, ViewKind::Shared)
}

/// Implements the exclusive-view derivation for the given `input`.
pub fn enum_mut_impl(input: &DeriveInput) -> (r: Result<Expansion, Diagnostic>)
    ensures
        derive_result_matches(r, *input, ViewKind::Exclusive),
{
    derive_view(input, ViewKind::Exclusive)
}

/// Derives the shared view of `input`: the emitted declarations for an
/// enumerated type, and otherwise the diagnostic in their place.
pub fn enum_ref(input: &DeriveInput) -> (r: Emitted)
    ensures
        match r {
            Emitted::Declarations(e) => derive_result_matches(
                Ok(e),
                *input,
                ViewKind::Shared,
            ),
            Emitted::CompileError(d) => derive_result_matches(
                Err(d),
                *input,
                ViewKind::Shared,
            ),
        },
{
    match enum_ref_impl(input) {
        Ok(e) => Emitted::Declarations(e),
        Err(d) => Emitted::CompileError(d),
    }
}

/// Derives the exclusive view of `input`: the emitted declarations for an
/// enumerated type, and otherwise the diagnostic in their place.
pub fn enum_mut(input: &DeriveInput) -> (r: Emitted)
    ensures
        match r {
            Emitted::Declarations(e) => derive_result_matches(
                Ok(e),
                *input,
                ViewKind::Exclusive,
            ),
            Emitted::CompileError(d) => derive_result_matches(
                Err(d),
                *input,
                ViewKind::Exclusive,
            ),
        },
{
    match enum_mut_impl(input) {
        Ok(e) => Emitted::Declarations(e),
        Err(d) => Emitted::CompileError(d),
    }
}

} // verus!
