use enum_ref::ast::{
    Arm, ArmFields, Attribute, Data, DeriveInput, Emitted, Fields, GenericParam, Generics,
    NamedField, Ty, Variant, ViewKind,
};
use enum_ref::derive::{
    derive_view, enum_mut, enum_mut_impl, enum_ref, enum_ref_impl, extract_enum, make_arm,
    make_mut, make_ref, make_ref_generics, make_ref_lifetime, make_ref_variant, repr_attr,
};

fn s(x: &str) -> String {
    x.to_string()
}

fn verbatim(x: &str) -> Ty {
    Ty::Verbatim(s(x))
}

fn unit_variant(name: &str) -> Variant {
    Variant { ident: s(name), fields: Fields::Unit, discriminant: None }
}

/// The running example: an enumeration exercising all three field shapes
/// and an explicit discriminant under a representation hint.
fn test_input() -> DeriveInput {
    DeriveInput {
        ident: s("Test"),
        attrs: vec![
            Attribute { path: s("doc"), args: s("an example") },
            Attribute { path: s("repr"), args: s("u8") },
        ],
        generics: Generics { params: vec![] },
        data: Data::Enum(vec![
            unit_variant("A"),
            Variant { ident: s("B"), fields: Fields::Unit, discriminant: Some(s("42")) },
            Variant {
                ident: s("C"),
                fields: Fields::Unnamed(vec![verbatim("i32")]),
                discriminant: None,
            },
            Variant {
                ident: s("D"),
                fields: Fields::Unnamed(vec![verbatim("i32"), verbatim("i64")]),
                discriminant: None,
            },
            Variant {
                ident: s("E"),
                fields: Fields::Named(vec![NamedField { name: s("a"), ty: verbatim("i32") }]),
                discriminant: None,
            },
            Variant {
                ident: s("F"),
                fields: Fields::Named(vec![
                    NamedField { name: s("a"), ty: verbatim("i32") },
                    NamedField { name: s("b"), ty: verbatim("i64") },
                ]),
                discriminant: None,
            },
        ]),
        span: 11,
    }
}

fn expect_declarations(e: Emitted) -> enum_ref::ast::Expansion {
    match e {
        Emitted::Declarations(x) => x,
        Emitted::CompileError(d) => panic!("unexpected diagnostic: {:?}", d),
    }
}

#[test]
fn totality_same_counts_both_views() {
    let input = test_input();
    let shared = expect_declarations(enum_ref(&input));
    let exclusive = expect_declarations(enum_mut(&input));
    assert_eq!(shared.companion.variants.len(), 6);
    assert_eq!(shared.trait_impl.arms.len(), 6);
    assert_eq!(exclusive.companion.variants.len(), 6);
    assert_eq!(exclusive.trait_impl.arms.len(), 6);
    let names: Vec<String> =
        shared.companion.variants.iter().map(|v| v.ident.clone()).collect();
    assert_eq!(names, vec![s("A"), s("B"), s("C"), s("D"), s("E"), s("F")]);
}

#[test]
fn totality_empty_enum() {
    let input = DeriveInput {
        ident: s("Never"),
        attrs: vec![],
        generics: Generics { params: vec![] },
        data: Data::Enum(vec![]),
        span: 0,
    };
    let e = expect_declarations(enum_ref(&input));
    assert_eq!(e.companion.variants.len(), 0);
    assert_eq!(e.trait_impl.arms.len(), 0);
    assert_eq!(e.companion.ident, s("NeverRef"));
}

#[test]
fn rejection_struct_input() {
    let input = DeriveInput {
        ident: s("S"),
        attrs: vec![],
        generics: Generics { params: vec![] },
        data: Data::Struct,
        span: 23,
    };
    match enum_ref(&input) {
        Emitted::CompileError(d) => {
            assert_eq!(d.span, 23);
            assert_eq!(
                d.message,
                s("derive(EnumRef) only works on `enum` types but found struct")
            );
        }
        Emitted::Declarations(_) => panic!("a struct input must be rejected"),
    }
}

#[test]
fn rejection_union_input() {
    let input = DeriveInput {
        ident: s("U"),
        attrs: vec![],
        generics: Generics { params: vec![] },
        data: Data::Union,
        span: 31,
    };
    match enum_mut(&input) {
        Emitted::CompileError(d) => {
            assert_eq!(d.span, 31);
            assert_eq!(
                d.message,
                s("derive(EnumRef) only works on `enum` types but found union")
            );
        }
        Emitted::Declarations(_) => panic!("a union input must be rejected"),
    }
}

#[test]
fn extract_enum_accepts_enum() {
    let input = test_input();
    let vs = extract_enum(&input).expect("an enum input is accepted");
    assert_eq!(vs.len(), 6);
}

#[test]
fn scope_parameter_base_name() {
    assert_eq!(make_ref_lifetime(), s("'__enum_ref_lt"));
}

#[test]
fn scope_parameter_injected_first() {
    let generics = Generics {
        params: vec![
            GenericParam::Lifetime { name: s("'a") },
            GenericParam::TypeParam { name: s("T") },
            GenericParam::ConstParam { name: s("N"), ty: s("usize") },
        ],
    };
    let (aug, lt) = make_ref_generics(&generics);
    assert_eq!(lt, s("'__enum_ref_lt"));
    assert_eq!(aug.params.len(), 4);
    assert_eq!(aug.params[0], GenericParam::Lifetime { name: s("'__enum_ref_lt") });
    assert_eq!(aug.params[1], GenericParam::Lifetime { name: s("'a") });
    assert_eq!(aug.params[2], GenericParam::TypeParam { name: s("T") });
    assert_eq!(aug.params[3], GenericParam::ConstParam { name: s("N"), ty: s("usize") });
}

#[test]
fn scope_parameter_avoids_adversarial_name() {
    let generics = Generics {
        params: vec![
            GenericParam::Lifetime { name: s("'__enum_ref_lt") },
            GenericParam::Lifetime { name: s("'__enum_ref_lt_") },
        ],
    };
    let (aug, lt) = make_ref_generics(&generics);
    assert_eq!(lt, s("'__enum_ref_lt__"));
    assert_ne!(lt, s("'__enum_ref_lt"));
    assert_ne!(lt, s("'__enum_ref_lt_"));
    assert_eq!(aug.params.len(), 3);
    assert_eq!(aug.params[0], GenericParam::Lifetime { name: lt });
}

#[test]
fn discriminant_kept_on_shared_view_only() {
    let input = test_input();
    let shared = expect_declarations(enum_ref(&input));
    let exclusive = expect_declarations(enum_mut(&input));
    assert_eq!(shared.companion.variants[1].discriminant, Some(s("42")));
    assert_eq!(exclusive.companion.variants[1].discriminant, None);
}

#[test]
fn repr_hint_copied_to_shared_view_only() {
    let input = test_input();
    let shared = expect_declarations(enum_ref(&input));
    let exclusive = expect_declarations(enum_mut(&input));
    assert_eq!(shared.companion.repr, Some(Attribute { path: s("repr"), args: s("u8") }));
    assert_eq!(exclusive.companion.repr, None);
}

#[test]
fn repr_attr_finds_first_hint() {
    let input = test_input();
    assert_eq!(repr_attr(&input), Some(Attribute { path: s("repr"), args: s("u8") }));
    let bare = DeriveInput {
        ident: s("T"),
        attrs: vec![Attribute { path: s("doc"), args: s("") }],
        generics: Generics { params: vec![] },
        data: Data::Enum(vec![]),
        span: 0,
    };
    assert_eq!(repr_attr(&bare), None);
}

#[test]
fn is_repr_attribute_checks_path() {
    let repr = Attribute { path: s("repr"), args: s("u8") };
    let doc = Attribute { path: s("doc"), args: s("") };
    assert!(repr.is_repr_attribute());
    assert!(!doc.is_repr_attribute());
    assert_eq!(repr.filter_repr(), Some(&repr));
    assert_eq!(doc.filter_repr(), None);
}

#[test]
fn fields_become_shared_borrows() {
    let lt = make_ref_lifetime();
    let v = Variant {
        ident: s("C"),
        fields: Fields::Unnamed(vec![verbatim("i32")]),
        discriminant: None,
    };
    let r = make_ref(&v, &lt);
    assert_eq!(
        r.fields,
        Fields::Unnamed(vec![Ty::Reference {
            lifetime: s("'__enum_ref_lt"),
            mutable: false,
            ty: Box::new(verbatim("i32")),
        }])
    );
}

#[test]
fn fields_become_exclusive_borrows() {
    let lt = make_ref_lifetime();
    let v = Variant {
        ident: s("E"),
        fields: Fields::Named(vec![NamedField { name: s("a"), ty: verbatim("i32") }]),
        discriminant: None,
    };
    let r = make_mut(&v, &lt);
    assert_eq!(
        r.fields,
        Fields::Named(vec![NamedField {
            name: s("a"),
            ty: Ty::Reference {
                lifetime: s("'__enum_ref_lt"),
                mutable: true,
                ty: Box::new(verbatim("i32")),
            },
        }])
    );
}

#[test]
fn reference_typed_fields_borrow_the_reference() {
    let lt = make_ref_lifetime();
    let inner = || Ty::Reference {
        lifetime: s("'a"),
        mutable: false,
        ty: Box::new(verbatim("str")),
    };
    let v = Variant {
        ident: s("Borrowed"),
        fields: Fields::Unnamed(vec![inner()]),
        discriminant: None,
    };
    let r = make_mut(&v, &lt);
    assert_eq!(
        r.fields,
        Fields::Unnamed(vec![Ty::Reference {
            lifetime: s("'__enum_ref_lt"),
            mutable: true,
            ty: Box::new(inner()),
        }])
    );
}

#[test]
fn unit_variant_keeps_shape() {
    let lt = make_ref_lifetime();
    let v = unit_variant("Empty");
    let shared = make_ref_variant(&v, ViewKind::Shared, &lt);
    let exclusive = make_ref_variant(&v, ViewKind::Exclusive, &lt);
    assert_eq!(shared, unit_variant("Empty"));
    assert_eq!(exclusive, unit_variant("Empty"));
}

#[test]
fn empty_variant_arm_is_bare_name() {
    let a = make_arm(&unit_variant("Empty"));
    assert_eq!(a, Arm { ident: s("Empty"), fields: ArmFields::Unit });
}

#[test]
fn positional_arm_binds_placeholders() {
    let v = Variant {
        ident: s("D"),
        fields: Fields::Unnamed(vec![verbatim("i32"), verbatim("i64")]),
        discriminant: None,
    };
    let a = make_arm(&v);
    assert_eq!(a.ident, s("D"));
    assert_eq!(a.fields, ArmFields::Positional(vec![s("_0"), s("_1")]));
}

#[test]
fn positional_placeholders_reach_two_digits() {
    let tys: Vec<Ty> = (0..12).map(|_| verbatim("u8")).collect();
    let v = Variant { ident: s("Wide"), fields: Fields::Unnamed(tys), discriminant: None };
    let a = make_arm(&v);
    match a.fields {
        ArmFields::Positional(bs) => {
            assert_eq!(bs.len(), 12);
            assert_eq!(bs[0], s("_0"));
            assert_eq!(bs[9], s("_9"));
            assert_eq!(bs[10], s("_10"));
            assert_eq!(bs[11], s("_11"));
        }
        other => panic!("expected positional bindings, found {:?}", other),
    }
}

#[test]
fn named_arm_binds_field_names() {
    let v = Variant {
        ident: s("F"),
        fields: Fields::Named(vec![
            NamedField { name: s("a"), ty: verbatim("i32") },
            NamedField { name: s("b"), ty: verbatim("i64") },
        ]),
        discriminant: None,
    };
    let a = make_arm(&v);
    assert_eq!(a.fields, ArmFields::Named(vec![s("a"), s("b")]));
}

#[test]
fn companion_names_are_distinct() {
    let input = test_input();
    let shared = expect_declarations(enum_ref(&input));
    let exclusive = expect_declarations(enum_mut(&input));
    assert_eq!(shared.companion.ident, s("TestRef"));
    assert_eq!(exclusive.companion.ident, s("TestMut"));
    assert_ne!(shared.companion.ident, input.ident);
    assert_ne!(exclusive.companion.ident, input.ident);
    assert_ne!(shared.companion.ident, exclusive.companion.ident);
    assert_eq!(shared.trait_impl.companion_ident, s("TestRef"));
    assert_eq!(exclusive.trait_impl.companion_ident, s("TestMut"));
}

#[test]
fn generic_parameters_pass_through() {
    let input = DeriveInput {
        ident: s("Holder"),
        attrs: vec![],
        generics: Generics {
            params: vec![
                GenericParam::Lifetime { name: s("'a") },
                GenericParam::TypeParam { name: s("T") },
                GenericParam::ConstParam { name: s("N"), ty: s("usize") },
            ],
        },
        data: Data::Enum(vec![Variant {
            ident: s("Value"),
            fields: Fields::Unnamed(vec![verbatim("T")]),
            discriminant: None,
        }]),
        span: 2,
    };
    let e = expect_declarations(enum_ref(&input));
    assert_eq!(
        e.companion.generics.params,
        vec![
            GenericParam::Lifetime { name: s("'__enum_ref_lt") },
            GenericParam::Lifetime { name: s("'a") },
            GenericParam::TypeParam { name: s("T") },
            GenericParam::ConstParam { name: s("N"), ty: s("usize") },
        ]
    );
    assert_eq!(e.trait_impl.source_generics.params, input.generics.params);
    assert_eq!(e.trait_impl.scope_lifetime, s("'__enum_ref_lt"));
}

#[test]
fn impl_functions_agree_with_wrappers() {
    let input = test_input();
    let shared = enum_ref_impl(&input).expect("an enum input derives");
    let exclusive = enum_mut_impl(&input).expect("an enum input derives");
    assert_eq!(Emitted::Declarations(shared), enum_ref(&input));
    assert_eq!(Emitted::Declarations(exclusive), enum_mut(&input));
}

#[test]
fn derive_view_matches_per_kind_entry_points() {
    let input = test_input();
    assert_eq!(derive_view(&input, ViewKind::Shared), enum_ref_impl(&input));
    assert_eq!(derive_view(&input, ViewKind::Exclusive), enum_mut_impl(&input));
}

#[test]
fn trait_impl_records_view_and_source() {
    let input = test_input();
    let shared = expect_declarations(enum_ref(&input));
    assert_eq!(shared.trait_impl.view, ViewKind::Shared);
    assert_eq!(shared.trait_impl.source_ident, s("Test"));
    let exclusive = expect_declarations(enum_mut(&input));
    assert_eq!(exclusive.trait_impl.view, ViewKind::Exclusive);
}
