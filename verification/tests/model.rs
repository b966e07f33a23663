//! From a declaration to its model, and the facts that follow from it.

use kinded::{
    expand_derive, find_kinded_attr, generate, parse_derive_input, parse_fields_type, parse_variant, Attribute, Data,
    Delimiter, DeriveInput, Destruct, Diagnostic, DiagnosticKind, DisplayCase, Expected, Fields,
    FieldsType, Ident, Kind, KindedAttributes, MatchBranch, Meta, OptOuts, Path, SourceVariant, Span,
    Token, Variant,
};

fn parens(inner: Vec<Token>) -> Token {
    Token::group(Delimiter::Parenthesis, inner)
}

fn kinded(args: Vec<Token>) -> Attribute {
    Attribute { path: Path::simple("kinded"), tokens: vec![parens(args)], span: Span::CallSite }
}

fn kinded_at(args: Vec<Token>, place: usize) -> Attribute {
    Attribute { path: Path::simple("kinded"), tokens: vec![parens(args)], span: Span::At(place) }
}

fn doc(text: &str) -> Attribute {
    Attribute {
        path: Path::simple("doc"),
        tokens: vec![Token::punct('='), Token::string(text)],
        span: Span::CallSite,
    }
}

fn unit(name: &str) -> SourceVariant {
    SourceVariant { attrs: vec![], ident: Ident::new(name), fields: Fields::Unit }
}

fn an_enum(attrs: Vec<Attribute>, name: &str, variants: Vec<SourceVariant>) -> DeriveInput {
    DeriveInput {
        attrs,
        vis: vec![],
        ident: Ident::at(name, Span::At(1)),
        generics: vec![],
        data: Data::Enum(variants),
    }
}

fn names(paths: &[Path]) -> Vec<String> {
    paths
        .iter()
        .map(|path| {
            let segments: Vec<&str> = path.segments.iter().map(|s| s.name.as_str()).collect();
            format!("{}{}", if path.leading_colon { "::" } else { "" }, segments.join("::"))
        })
        .collect()
}

fn list(names: &[&str]) -> Token {
    let mut inner = Vec::new();
    for name in names {
        if !inner.is_empty() {
            inner.push(Token::punct(','));
        }
        inner.push(Token::ident(name));
    }
    parens(inner)
}

fn meta_with(args: Vec<Token>) -> Meta {
    parse_derive_input(an_enum(vec![kinded(args)], "Drink", vec![unit("Tea"), unit("Coffee")])).unwrap()
}

#[test]
fn the_model_keeps_what_is_written() {
    let mut input = an_enum(
        vec![doc("A drink."), kinded(vec![Token::ident("display"), Token::punct('='), Token::string("lowercase")])],
        "Drink",
        vec![
            unit("Mate"),
            SourceVariant {
                attrs: vec![doc("With milk or without.")],
                ident: Ident::new("Coffee"),
                fields: Fields::Unnamed(vec![Token::ident("String")]),
            },
            SourceVariant {
                attrs: vec![],
                ident: Ident::new("Tea"),
                fields: Fields::Named(vec![
                    Token::ident("variety"),
                    Token::punct(':'),
                    Token::ident("String"),
                ]),
            },
        ],
    );
    input.vis = vec![Token::ident("pub"), parens(vec![Token::ident("crate")])];
    let meta = parse_derive_input(input).unwrap();
    assert_eq!(meta.vis, vec![Token::ident("pub"), parens(vec![Token::ident("crate")])]);
    assert_eq!(meta.ident, Ident::at("Drink", Span::At(1)));
    assert_eq!(meta.generics, vec![]);
    assert_eq!(
        meta.kinded_attrs,
        KindedAttributes { display: Some(DisplayCase::Lower), ..KindedAttributes::default() }
    );
    assert_eq!(
        meta.variants,
        vec![
            Variant { ident: Ident::new("Mate"), fields_type: FieldsType::Unit, rename: None, attrs: vec![] },
            Variant {
                ident: Ident::new("Coffee"),
                fields_type: FieldsType::Unnamed,
                rename: None,
                attrs: vec![]
            },
            Variant { ident: Ident::new("Tea"), fields_type: FieldsType::Named, rename: None, attrs: vec![] },
        ]
    );
    assert_eq!(meta.position("Coffee"), Some(1));
    assert_eq!(meta.position("Water"), None);
}

#[test]
fn a_variant_keeps_its_options() {
    let variant = SourceVariant {
        attrs: vec![
            doc("Hot."),
            kinded(vec![
                Token::ident("rename"),
                Token::punct('='),
                Token::string("caliente"),
                Token::punct(','),
                Token::ident("attrs"),
                parens(vec![Token::ident("default")]),
            ]),
        ],
        ident: Ident::new("Hot"),
        fields: Fields::Unit,
    };
    assert_eq!(
        parse_variant(&variant),
        Ok(Variant {
            ident: Ident::new("Hot"),
            fields_type: FieldsType::Unit,
            rename: Some("caliente".to_owned()),
            attrs: vec![vec![Token::ident("default")]],
        })
    );
}

#[test]
fn only_enums_are_taken() {
    for data in [Data::Struct, Data::Union] {
        let input = DeriveInput {
            attrs: vec![],
            vis: vec![],
            ident: Ident::at("Drink", Span::At(7)),
            generics: vec![],
            data,
        };
        let diagnostic = parse_derive_input(input).unwrap_err();
        assert_eq!(diagnostic, Diagnostic { kind: DiagnosticKind::NotAnEnum, span: Span::At(7) });
        assert_eq!(diagnostic.message(), "Kinded can be derived only on enums");
    }
}

#[test]
fn an_enum_without_variants_is_refused() {
    let diagnostic = parse_derive_input(an_enum(vec![], "Never", vec![])).unwrap_err();
    assert_eq!(diagnostic, Diagnostic { kind: DiagnosticKind::NoVariants, span: Span::At(1) });
}

#[test]
fn one_kinded_attribute_at_most() {
    let input = an_enum(
        vec![
            kinded_at(vec![], 10),
            doc("A drink."),
            kinded_at(vec![], 11),
            kinded_at(vec![], 12),
        ],
        "Drink",
        vec![unit("Tea")],
    );
    let diagnostic = parse_derive_input(input).unwrap_err();
    assert_eq!(
        diagnostic,
        Diagnostic { kind: DiagnosticKind::MultipleKindedAttributes, span: Span::At(12) }
    );
    assert_eq!(diagnostic.message(), "Multiple #[kinded(..)] attributes are not allowed.");
}

#[test]
fn one_kinded_attribute_at_most_on_a_variant() {
    let mut tea = unit("Tea");
    tea.attrs = vec![kinded_at(vec![], 10), kinded_at(vec![], 11)];
    let diagnostic = parse_derive_input(an_enum(vec![], "Drink", vec![tea])).unwrap_err();
    assert_eq!(
        diagnostic,
        Diagnostic { kind: DiagnosticKind::MultipleKindedAttributes, span: Span::At(11) }
    );
}

#[test]
fn finding_the_kinded_attribute() {
    assert_eq!(find_kinded_attr(&vec![]), Ok(None));
    assert_eq!(find_kinded_attr(&vec![doc("a"), doc("b")]), Ok(None));
    assert_eq!(find_kinded_attr(&vec![doc("a"), kinded(vec![]), doc("b")]), Ok(Some(1)));
    let elsewhere = Attribute {
        path: Path { leading_colon: false, segments: vec![Ident::new("other"), Ident::new("kinded")] },
        tokens: vec![],
        span: Span::CallSite,
    };
    let rooted = Attribute {
        path: Path { leading_colon: true, segments: vec![Ident::new("kinded")] },
        tokens: vec![],
        span: Span::CallSite,
    };
    assert_eq!(find_kinded_attr(&vec![elsewhere, rooted]), Ok(None));
}

#[test]
fn what_is_wrong_is_reported_in_order() {
    // The options of the item are read before the kind of item is looked at.
    let input = DeriveInput {
        attrs: vec![kinded(vec![Token::ident("colour").at(Span::At(3))])],
        vis: vec![],
        ident: Ident::new("Drink"),
        generics: vec![],
        data: Data::Struct,
    };
    assert_eq!(
        parse_derive_input(input),
        Err(Diagnostic { kind: DiagnosticKind::UnknownAttribute("colour".to_owned()), span: Span::At(3) })
    );
    // The first variant with something wrong is reported.
    let mut tea = unit("Tea");
    tea.attrs = vec![kinded(vec![Token::ident("rename").at(Span::At(4))])];
    let mut coffee = unit("Coffee");
    coffee.attrs = vec![kinded(vec![Token::ident("colour").at(Span::At(5))])];
    let diagnostic = parse_derive_input(an_enum(vec![], "Drink", vec![unit("Mate"), tea, coffee])).unwrap_err();
    assert_eq!(diagnostic.kind, DiagnosticKind::UnexpectedEnd(Expected::Equals));
}

#[test]
fn the_shape_of_fields() {
    assert_eq!(parse_fields_type(&Fields::Named(vec![])), FieldsType::Named);
    assert_eq!(parse_fields_type(&Fields::Unnamed(vec![Token::ident("i32")])), FieldsType::Unnamed);
    assert_eq!(parse_fields_type(&Fields::Unit), FieldsType::Unit);
    assert_eq!(FieldsType::all(), vec![FieldsType::Named, FieldsType::Unnamed, FieldsType::Unit]);
}

#[test]
fn the_kind_type_is_named_after_the_enum() {
    let meta = parse_derive_input(an_enum(vec![], "Drink", vec![unit("Tea")])).unwrap();
    assert_eq!(meta.kind_name(), Ident::at("DrinkKind", Span::At(1)));
}

#[test]
fn the_kind_type_takes_the_name_given() {
    let meta = meta_with(vec![Token::ident("kind"), Token::punct('='), Token::ident("Custom").at(Span::At(9))]);
    assert_eq!(meta.kind_name(), Ident::at("Custom", Span::At(9)));
}

#[test]
fn the_default_traits_are_derived() {
    let meta = parse_derive_input(an_enum(vec![], "Drink", vec![unit("Tea")])).unwrap();
    assert_eq!(names(&meta.derive_traits()), vec!["Debug", "Clone", "Copy", "PartialEq", "Eq"]);
}

#[test]
fn skipped_traits_are_not_derived() {
    let meta = meta_with(vec![Token::ident("skip_derive"), list(&["Clone", "Copy"])]);
    assert_eq!(names(&meta.derive_traits()), vec!["Debug", "PartialEq", "Eq"]);

    let meta = meta_with(vec![
        Token::ident("skip_derive"),
        list(&["Clone", "Copy"]),
        Token::punct(','),
        Token::ident("derive"),
        list(&["Hash", "Ord"]),
    ]);
    assert_eq!(names(&meta.derive_traits()), vec!["Debug", "PartialEq", "Eq", "Hash", "Ord"]);

    let meta = meta_with(vec![
        Token::ident("skip_derive"),
        list(&["Debug", "Clone", "Copy", "PartialEq", "Eq"]),
    ]);
    assert_eq!(names(&meta.derive_traits()), Vec::<String>::new());
}

#[test]
fn skipping_an_implementation_leaves_the_derives() {
    let meta = meta_with(vec![Token::ident("skip_derive"), list(&["Display", "FromStr", "From"])]);
    assert_eq!(names(&meta.derive_traits()), vec!["Debug", "Clone", "Copy", "PartialEq", "Eq"]);
    assert_eq!(
        meta.kinded_attrs.opt_outs,
        Some(OptOuts { display_impl: true, from_str_impl: true, from_impl: true, ..OptOuts::default() })
    );
    let generated = generate(meta);
    assert_eq!(generated.kind_enum.impl_display_trait, None);
    assert_eq!(generated.kind_enum.impl_from_str_trait, None);
    assert_eq!(generated.kind_enum.impl_from_traits, None);
    assert_eq!(generated.display(0), None);
    assert_eq!(generated.from_str("Tea"), None);
    assert_eq!(generated.from(kinded::Value { variant: 0, payload: () }), None);
    // `all()` and `kind()` cannot be skipped.
    assert_eq!(generated.all(), vec![0, 1]);
    assert_eq!(generated.kind(&kinded::Value { variant: 1, payload: () }), Some(1));
}

#[test]
fn extra_traits_come_after_the_defaults_each_once() {
    let meta = meta_with(vec![Token::ident("derive"), list(&["Hash", "Eq", "Hash", "Debug", "Ord"])]);
    assert_eq!(
        names(&meta.derive_traits()),
        vec!["Debug", "Clone", "Copy", "PartialEq", "Eq", "Hash", "Ord"]
    );
}

#[test]
fn a_skipped_trait_that_is_asked_for_is_derived() {
    let meta = meta_with(vec![
        Token::ident("derive"),
        list(&["Clone"]),
        Token::punct(','),
        Token::ident("skip_derive"),
        list(&["Clone", "Copy"]),
    ]);
    assert_eq!(names(&meta.derive_traits()), vec!["Debug", "PartialEq", "Eq", "Clone"]);
}

#[test]
fn a_trait_under_another_path_is_another_trait() {
    let meta = meta_with(vec![
        Token::ident("derive"),
        parens(vec![
            Token::ident("std"),
            Token::joint(':'),
            Token::punct(':'),
            Token::ident("fmt"),
            Token::joint(':'),
            Token::punct(':'),
            Token::ident("Debug"),
            Token::punct(','),
            Token::ident("Eq").at(Span::At(30)),
        ]),
    ]);
    assert_eq!(
        names(&meta.derive_traits()),
        vec!["Debug", "Clone", "Copy", "PartialEq", "Eq", "std::fmt::Debug"]
    );
    assert!(Path::simple("Eq").same_as(&Path { leading_colon: false, segments: vec![Ident::at("Eq", Span::At(30))] }));
    assert!(!Path::simple("Eq").same_as(&Path { leading_colon: true, segments: vec![Ident::new("Eq")] }));
}

#[test]
fn a_kind_type_for_a_set_of_flags() {
    // #[kinded(skip_derive(Clone, Copy, PartialEq, Eq), derive(EnumSetType),
    //          attrs(enumset(repr = "u8"), repr(u8)))]
    let enumset = vec![
        Token::ident("enumset"),
        parens(vec![Token::ident("repr"), Token::punct('='), Token::string("u8")]),
    ];
    let repr = vec![Token::ident("repr"), parens(vec![Token::ident("u8")])];
    let mut attrs = enumset.iter().map(Token::duplicate).collect::<Vec<Token>>();
    attrs.push(Token::punct(','));
    attrs.extend(repr.iter().map(Token::duplicate));
    let input = an_enum(
        vec![kinded(vec![
            Token::ident("skip_derive"),
            list(&["Clone", "Copy", "PartialEq", "Eq"]),
            Token::punct(','),
            Token::ident("derive"),
            list(&["EnumSetType"]),
            Token::punct(','),
            Token::ident("attrs"),
            parens(attrs),
        ])],
        "Permission",
        vec![unit("Read"), unit("Write"), unit("Execute"), unit("Admin")],
    );
    let generated = generate(parse_derive_input(input).unwrap());
    let definition = &generated.kind_enum.definition;
    assert_eq!(names(&definition.derives), vec!["Debug", "EnumSetType"]);
    assert_eq!(definition.attrs, vec![enumset, repr]);
    assert_eq!(definition.kind_name.name, "PermissionKind");
    let variants: Vec<&str> = definition.variants.iter().map(|v| v.ident.name.as_str()).collect();
    assert_eq!(variants, vec!["Read", "Write", "Execute", "Admin"]);
}

#[test]
fn the_description_of_what_the_enum_gets() {
    let input = an_enum(
        vec![],
        "Role",
        vec![
            unit("Guest"),
            SourceVariant {
                attrs: vec![],
                ident: Ident::new("User"),
                fields: Fields::Unnamed(vec![Token::ident("i32")]),
            },
            SourceVariant {
                attrs: vec![],
                ident: Ident::new("Admin"),
                fields: Fields::Named(vec![Token::ident("id"), Token::punct(':'), Token::ident("i32")]),
            },
        ],
    );
    let generated = generate(parse_derive_input(input).unwrap());
    let fn_kind = &generated.main_enum_extra.fn_kind;
    assert_eq!(fn_kind.name.name, "Role");
    assert_eq!(fn_kind.kind_name.name, "RoleKind");
    assert!(fn_kind.constant);
    assert_eq!(
        fn_kind.branches,
        vec![
            MatchBranch { variant: 0, destruct: Destruct::Bare, kind: 0 },
            MatchBranch { variant: 1, destruct: Destruct::Parentheses, kind: 1 },
            MatchBranch { variant: 2, destruct: Destruct::Braces, kind: 2 },
        ]
    );
    assert_eq!(generated.main_enum_extra.main_enum_with_generics, vec![Token::ident("Role").at(Span::At(1))]);
    assert_eq!(generated.main_enum_extra.impl_kinded_trait.kind_name.name, "RoleKind");
    assert_eq!(generated.kind(&kinded::Value { variant: 3, payload: () }), None);
}

#[test]
fn the_attributes_of_a_variant_go_to_its_kind() {
    let mut tea = unit("Tea");
    tea.attrs = vec![kinded(vec![Token::ident("attrs"), parens(vec![Token::ident("default")])])];
    let generated = generate(parse_derive_input(an_enum(vec![], "Drink", vec![tea, unit("Coffee")])).unwrap());
    let variants = &generated.kind_enum.definition.variants;
    assert_eq!(variants[0].ident.name, "Tea");
    assert_eq!(variants[0].attrs, vec![vec![Token::ident("default")]]);
    assert_eq!(variants[1].ident.name, "Coffee");
    assert_eq!(variants[1].attrs, Vec::<Vec<Token>>::new());
}

#[test]
fn expanding_gives_all_or_the_diagnostic() {
    let input = || an_enum(vec![], "Drink", vec![unit("Tea"), unit("Coffee")]);
    assert_eq!(expand_derive(input()), Ok(generate(parse_derive_input(input()).unwrap())));
    let generated = expand_derive(input()).unwrap();
    assert_eq!(generated.kind_enum.definition.kind_name.name, "DrinkKind");
    assert_eq!(generated.all(), vec![0, 1]);

    let wrong = an_enum(vec![kinded(vec![Token::ident("colour")])], "Drink", vec![unit("Tea")]);
    assert_eq!(
        expand_derive(wrong),
        Err(Diagnostic {
            kind: DiagnosticKind::UnknownAttribute("colour".to_owned()),
            span: Span::CallSite
        })
    );
}
