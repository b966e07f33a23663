//! What the emitted `Display` and `FromStr` do, on whole declarations.

use kinded::{
    generate, parse_derive_input, Attribute, Data, Delimiter, DeriveInput, DisplayArm, DisplayCase,
    Fields, FromStrImpl, Generated, Ident, ParseArm, ParseKindError, Path, SourceVariant, Span, Token,
    Value,
};

fn kinded(args: Vec<Token>) -> Attribute {
    Attribute {
        path: Path::simple("kinded"),
        tokens: vec![Token::group(Delimiter::Parenthesis, args)],
        span: Span::CallSite,
    }
}

fn display(case: &str) -> Attribute {
    kinded(vec![Token::ident("display"), Token::punct('='), Token::string(case)])
}

fn unit(name: &str) -> SourceVariant {
    SourceVariant { attrs: vec![], ident: Ident::new(name), fields: Fields::Unit }
}

fn renamed(name: &str, rename: &str) -> SourceVariant {
    SourceVariant {
        attrs: vec![kinded(vec![Token::ident("rename"), Token::punct('='), Token::string(rename)])],
        ident: Ident::new(name),
        fields: Fields::Unit,
    }
}

fn derive(attrs: Vec<Attribute>, name: &str, variants: Vec<SourceVariant>) -> Generated {
    let input = DeriveInput {
        attrs,
        vis: vec![],
        ident: Ident::new(name),
        generics: vec![],
        data: Data::Enum(variants),
    };
    generate(parse_derive_input(input).unwrap())
}

fn parse(generated: &Generated, text: &str) -> Result<usize, ParseKindError> {
    generated.from_str(text).unwrap()
}

fn shown(generated: &Generated, kind: usize) -> String {
    generated.display(kind).unwrap()
}

const HOT_MATE: usize = 0;
const TERERE: usize = 1;

fn mate() -> Generated {
    derive(vec![], "Mate", vec![unit("HotMate"), unit("Terere")])
}

#[test]
fn all_lists_the_kinds_in_order_every_time() {
    let mate = mate();
    assert_eq!(mate.all(), vec![HOT_MATE, TERERE]);
    assert_eq!(mate.all(), mate.all());
    for (position, kind) in mate.all().into_iter().enumerate() {
        assert_eq!(mate.kind(&Value { variant: position, payload: () }), Some(kind));
    }
}

#[test]
fn the_kind_does_not_depend_on_what_is_carried() {
    let mate = mate();
    let kind = mate.kind(&Value { variant: TERERE, payload: () });
    assert_eq!(kind, Some(TERERE));
    assert_eq!(mate.kind(&Value { variant: TERERE, payload: 13 }), kind);
    assert_eq!(mate.kind(&Value { variant: TERERE, payload: "ice" }), kind);
    assert_eq!(mate.kind(&Value { variant: TERERE, payload: vec![1.5, 2.5] }), kind);
    assert_eq!(mate.from(Value { variant: TERERE, payload: "ice" }), kind);
    assert_eq!(mate.from_ref(&Value { variant: TERERE, payload: Some(0u8) }), kind);
}

#[test]
fn parsing_what_is_displayed_gives_the_kind_back() {
    for case in DisplayCase::all() {
        let drinks = derive(
            vec![display(case.literal())],
            "Drink",
            vec![unit("HotMate"), renamed("Terere", "cold mate"), unit("Coffee"), unit("GreenTea")],
        );
        for kind in drinks.all() {
            assert_eq!(parse(&drinks, &shown(&drinks, kind)), Ok(kind));
        }
    }
    let mate = mate();
    for kind in mate.all() {
        assert_eq!(parse(&mate, &shown(&mate, kind)), Ok(kind));
    }
}

#[test]
fn what_is_displayed_alike_is_parsed_as_the_first() {
    // Both names are `my_sql` in snake case.
    let db = derive(vec![display("snake_case")], "Db", vec![unit("MySql"), unit("MySQL")]);
    assert_eq!(shown(&db, 0), "my_sql");
    assert_eq!(shown(&db, 1), "my_sql");
    assert_eq!(parse(&db, "my_sql"), Ok(0));
    // The names as written still tell them apart.
    assert_eq!(parse(&db, "MySql"), Ok(0));
    assert_eq!(parse(&db, "MySQL"), Ok(1));
}

#[test]
fn an_unknown_text_is_refused() {
    let mate = mate();
    let error = parse(&mate, "Calabaza").unwrap_err();
    assert_eq!(error.to_string(), "Failed to parse \"Calabaza\" as MateKind");
    assert_eq!(error.kind_type_name(), "MateKind");
    assert_eq!(error.given_string(), "Calabaza");
    assert_eq!(error, ParseKindError::from_type_and_string("drinks::MateKind", "Calabaza".to_owned()));
    assert!(parse(&mate, "").is_err());
    assert!(parse(&mate, "Hot_Mate").is_err());
    assert!(parse(&mate, " HotMate").is_err());
}

#[test]
fn the_error_names_the_kind_type_given() {
    let mate = derive(
        vec![kinded(vec![Token::ident("kind"), Token::punct('='), Token::ident("Yerba")])],
        "Mate",
        vec![unit("HotMate")],
    );
    assert_eq!(
        parse(&mate, "Calabaza").unwrap_err().to_string(),
        "Failed to parse \"Calabaza\" as Yerba"
    );
}

#[test]
fn a_rename_is_displayed_whatever_the_policy() {
    let plain = derive(vec![], "Mate", vec![renamed("HotMate", "mate caliente"), unit("Terere")]);
    assert_eq!(shown(&plain, HOT_MATE), "mate caliente");
    assert_eq!(shown(&plain, TERERE), "Terere");

    let screaming = derive(
        vec![display("SCREAMING_SNAKE_CASE")],
        "Mate",
        vec![renamed("HotMate", "mate caliente"), unit("TerereFrio")],
    );
    assert_eq!(shown(&screaming, HOT_MATE), "mate caliente");
    assert_eq!(shown(&screaming, TERERE), "TERERE_FRIO");
}

#[test]
fn a_rename_is_parsed_and_the_name_still_is() {
    let mate = derive(
        vec![display("kebab-case")],
        "Mate",
        vec![renamed("HotMate", "mate caliente"), unit("Terere")],
    );
    assert_eq!(parse(&mate, "mate caliente"), Ok(HOT_MATE));
    assert_eq!(parse(&mate, "HotMate"), Ok(HOT_MATE));
    for alternative in
        ["hot_mate", "hotMate", "HOT_MATE", "hot-mate", "HOT-MATE", "Hot Mate", "hotmate", "HOTMATE"]
    {
        assert_eq!(parse(&mate, alternative), Ok(HOT_MATE));
    }
    // The rename itself is taken as it is, in no other spelling.
    assert!(parse(&mate, "Mate Caliente").is_err());
    assert!(parse(&mate, "mate-caliente").is_err());
}

#[test]
fn a_rename_comes_before_every_name() {
    // `Second` is renamed to the name of `First`.
    let both = derive(vec![], "Order", vec![unit("First"), renamed("Second", "First")]);
    assert_eq!(parse(&both, "First"), Ok(1));
    assert_eq!(parse(&both, "Second"), Ok(1));
    // Only other spellings of its name are left to `First`.
    assert_eq!(parse(&both, "first"), Ok(0));
    assert_eq!(parse(&both, "FIRST"), Ok(0));
    assert_eq!(shown(&both, 0), "First");
    assert_eq!(shown(&both, 1), "First");
}

#[test]
fn of_two_equal_renames_the_first_is_parsed() {
    let both = derive(vec![], "Pair", vec![renamed("Left", "side"), renamed("Right", "side")]);
    assert_eq!(parse(&both, "side"), Ok(0));
    assert_eq!(parse(&both, "Right"), Ok(1));
}

#[test]
fn a_name_as_written_comes_before_other_spellings() {
    // `hot_mate` is the snake case of `HotMate` and the name of the second variant.
    let mate = derive(vec![], "Mate", vec![unit("HotMate"), unit("hot_mate")]);
    assert_eq!(parse(&mate, "hot_mate"), Ok(1));
    assert_eq!(parse(&mate, "HotMate"), Ok(0));
    assert_eq!(parse(&mate, "HOT_MATE"), Ok(0));
}

#[test]
fn the_arms_of_display() {
    let mate = derive(
        vec![display("snake_case")],
        "Mate",
        vec![unit("HotMate"), renamed("Terere", "cold")],
    );
    let display_impl = mate.kind_enum.impl_display_trait.unwrap();
    assert_eq!(display_impl.kind_name.name, "MateKind");
    assert_eq!(
        display_impl.arms,
        vec![
            DisplayArm { variant: 0, text: "hot_mate".to_owned() },
            DisplayArm { variant: 1, text: "cold".to_owned() },
        ]
    );
    assert_eq!(display_impl.fmt(1), Some("cold".to_owned()));
    assert_eq!(display_impl.fmt(2), None);
}

#[test]
fn the_arms_of_from_str() {
    let mate = derive(vec![], "Mate", vec![unit("HotMate"), renamed("Terere", "cold")]);
    let from_str_impl = mate.kind_enum.impl_from_str_trait.unwrap();
    let all = |name: &str| -> Vec<String> {
        DisplayCase::all().into_iter().map(|case| case.apply(name)).collect()
    };
    assert_eq!(
        from_str_impl,
        FromStrImpl {
            kind_name: Ident::new("MateKind"),
            renamed: vec![ParseArm { patterns: vec!["cold".to_owned()], variant: 1 }],
            exact: vec![
                ParseArm { patterns: vec!["HotMate".to_owned()], variant: 0 },
                ParseArm { patterns: vec!["Terere".to_owned()], variant: 1 },
            ],
            alternatives: vec![
                ParseArm { patterns: all("HotMate"), variant: 0 },
                ParseArm { patterns: all("Terere"), variant: 1 },
            ],
        }
    );
    assert_eq!(
        from_str_impl.alternatives[0].patterns,
        vec![
            "hot_mate", "hotMate", "HotMate", "HOT_MATE", "hot-mate", "HOT-MATE", "Hot Mate",
            "hotmate", "HOTMATE"
        ]
    );
}

#[test]
fn running_arms_that_were_written_by_hand() {
    // The first arm that has the text is taken, in each stage and across them.
    let by_hand = FromStrImpl {
        kind_name: Ident::new("some::Hand"),
        renamed: vec![
            ParseArm { patterns: vec![], variant: 9 },
            ParseArm { patterns: vec!["a".to_owned(), "b".to_owned()], variant: 4 },
            ParseArm { patterns: vec!["b".to_owned()], variant: 5 },
        ],
        exact: vec![
            ParseArm { patterns: vec!["b".to_owned()], variant: 6 },
            ParseArm { patterns: vec!["c".to_owned()], variant: 7 },
        ],
        alternatives: vec![
            ParseArm { patterns: vec!["c".to_owned(), "d".to_owned()], variant: 8 },
            ParseArm { patterns: vec!["d".to_owned()], variant: 2 },
        ],
    };
    assert_eq!(by_hand.from_str("a"), Ok(4));
    assert_eq!(by_hand.from_str("b"), Ok(4));
    assert_eq!(by_hand.from_str("c"), Ok(7));
    assert_eq!(by_hand.from_str("d"), Ok(8));
    assert_eq!(by_hand.from_str("e").unwrap_err().to_string(), "Failed to parse \"e\" as Hand");
}
