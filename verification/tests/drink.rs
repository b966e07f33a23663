//! Display, parsing, and the options that shape the kind type.

use kinded::{
    generate, parse_derive_input, Attribute, Data, Delimiter, DeriveInput, DisplayCase, Fields,
    Generated, Ident, Meta, Path, SourceVariant, Span, Token, Value,
};

/// `#[kinded(<args>)]`
fn kinded(args: Vec<Token>) -> Attribute {
    Attribute {
        path: Path::simple("kinded"),
        tokens: vec![Token::group(Delimiter::Parenthesis, args)],
        span: Span::CallSite,
    }
}

fn unit(name: &str) -> SourceVariant {
    SourceVariant { attrs: vec![], ident: Ident::new(name), fields: Fields::Unit }
}

fn tuple(name: &str, fields: Vec<Token>) -> SourceVariant {
    SourceVariant { attrs: vec![], ident: Ident::new(name), fields: Fields::Unnamed(fields) }
}

fn an_enum(attrs: Vec<Attribute>, name: &str, variants: Vec<SourceVariant>) -> DeriveInput {
    DeriveInput {
        attrs,
        vis: vec![],
        ident: Ident::new(name),
        generics: vec![],
        data: Data::Enum(variants),
    }
}

fn model(input: DeriveInput) -> Meta {
    parse_derive_input(input).unwrap()
}

fn derive(input: DeriveInput) -> Generated {
    generate(model(input))
}

/// ```text
/// #[kinded(display = "<case>")]
/// enum Drink {
///     HotMate,
/// }
/// ```
fn drink_displayed(case: &str) -> Generated {
    derive(an_enum(
        vec![kinded(vec![Token::ident("display"), Token::punct('='), Token::string(case)])],
        "Drink",
        vec![unit("HotMate")],
    ))
}

fn kind(generated: &Generated, name: &str) -> usize {
    generated.kind_enum.definition.position(name).unwrap()
}

fn to_string(generated: &Generated, name: &str) -> String {
    generated.display(kind(generated, name)).unwrap()
}

fn parse(generated: &Generated, text: &str) -> Result<usize, kinded::ParseKindError> {
    generated.from_str(text).unwrap()
}

#[test]
fn should_display_snake_case() {
    let drink = drink_displayed("snake_case");
    assert_eq!(to_string(&drink, "HotMate"), "hot_mate")
}

#[test]
fn should_display_camel_case() {
    let drink = drink_displayed("camelCase");
    assert_eq!(to_string(&drink, "HotMate"), "hotMate")
}

#[test]
fn should_display_pascal_case() {
    let drink = drink_displayed("PascalCase");
    assert_eq!(to_string(&drink, "HotMate"), "HotMate")
}

#[test]
fn should_display_screaming_snake_case() {
    let drink = drink_displayed("SCREAMING_SNAKE_CASE");
    assert_eq!(to_string(&drink, "HotMate"), "HOT_MATE")
}

#[test]
fn should_display_kebab_case() {
    let drink = drink_displayed("kebab-case");
    assert_eq!(to_string(&drink, "HotMate"), "hot-mate")
}

#[test]
fn should_display_screaming_kebab_case() {
    let drink = drink_displayed("SCREAMING-KEBAB-CASE");
    assert_eq!(to_string(&drink, "HotMate"), "HOT-MATE")
}

#[test]
fn should_display_title_case() {
    let drink = drink_displayed("Title Case");
    assert_eq!(to_string(&drink, "HotMate"), "Hot Mate")
}

#[test]
fn should_display_lower_case() {
    let drink = drink_displayed("lowercase");
    assert_eq!(to_string(&drink, "HotMate"), "hotmate")
}

#[test]
fn should_display_upper_case() {
    let drink = drink_displayed("UPPERCASE");
    assert_eq!(to_string(&drink, "HotMate"), "HOTMATE")
}

/// ```text
/// enum Mate {
///     HotMate,
///     Terere,
/// }
/// ```
fn mate() -> Generated {
    derive(an_enum(vec![], "Mate", vec![unit("HotMate"), unit("Terere")]))
}

#[test]
fn should_implement_from_str_trait() {
    let mate = mate();

    let parsed = parse(&mate, "Terere").unwrap();
    assert_eq!(parsed, kind(&mate, "Terere"));

    let parsed = parse(&mate, "HotMate").unwrap();
    assert_eq!(parsed, kind(&mate, "HotMate"));
}

#[test]
fn should_parse_alternative_cases() {
    let mate = mate();

    // All possible alternatives of HotMate
    let hot_mate_alternatives = [
        "hot_mate", // snake_case
        "hotMate",  // camelCase
        "HotMate",  // PascalCase
        "HOT_MATE", // SCREAMING_SNAKE_CASE
        "hot-mate", // kebab-case
        "HOT-MATE", // SCREAMING-KEBAB-CASE
        "Hot Mate", // Title Case
        "hotmate",  // lowercase
        "HOTMATE",  // UPPERCASE
    ];
    for alt in hot_mate_alternatives {
        let parsed = parse(&mate, alt).unwrap();
        assert_eq!(parsed, kind(&mate, "HotMate"));
    }

    // Just a few alternatives of Terere
    let terere_alternatives = ["terere", "TERERE", "Terere"];
    for alt in terere_alternatives {
        let parsed = parse(&mate, alt).unwrap();
        assert_eq!(parsed, kind(&mate, "Terere"));
    }
}

#[test]
fn should_distinguish_very_similar_abbreviations() {
    let db = derive(an_enum(vec![], "Db", vec![unit("MySql"), unit("MySQL")]));

    assert_eq!(parse(&db, "MySql").unwrap(), kind(&db, "MySql"));
    assert_eq!(parse(&db, "MySQL").unwrap(), kind(&db, "MySQL"));
    assert_ne!(kind(&db, "MySql"), kind(&db, "MySQL"));
}

/// ```text
/// #[kinded(kind = SimpleDrink)]
/// enum Drink {
///     Tea(&'static str),
///     Coffee(&'static str),
/// }
/// ```
fn simple_drink() -> DeriveInput {
    let text = || vec![Token::punct('&'), Token::joint('\''), Token::ident("static"), Token::ident("str")];
    an_enum(
        vec![kinded(vec![Token::ident("kind"), Token::punct('='), Token::ident("SimpleDrink")])],
        "Drink",
        vec![tuple("Tea", text()), tuple("Coffee", text())],
    )
}

#[test]
fn main_should_allow_to_give_custom_name_kind_type() {
    let meta = model(simple_drink());
    let tea = meta.position("Tea").unwrap();
    let drink = generate(meta);
    assert_eq!(drink.kind_enum.definition.kind_name.name, "SimpleDrink");

    let green_tea = Value { variant: tea, payload: "Green" };
    assert_eq!(drink.kind(&green_tea), Some(kind(&drink, "Tea")));
}

#[test]
fn lib_should_allow_to_give_custom_name_kind_type() {
    let meta = model(simple_drink());
    assert_eq!(meta.kind_name().name, "SimpleDrink");
    let tea = meta.position("Tea").unwrap();
    let drink = generate(meta);
    assert_eq!(drink.kind_enum.definition.kind_name.name, "SimpleDrink");
    assert_eq!(drink.kind_enum.impl_kind_trait.kind_name.name, "SimpleDrink");
    assert_eq!(drink.main_enum_extra.fn_kind.kind_name.name, "SimpleDrink");
    assert_eq!(drink.main_enum_extra.impl_kinded_trait.kind_name.name, "SimpleDrink");

    let green_tea = Value { variant: tea, payload: "Green" };
    assert_eq!(drink.kind(&green_tea), Some(kind(&drink, "Tea")));
}

#[test]
fn should_allow_to_derive_custom_traits() {
    let text = || vec![Token::punct('&'), Token::joint('\''), Token::ident("static"), Token::ident("str")];
    let derive_hash_eq = kinded(vec![
        Token::ident("derive"),
        Token::group(
            Delimiter::Parenthesis,
            vec![Token::ident("Hash"), Token::punct(','), Token::ident("Eq")],
        ),
    ]);
    let drink = derive(an_enum(
        vec![derive_hash_eq],
        "Drink",
        vec![tuple("Tea", text()), tuple("Coffee", text())],
    ));

    let derives: Vec<String> = drink
        .kind_enum
        .definition
        .derives
        .iter()
        .map(|path| path.segments[0].name.clone())
        .collect();
    assert_eq!(derives, vec!["Debug", "Clone", "Copy", "PartialEq", "Eq", "Hash"]);

    let mut drinks = std::collections::HashMap::new();
    drinks.insert(kind(&drink, "Tea"), 5);
}

#[test]
fn should_work_with_generics() {
    // enum Maybe<T> { Just(T), Nothing }
    let generics = vec![Token::punct('<'), Token::ident("T"), Token::punct('>')];
    let mut input = an_enum(vec![], "Maybe", vec![tuple("Just", vec![Token::ident("T")]), unit("Nothing")]);
    input.generics = generics;
    let meta = model(input);
    let just = meta.position("Just").unwrap();
    let maybe = generate(meta);

    assert_eq!(maybe.kind(&Value { variant: just, payload: 13 }), Some(kind(&maybe, "Just")));
    assert_eq!(maybe.kind_enum.definition.kind_name.name, "MaybeKind");
    assert_eq!(
        maybe.main_enum_extra.main_enum_with_generics,
        vec![Token::ident("Maybe"), Token::punct('<'), Token::ident("T"), Token::punct('>')]
    );
    assert_eq!(
        maybe.kind_enum.impl_from_traits.unwrap().generics,
        vec![Token::punct('<'), Token::ident("T"), Token::punct('>')]
    );
}

#[test]
fn should_work_with_lifetimes() {
    // enum Identifier<'a, I> { Name(&'a str), Id(I) }
    let generics = || {
        vec![
            Token::punct('<'),
            Token::joint('\''),
            Token::ident("a"),
            Token::punct(','),
            Token::ident("I"),
            Token::punct('>'),
        ]
    };
    let mut input = an_enum(
        vec![],
        "Identifier",
        vec![
            tuple(
                "Name",
                vec![Token::punct('&'), Token::joint('\''), Token::ident("a"), Token::ident("str")],
            ),
            tuple("Id", vec![Token::ident("I")]),
        ],
    );
    input.generics = generics();
    let meta = model(input);
    let name = meta.position("Name").unwrap();
    let identifier = generate(meta);

    let value: Value<&str> = Value { variant: name, payload: "Xen" };
    assert_eq!(identifier.kind(&value), Some(kind(&identifier, "Name")));
    assert_eq!(identifier.main_enum_extra.generics, generics());
    assert_eq!(identifier.main_enum_extra.impl_kinded_trait.generics, generics());
}

#[test]
fn every_convention_is_tried_in_one_order() {
    assert_eq!(
        DisplayCase::all(),
        vec![
            DisplayCase::Snake,
            DisplayCase::Camel,
            DisplayCase::Pascal,
            DisplayCase::ScreamingSnake,
            DisplayCase::Kebab,
            DisplayCase::ScreamingKebab,
            DisplayCase::Title,
            DisplayCase::Lower,
            DisplayCase::Upper,
        ]
    );
    let literals: Vec<&str> = DisplayCase::all().into_iter().map(|case| case.literal()).collect();
    assert_eq!(
        literals,
        vec![
            "snake_case",
            "camelCase",
            "PascalCase",
            "SCREAMING_SNAKE_CASE",
            "kebab-case",
            "SCREAMING-KEBAB-CASE",
            "Title Case",
            "lowercase",
            "UPPERCASE",
        ]
    );
    for case in DisplayCase::all() {
        assert_eq!(DisplayCase::from_literal(case.literal()), Some(case));
    }
    assert_eq!(DisplayCase::from_literal("snakeCase"), None);
    assert_eq!(DisplayCase::from_literal(""), None);
}

#[test]
fn applying_a_convention_rewrites_the_name() {
    assert_eq!(DisplayCase::Snake.apply("HotMate"), "hot_mate");
    assert_eq!(DisplayCase::ScreamingKebab.apply("HotMate"), "HOT-MATE");
    assert_eq!(DisplayCase::Lower.apply("HotMate"), "hotmate");
    assert_eq!(DisplayCase::Upper.apply("HotMate"), "HOTMATE");
    assert_eq!(DisplayCase::Snake.apply("MySQL"), "my_sql");
    assert_eq!(DisplayCase::Snake.apply("MySql"), "my_sql");
    assert_eq!(kinded::apply_maybe_case("HotMate".to_owned(), Some(DisplayCase::Kebab)), "hot-mate");
    assert_eq!(kinded::apply_maybe_case("HotMate".to_owned(), None), "HotMate");
}
