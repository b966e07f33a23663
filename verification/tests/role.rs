//! An enum with a unit variant, a tuple variant and a struct variant, and
//! what is derived for it.

use kinded::{
    compute_kind, generate, parse_derive_input, Attribute, Data, Delimiter, DeriveInput, Fields,
    Generated, Ident, Kind, Kinded, Meta, Path, SourceVariant, Span, Token, Value,
};

/// ```text
/// enum Role {
///     Guest,
///     User(i32),
///     #[allow(dead_code)]
///     Admin { id: i32 },
/// }
/// ```
fn role_input() -> DeriveInput {
    let allow = Attribute {
        path: Path::simple("allow"),
        tokens: vec![Token::group(Delimiter::Parenthesis, vec![Token::ident("dead_code")])],
        span: Span::CallSite,
    };
    DeriveInput {
        attrs: vec![],
        vis: vec![],
        ident: Ident::new("Role"),
        generics: vec![],
        data: Data::Enum(vec![
            SourceVariant { attrs: vec![], ident: Ident::new("Guest"), fields: Fields::Unit },
            SourceVariant {
                attrs: vec![],
                ident: Ident::new("User"),
                fields: Fields::Unnamed(vec![Token::ident("i32")]),
            },
            SourceVariant {
                attrs: vec![allow],
                ident: Ident::new("Admin"),
                fields: Fields::Named(vec![
                    Token::ident("id"),
                    Token::punct(':'),
                    Token::ident("i32"),
                ]),
            },
        ]),
    }
}

fn role_meta() -> Meta {
    parse_derive_input(role_input()).unwrap()
}

/// The emitted items for `Role`, with a value of each variant.
struct Role {
    generated: Generated,
    guest: usize,
    user: usize,
    admin: usize,
}

impl Role {
    fn new() -> Role {
        let meta = role_meta();
        let guest = meta.position("Guest").unwrap();
        let user = meta.position("User").unwrap();
        let admin = meta.position("Admin").unwrap();
        Role { generated: generate(meta), guest, user, admin }
    }

    fn kind_named(&self, name: &str) -> Option<usize> {
        self.generated.kind_enum.definition.position(name)
    }

    fn derives(&self, name: &str) -> bool {
        self.generated.kind_enum.definition.derives.contains(&Path::simple(name))
    }
}

#[test]
fn main_should_convert_unit_variant() {
    let role = Role::new();
    let guest = Value { variant: role.guest, payload: () };
    assert_eq!(role.generated.kind(&guest), role.kind_named("Guest"));
}

#[test]
fn main_should_convert_unnamed_variant() {
    let role = Role::new();
    let user = Value { variant: role.user, payload: 13 };
    assert_eq!(role.generated.kind(&user), role.kind_named("User"));
}

#[test]
fn main_should_convert_named_variant() {
    let role = Role::new();
    let admin = Value { variant: role.admin, payload: 404 };
    assert_eq!(role.generated.kind(&admin), role.kind_named("Admin"));
}

#[test]
fn lib_should_convert_unit_variant() {
    let role = Role::new();
    let guest = Value { variant: role.guest, payload: () };
    assert_eq!(role.generated.kind(&guest), Some(0));
    assert_eq!(role.generated.kind(&guest), role.kind_named("Guest"));
}

#[test]
fn lib_should_convert_unnamed_variant() {
    let role = Role::new();
    let user = Value { variant: role.user, payload: 13 };
    assert_eq!(role.generated.kind(&user), Some(1));
    assert_eq!(role.generated.kind(&user), role.kind_named("User"));
}

#[test]
fn lib_should_convert_named_variant() {
    let role = Role::new();
    let admin = Value { variant: role.admin, payload: 404 };
    assert_eq!(role.generated.kind(&admin), Some(2));
    assert_eq!(role.generated.kind(&admin), role.kind_named("Admin"));
}

/// `Role` and `RoleKind` written out, to hold the traits against.
enum WrittenRole {
    #[allow(dead_code)]
    Guest,
    #[allow(dead_code)]
    User(i32),
    Admin {
        #[allow(dead_code)]
        id: i32,
    },
}

#[derive(Debug, Clone, Copy, PartialEq, Eq)]
enum WrittenRoleKind {
    Guest,
    User,
    Admin,
}

impl Kind for WrittenRoleKind {
    fn all() -> Vec<WrittenRoleKind> {
        vec![WrittenRoleKind::Guest, WrittenRoleKind::User, WrittenRoleKind::Admin]
    }
}

impl Kinded for WrittenRole {
    type Kind = WrittenRoleKind;

    fn kind(&self) -> WrittenRoleKind {
        match self {
            WrittenRole::Guest => WrittenRoleKind::Guest,
            WrittenRole::User(..) => WrittenRoleKind::User,
            WrittenRole::Admin { .. } => WrittenRoleKind::Admin,
        }
    }
}

#[test]
fn main_should_implement_kinded() {
    let admin = WrittenRole::Admin { id: 32 };
    assert_eq!(compute_kind(admin), WrittenRoleKind::Admin);
}

#[test]
fn lib_should_implement_kinded() {
    let admin = WrittenRole::Admin { id: 32 };
    assert_eq!(compute_kind(admin), WrittenRoleKind::Admin);
    assert_eq!(WrittenRoleKind::all().len(), 3);
    // The library's own pair of an enum with data and its kind.
    assert_eq!(compute_kind(Fields::Unnamed(vec![Token::ident("i32")])), kinded::FieldsType::Unnamed);
}

#[test]
fn main_should_implement_debug() {
    let role = Role::new();
    assert!(role.derives("Debug"));
    let guest = role.kind_named("Guest").unwrap();
    assert_eq!(role.generated.kind_enum.definition.variant_name(guest).unwrap(), "Guest");
}

#[test]
fn lib_should_implement_debug() {
    let role = Role::new();
    assert!(role.derives("Debug"));
    let guest = role.kind_named("Guest").unwrap();
    assert_eq!(
        format!("{}", role.generated.kind_enum.definition.variant_name(guest).unwrap()),
        "Guest"
    );
}

#[test]
fn main_should_implement_clone() {
    let role = Role::new();
    assert!(role.derives("Clone"));
}

#[test]
fn lib_should_implement_clone() {
    let role = Role::new();
    assert!(role.derives("Clone"));
    let admin = role.kind_named("Admin").unwrap();
    let _ = admin.clone();
}

#[test]
fn main_should_implement_copy() {
    let role = Role::new();
    assert!(role.derives("Copy"));
}

#[test]
fn lib_should_implement_copy() {
    let role = Role::new();
    assert!(role.derives("Copy"));
}

#[test]
fn main_should_implement_eq() {
    let role = Role::new();
    assert!(role.derives("PartialEq"));
    assert!(role.derives("Eq"));
    assert!(role.kind_named("Guest").eq(&role.kind_named("Guest")));
    assert!(!role.kind_named("Guest").eq(&role.kind_named("User")));
}

#[test]
fn lib_should_implement_eq() {
    let role = Role::new();
    assert!(role.derives("PartialEq"));
    assert!(role.derives("Eq"));
    assert!(role.kind_named("Guest").eq(&role.kind_named("Guest")));
    assert!(!role.kind_named("Guest").eq(&role.kind_named("User")));
}

#[test]
fn main_should_implement_from() {
    let role = Role::new();
    let user = Value { variant: role.user, payload: 123 };
    assert_eq!(role.generated.from(user), role.kind_named("User"));
}

#[test]
fn lib_should_implement_from() {
    let role = Role::new();
    let user = Value { variant: role.user, payload: 123 };
    assert_eq!(role.generated.from(user), role.kind_named("User"));
}

#[test]
fn main_should_implement_from_ref() {
    let role = Role::new();
    let guest = Value { variant: role.guest, payload: () };
    assert_eq!(role.generated.from_ref(&guest), role.kind_named("Guest"));
}

#[test]
fn lib_should_implement_from_ref() {
    let role = Role::new();
    let guest = Value { variant: role.guest, payload: () };
    assert_eq!(role.generated.from_ref(&guest), role.kind_named("Guest"));
}

#[test]
fn should_implement_display() {
    let role = Role::new();
    let guest = role.kind_named("Guest").unwrap();
    assert_eq!(format!("{}", role.generated.display(guest).unwrap()), "Guest");

    let user = role.kind_named("User").unwrap();
    assert_eq!(format!("{}", role.generated.display(user).unwrap()), "User");
}

#[test]
fn should_provide_all_function_that_returns_iterator() {
    let role = Role::new();
    let kinds: Vec<_> = role.generated.all().into_iter().collect();
    assert_eq!(
        kinds,
        vec![
            role.kind_named("Guest").unwrap(),
            role.kind_named("User").unwrap(),
            role.kind_named("Admin").unwrap(),
        ],
    );
    let names: Vec<String> = kinds
        .into_iter()
        .map(|kind| role.generated.kind_enum.definition.variant_name(kind).unwrap())
        .collect();
    assert_eq!(names, vec!["Guest", "User", "Admin"]);
}

#[test]
fn should_return_error_on_failure() {
    let mate = mate();
    let error: kinded::ParseKindError = mate.from_str("Calabaza").unwrap().unwrap_err();
    assert_eq!(error.to_string(), r#"Failed to parse "Calabaza" as MateKind"#);
}

/// ```text
/// enum Mate {
///     HotMate,
///     Terere,
/// }
/// ```
fn mate() -> Generated {
    let input = DeriveInput {
        attrs: vec![],
        vis: vec![],
        ident: Ident::new("Mate"),
        generics: vec![],
        data: Data::Enum(vec![
            SourceVariant { attrs: vec![], ident: Ident::new("HotMate"), fields: Fields::Unit },
            SourceVariant { attrs: vec![], ident: Ident::new("Terere"), fields: Fields::Unit },
        ]),
    };
    generate(parse_derive_input(input).unwrap())
}
