//! What the enum itself gets: the function `kind()` and the trait `Kinded`.

use vstd::prelude::*;
use crate::models::{FieldsType, Ident, IdentView, Meta, MetaView};
use crate::tokens::{duplicate_all, Token, TokenView};

verus! {

/// The pattern that takes the fields of a variant and binds none of them.
#[derive(Clone, Copy, Debug, PartialEq, Eq, Structural)]
pub enum Destruct {
    /// `{ .. }`
    Braces,
    /// `(..)`
    Parentheses,
    /// Nothing, for a variant without fields.
    Bare,
}

impl Destruct {
    /// The pattern for fields of the shape `fields_type`.
    pub open spec fn of(fields_type: FieldsType) -> Destruct {
        match fields_type {
            FieldsType::Named => Destruct::Braces,
            FieldsType::Unnamed => Destruct::Parentheses,
            FieldsType::Unit => Destruct::Bare,
        }
    }
}

/// One arm of the match in `kind()`: the variant of the enum at a position,
/// with the pattern for its fields, and the variant of the kind type that
/// it gives.
#[derive(Clone, Copy, Debug, PartialEq, Eq, Structural)]
pub struct MatchBranch {
    pub variant: usize,
    pub destruct: Destruct,
    pub kind: usize,
}

impl DeepView for MatchBranch {
    type V = MatchBranch;

    open spec fn deep_view(&self) -> MatchBranch {
        *self
    }
}

/// The function `kind()` of the enum: a match with one arm for each
/// variant and no other.
#[derive(Debug, PartialEq, Eq)]
pub struct FnKind {
    pub name: Ident,
    pub kind_name: Ident,
    /// Whether the function is a `const fn`, which can be evaluated in
    /// constants.
    pub constant: bool,
    pub branches: Vec<MatchBranch>,
}

/// The mathematical value of a [`FnKind`].
pub struct FnKindView {
    pub name: IdentView,
    pub kind_name: IdentView,
    pub constant: bool,
    pub branches: Seq<MatchBranch>,
}

impl DeepView for FnKind {
    type V = FnKindView;

    open spec fn deep_view(&self) -> FnKindView {
        FnKindView {
            name: self.name.deep_view(),
            kind_name: self.kind_name.deep_view(),
            constant: self.constant,
            branches: self.branches@,
        }
    }
}

/// The implementation of the trait `Kinded` for the enum: the kind type as
/// its `Kind`, and a `kind()` that is the enum's own.
#[derive(Debug, PartialEq, Eq)]
pub struct KindedImpl {
    pub generics: Vec<Token>,
    pub main_enum_with_generics: Vec<Token>,
    pub kind_name: Ident,
}

/// The mathematical value of a [`KindedImpl`].
pub struct KindedImplView {
    pub generics: Seq<TokenView>,
    pub main_enum_with_generics: Seq<TokenView>,
    pub kind_name: IdentView,
}

impl DeepView for KindedImpl {
    type V = KindedImplView;

    open spec fn deep_view(&self) -> KindedImplView {
        KindedImplView {
            generics: self.generics.deep_view(),
            main_enum_with_generics: self.main_enum_with_generics.deep_view(),
            kind_name: self.kind_name.deep_view(),
        }
    }
}

/// All that is emitted for the enum itself.
#[derive(Debug, PartialEq, Eq)]
pub struct MainEnumExtra {
    pub generics: Vec<Token>,
    pub main_enum_with_generics: Vec<Token>,
    pub fn_kind: FnKind,
    pub impl_kinded_trait: KindedImpl,
}

/// The mathematical value of a [`MainEnumExtra`].
pub struct MainEnumExtraView {
    pub generics: Seq<TokenView>,
    pub main_enum_with_generics: Seq<TokenView>,
    pub fn_kind: FnKindView,
    pub impl_kinded_trait: KindedImplView,
}

impl DeepView for MainEnumExtra {
    type V = MainEnumExtraView;

    open spec fn deep_view(&self) -> MainEnumExtraView {
        MainEnumExtraView {
            generics: self.generics.deep_view(),
            main_enum_with_generics: self.main_enum_with_generics.deep_view(),
            fn_kind: self.fn_kind.deep_view(),
            impl_kinded_trait: self.impl_kinded_trait.deep_view(),
        }
    }
}

/// The arm for the variant at position `i`, whose fields have the shape
/// `fields_type`: it gives the variant of the kind type at the same
/// position.
pub open spec fn match_branch_of(i: int, fields_type: FieldsType) -> MatchBranch {
    MatchBranch { variant: i as usize, destruct: Destruct::of(fields_type), kind: i as usize }
}

/// The function `kind()` for `meta`: a `const fn` with, for each variant
/// in order, its arm.
pub open spec fn fn_kind_of(meta: MetaView) -> FnKindView {
    FnKindView {
        name: meta.ident,
        kind_name: meta.kind_name(),
        constant: true,
        branches: Seq::new(
            meta.variants.len(),
            |i: int| match_branch_of(i, meta.variants[i].fields_type),
        ),
    }
}

/// The implementation of `Kinded` for `meta`.
pub open spec fn kinded_impl_of(meta: MetaView) -> KindedImplView {
    KindedImplView {
        generics: meta.generics,
        main_enum_with_generics: meta.main_enum_with_generics(),
        kind_name: meta.kind_name(),
    }
}

/// All that is emitted for the enum of `meta`.
pub open spec fn main_enum_extra_of(meta: MetaView) -> MainEnumExtraView {
    MainEnumExtraView {
        generics: meta.generics,
        main_enum_with_generics: meta.main_enum_with_generics(),
        fn_kind: fn_kind_of(meta),
        impl_kinded_trait: kinded_impl_of(meta),
    }
}

/// Describes all that is emitted for the enum itself.
pub fn gen_main_enum_extra(meta: &Meta) -> (extra: MainEnumExtra)
    ensures
        extra.deep_view() == main_enum_extra_of(meta.deep_view()),
{
    let fn_kind = gen_fn_kind(meta);
    let main_enum_with_generics = meta.main_enum_with_generics();
    let generics = duplicate_all(&meta.generics);
    let impl_kinded_trait = gen_impl_kinded_trait(meta);
    MainEnumExtra { generics, main_enum_with_generics, fn_kind, impl_kinded_trait }
}

/// Describes the function `kind()`.
pub fn gen_fn_kind(meta: &Meta) -> (fn_kind: FnKind)
    ensures
        fn_kind.deep_view() == fn_kind_of(meta.deep_view()),
{
    let name = meta.ident.duplicate();
    let kind_name = meta.kind_name();
    let mut branches: Vec<MatchBranch> = Vec::new();
    let mut i: usize = 0;
    while i < meta.variants.len()
        invariant
            i <= meta.variants.len(),
            branches.len() == i,
            forall|j: int|
                0 <= j < i ==> branches@[j] == match_branch_of(j, meta.variants@[j].fields_type),
        decreases meta.variants.len() - i,
    {
        branches.push(gen_match_branch(i, meta.variants[i].fields_type));
        i += 1;
    }
    assert(branches@ =~= fn_kind_of(meta.deep_view()).branches);
    FnKind { name, kind_name, constant: true, branches }
}

/// Describes the arm of `kind()` for the variant at position `i`.
pub fn gen_match_branch(i: usize, fields_type: FieldsType) -> (branch: MatchBranch)
    ensures
        branch == match_branch_of(i as int, fields_type),
{
    let destruct = match fields_type {
        FieldsType::Named => Destruct::Braces,
        FieldsType::Unnamed => Destruct::Parentheses,
        FieldsType::Unit => Destruct::Bare,
    };
    MatchBranch { variant: i, destruct, kind: i }
}

/// Describes the implementation of `Kinded`.
pub fn gen_impl_kinded_trait(meta: &Meta) -> (kinded_impl: KindedImpl)
    ensures
        kinded_impl.deep_view() == kinded_impl_of(meta.deep_view()),
{
    let kind_name = meta.kind_name();
    let main_enum_with_generics = meta.main_enum_with_generics();
    let generics = duplicate_all(&meta.generics);
    KindedImpl { generics, main_enum_with_generics, kind_name }
}

} // verus!
