//! The kind type: what is declared and what is implemented for it.

use vstd::prelude::*;
use crate::models::{
    cased, DisplayCase, Ident, IdentView, Meta, MetaView, Path, PathView, Skippable, VariantView,
};
use crate::tokens::{duplicate_all, duplicate_runs, Token, TokenView};

verus! {

/// One variant of the kind type.
#[derive(Debug, PartialEq, Eq)]
pub struct KindVariant {
    pub ident: Ident,
    /// The attributes on it.
    pub attrs: Vec<Vec<Token>>,
}

/// The mathematical value of a [`KindVariant`].
pub struct KindVariantView {
    pub ident: IdentView,
    pub attrs: Seq<Seq<TokenView>>,
}

impl DeepView for KindVariant {
    type V = KindVariantView;

    open spec fn deep_view(&self) -> KindVariantView {
        KindVariantView { ident: self.ident.deep_view(), attrs: self.attrs.deep_view() }
    }
}

/// The declaration of the kind type: an enum of variants without fields.
/// Its `all()` lists the variants in this order.
#[derive(Debug, PartialEq, Eq)]
pub struct Definition {
    /// The traits in its `#[derive(..)]`.
    pub derives: Vec<Path>,
    /// The other attributes on it.
    pub attrs: Vec<Vec<Token>>,
    pub vis: Vec<Token>,
    pub kind_name: Ident,
    pub variants: Vec<KindVariant>,
}

/// The mathematical value of a [`Definition`].
pub struct DefinitionView {
    pub derives: Seq<PathView>,
    pub attrs: Seq<Seq<TokenView>>,
    pub vis: Seq<TokenView>,
    pub kind_name: IdentView,
    pub variants: Seq<KindVariantView>,
}

impl DeepView for Definition {
    type V = DefinitionView;

    open spec fn deep_view(&self) -> DefinitionView {
        DefinitionView {
            derives: self.derives.deep_view(),
            attrs: self.attrs.deep_view(),
            vis: self.vis.deep_view(),
            kind_name: self.kind_name.deep_view(),
            variants: self.variants.deep_view(),
        }
    }
}

/// The two conversions from the enum to its kind: `From` of a value and of
/// a reference to one. Both go through the enum's `kind()`.
#[derive(Debug, PartialEq, Eq)]
pub struct FromImpls {
    pub generics: Vec<Token>,
    pub main_enum_with_generics: Vec<Token>,
    pub kind_name: Ident,
}

/// The mathematical value of [`FromImpls`].
pub struct FromImplsView {
    pub generics: Seq<TokenView>,
    pub main_enum_with_generics: Seq<TokenView>,
    pub kind_name: IdentView,
}

impl DeepView for FromImpls {
    type V = FromImplsView;

    open spec fn deep_view(&self) -> FromImplsView {
        FromImplsView {
            generics: self.generics.deep_view(),
            main_enum_with_generics: self.main_enum_with_generics.deep_view(),
            kind_name: self.kind_name.deep_view(),
        }
    }
}

/// One arm of the match in `Display`: the variant at a position and the
/// text written for it.
#[derive(Debug, PartialEq, Eq)]
pub struct DisplayArm {
    pub variant: usize,
    pub text: String,
}

/// The mathematical value of a [`DisplayArm`].
pub struct DisplayArmView {
    pub variant: usize,
    pub text: Seq<char>,
}

impl DeepView for DisplayArm {
    type V = DisplayArmView;

    open spec fn deep_view(&self) -> DisplayArmView {
        DisplayArmView { variant: self.variant, text: self.text@ }
    }
}

/// The implementation of `Display`: a match with one arm for each variant.
#[derive(Debug, PartialEq, Eq)]
pub struct DisplayImpl {
    pub kind_name: Ident,
    pub arms: Vec<DisplayArm>,
}

/// The mathematical value of a [`DisplayImpl`].
pub struct DisplayImplView {
    pub kind_name: IdentView,
    pub arms: Seq<DisplayArmView>,
}

impl DeepView for DisplayImpl {
    type V = DisplayImplView;

    open spec fn deep_view(&self) -> DisplayImplView {
        DisplayImplView { kind_name: self.kind_name.deep_view(), arms: self.arms.deep_view() }
    }
}

/// One arm of a match in `FromStr`: the texts that are taken for the
/// variant at a position.
#[derive(Debug, PartialEq, Eq)]
pub struct ParseArm {
    pub patterns: Vec<String>,
    pub variant: usize,
}

/// The mathematical value of a [`ParseArm`].
pub struct ParseArmView {
    pub patterns: Seq<Seq<char>>,
    pub variant: usize,
}

impl DeepView for ParseArm {
    type V = ParseArmView;

    open spec fn deep_view(&self) -> ParseArmView {
        ParseArmView { patterns: self.patterns.deep_view(), variant: self.variant }
    }
}

/// The implementation of `FromStr`: three matches that are tried one after
/// the other, and the error where none has an arm for the text.
#[derive(Debug, PartialEq, Eq)]
pub struct FromStrImpl {
    pub kind_name: Ident,
    /// First the renames, one arm for each variant that has one.
    pub renamed: Vec<ParseArm>,
    /// Then the names as written, one arm for each variant.
    pub exact: Vec<ParseArm>,
    /// Then each name in all the conventions, one arm for each variant.
    pub alternatives: Vec<ParseArm>,
}

/// The mathematical value of a [`FromStrImpl`].
pub struct FromStrImplView {
    pub kind_name: IdentView,
    pub renamed: Seq<ParseArmView>,
    pub exact: Seq<ParseArmView>,
    pub alternatives: Seq<ParseArmView>,
}

impl DeepView for FromStrImpl {
    type V = FromStrImplView;

    open spec fn deep_view(&self) -> FromStrImplView {
        FromStrImplView {
            kind_name: self.kind_name.deep_view(),
            renamed: self.renamed.deep_view(),
            exact: self.exact.deep_view(),
            alternatives: self.alternatives.deep_view(),
        }
    }
}

/// The implementation of the trait `Kind`, whose `all()` is that of the
/// kind type.
#[derive(Debug, PartialEq, Eq)]
pub struct KindImpl {
    pub kind_name: Ident,
}

/// The mathematical value of a [`KindImpl`].
pub struct KindImplView {
    pub kind_name: IdentView,
}

impl DeepView for KindImpl {
    type V = KindImplView;

    open spec fn deep_view(&self) -> KindImplView {
        KindImplView { kind_name: self.kind_name.deep_view() }
    }
}

/// All that is emitted for the kind type. What the declaration opts out of
/// is absent.
#[derive(Debug, PartialEq, Eq)]
pub struct KindEnum {
    pub definition: Definition,
    pub impl_from_traits: Option<FromImpls>,
    pub impl_display_trait: Option<DisplayImpl>,
    pub impl_from_str_trait: Option<FromStrImpl>,
    pub impl_kind_trait: KindImpl,
}

/// The mathematical value of a [`KindEnum`].
pub struct KindEnumView {
    pub definition: DefinitionView,
    pub impl_from_traits: Option<FromImplsView>,
    pub impl_display_trait: Option<DisplayImplView>,
    pub impl_from_str_trait: Option<FromStrImplView>,
    pub impl_kind_trait: KindImplView,
}

impl DeepView for KindEnum {
    type V = KindEnumView;

    open spec fn deep_view(&self) -> KindEnumView {
        KindEnumView {
            definition: self.definition.deep_view(),
            impl_from_traits: self.impl_from_traits.deep_view(),
            impl_display_trait: self.impl_display_trait.deep_view(),
            impl_from_str_trait: self.impl_from_str_trait.deep_view(),
            impl_kind_trait: self.impl_kind_trait.deep_view(),
        }
    }
}

/// The declaration of the kind type of `meta`: its name, the derives and
/// attributes it gets, the visibility of the enum, and one variant for
/// each variant of the enum, in order, under the same name and with the
/// attributes given for it.
pub open spec fn definition_of(meta: MetaView) -> DefinitionView {
    DefinitionView {
        derives: meta.derive_traits(),
        attrs: match meta.kinded_attrs.attrs {
            Some(attrs) => attrs,
            None => Seq::empty(),
        },
        vis: meta.vis,
        kind_name: meta.kind_name(),
        variants: Seq::new(
            meta.variants.len(),
            |i: int| KindVariantView { ident: meta.variants[i].ident, attrs: meta.variants[i].attrs },
        ),
    }
}

/// The conversions from the enum of `meta`, unless `From` is skipped.
pub open spec fn from_impls_of(meta: MetaView) -> Option<FromImplsView> {
    if meta.skips(Skippable::FromImpl) {
        None
    } else {
        Some(
            FromImplsView {
                generics: meta.generics,
                main_enum_with_generics: meta.main_enum_with_generics(),
                kind_name: meta.kind_name(),
            },
        )
    }
}

/// The implementation of `Display` for `meta`, unless it is skipped: for
/// each variant, in order, an arm with what it is displayed as.
pub open spec fn display_impl_of(meta: MetaView) -> Option<DisplayImplView> {
    if meta.skips(Skippable::DisplayImpl) {
        None
    } else {
        Some(
            DisplayImplView {
                kind_name: meta.kind_name(),
                arms: Seq::new(
                    meta.variants.len(),
                    |i: int| DisplayArmView { variant: i as usize, text: meta.display_name(i) },
                ),
            },
        )
    }
}

/// The arms for the renames among the first `n` of `variants`: one for each
/// variant that has a rename, in order.
pub open spec fn renamed_arms(variants: Seq<VariantView>, n: int) -> Seq<ParseArmView>
    decreases n,
{
    if n <= 0 {
        Seq::empty()
    } else {
        let before = renamed_arms(variants, n - 1);
        match variants[n - 1].rename {
            Some(rename) => before.push(
                ParseArmView { patterns: seq![rename], variant: (n - 1) as usize },
            ),
            None => before,
        }
    }
}

/// `name` in every convention, in the order of [`DisplayCase::every`].
pub open spec fn alternatives_of(name: Seq<char>) -> Seq<Seq<char>> {
    Seq::new(DisplayCase::every().len(), |c: int| cased(name, DisplayCase::every()[c]))
}

/// The implementation of `FromStr` for `meta`, unless it is skipped.
pub open spec fn from_str_impl_of(meta: MetaView) -> Option<FromStrImplView> {
    if meta.skips(Skippable::FromStrImpl) {
        None
    } else {
        Some(
            FromStrImplView {
                kind_name: meta.kind_name(),
                renamed: renamed_arms(meta.variants, meta.variants.len() as int),
                exact: Seq::new(
                    meta.variants.len(),
                    |i: int|
                        ParseArmView { patterns: seq![meta.variants[i].ident.name], variant: i as usize },
                ),
                alternatives: Seq::new(
                    meta.variants.len(),
                    |i: int|
                        ParseArmView {
                            patterns: alternatives_of(meta.variants[i].ident.name),
                            variant: i as usize,
                        },
                ),
            },
        )
    }
}

/// The implementation of `Kind` for `meta`.
pub open spec fn kind_impl_of(meta: MetaView) -> KindImplView {
    KindImplView { kind_name: meta.kind_name() }
}

/// All that is emitted for the kind type of `meta`.
pub open spec fn kind_enum_of(meta: MetaView) -> KindEnumView {
    KindEnumView {
        definition: definition_of(meta),
        impl_from_traits: from_impls_of(meta),
        impl_display_trait: display_impl_of(meta),
        impl_from_str_trait: from_str_impl_of(meta),
        impl_kind_trait: kind_impl_of(meta),
    }
}

/// Whether the declaration opts out of `what`.
fn skips(meta: &Meta, what: Skippable) -> (skipped: bool)
    ensures
        skipped == meta.deep_view().skips(what),
{
    match &meta.kinded_attrs.opt_outs {
        Some(opt_outs) => opt_outs.skips(what),
        None => false,
    }
}

/// Describes all that is emitted for the kind type of `meta`.
pub fn gen_kind_enum(meta: &Meta) -> (kind_enum: KindEnum)
    ensures
        kind_enum.deep_view() == kind_enum_of(meta.deep_view()),
{
    let definition = gen_definition(meta);
    let impl_from_traits = gen_impl_from_traits(meta);
    let impl_display_trait = gen_impl_display_trait(meta);
    let impl_from_str_trait = gen_impl_from_str_trait(meta);
    let impl_kind_trait = gen_impl_kind_trait(meta);
    KindEnum {
        definition,
        impl_from_traits,
        impl_display_trait,
        impl_from_str_trait,
        impl_kind_trait,
    }
}

/// Describes the declaration of the kind type.
pub fn gen_definition(meta: &Meta) -> (definition: Definition)
    ensures
        definition.deep_view() == definition_of(meta.deep_view()),
{
    let vis = duplicate_all(&meta.vis);
    let kind_name = meta.kind_name();
    let derives = meta.derive_traits();
    let attrs = match &meta.kinded_attrs.attrs {
        Some(attrs) => duplicate_runs(attrs),
        None => {
            let attrs: Vec<Vec<Token>> = Vec::new();
            assert(attrs.deep_view() =~= Seq::empty());
            attrs
        },
    };
    let mut variants: Vec<KindVariant> = Vec::new();
    let mut i: usize = 0;
    while i < meta.variants.len()
        invariant
            i <= meta.variants.len(),
            variants.len() == i,
            forall|j: int|
                0 <= j < i ==> variants@[j].deep_view() == (KindVariantView {
                    ident: meta.variants@[j].ident.deep_view(),
                    attrs: meta.variants@[j].attrs.deep_view(),
                }),
        decreases meta.variants.len() - i,
    {
        let variant = &meta.variants[i];
        variants.push(
            KindVariant { ident: variant.ident.duplicate(), attrs: duplicate_runs(&variant.attrs) },
        );
        i += 1;
    }
    assert(variants.deep_view() =~= definition_of(meta.deep_view()).variants);
    Definition { derives, attrs, vis, kind_name, variants }
}

/// Describes the conversions from the enum, unless `From` is skipped.
pub fn gen_impl_from_traits(meta: &Meta) -> (from_impls: Option<FromImpls>)
    ensures
        from_impls.deep_view() == from_impls_of(meta.deep_view()),
{
    if skips(meta, Skippable::FromImpl) {
        return None;
    }
    let kind_name = meta.kind_name();
    let generics = duplicate_all(&meta.generics);
    let main_enum_with_generics = meta.main_enum_with_generics();
    Some(FromImpls { generics, main_enum_with_generics, kind_name })
}

/// Describes the implementation of `Display`, unless it is skipped.
pub fn gen_impl_display_trait(meta: &Meta) -> (display_impl: Option<DisplayImpl>)
    ensures
        display_impl.deep_view() == display_impl_of(meta.deep_view()),
{
    if skips(meta, Skippable::DisplayImpl) {
        return None;
    }
    let kind_name = meta.kind_name();
    let mut arms: Vec<DisplayArm> = Vec::new();
    let mut i: usize = 0;
    while i < meta.variants.len()
        invariant
            i <= meta.variants.len(),
            arms.len() == i,
            forall|j: int|
                0 <= j < i ==> arms@[j].deep_view() == (DisplayArmView {
                    variant: j as usize,
                    text: meta.deep_view().display_name(j),
                }),
        decreases meta.variants.len() - i,
    {
        arms.push(DisplayArm { variant: i, text: meta.display_name(i) });
        i += 1;
    }
    assert(arms.deep_view() =~= display_impl_of(meta.deep_view()).unwrap().arms);
    Some(DisplayImpl { kind_name, arms })
}

/// `name` in every convention.
fn alternatives(name: &str) -> (texts: Vec<String>)
    ensures
        texts.deep_view() == alternatives_of(name@),
{
    let cases = DisplayCase::all();
    let mut texts: Vec<String> = Vec::new();
    let mut c: usize = 0;
    while c < cases.len()
        invariant
            c <= cases.len(),
            cases@ == DisplayCase::every(),
            texts.len() == c,
            forall|j: int| 0 <= j < c ==> texts@[j]@ == cased(name@, DisplayCase::every()[j]),
        decreases cases.len() - c,
    {
        texts.push(cases[c].apply(name));
        c += 1;
    }
    assert(texts.deep_view() =~= alternatives_of(name@));
    texts
}

/// `text` as the one pattern of an arm.
fn one_pattern(text: &String) -> (patterns: Vec<String>)
    ensures
        patterns.deep_view() == seq![text@],
{
    let mut patterns: Vec<String> = Vec::new();
    patterns.push(text.clone());
    assert(patterns.deep_view() =~= seq![text@]);
    patterns
}

/// Describes the implementation of `FromStr`, unless it is skipped.
pub fn gen_impl_from_str_trait(meta: &Meta) -> (from_str_impl: Option<FromStrImpl>)
    ensures
        from_str_impl.deep_view() == from_str_impl_of(meta.deep_view()),
{
    if skips(meta, Skippable::FromStrImpl) {
        return None;
    }
    let kind_name = meta.kind_name();
    let mut renamed: Vec<ParseArm> = Vec::new();
    let mut exact: Vec<ParseArm> = Vec::new();
    let mut alt: Vec<ParseArm> = Vec::new();
    let mut i: usize = 0;
    assert(renamed.deep_view() =~= Seq::empty());
    while i < meta.variants.len()
        invariant
            i <= meta.variants.len(),
            renamed.deep_view() == renamed_arms(meta.deep_view().variants, i as int),
            exact.len() == i,
            alt.len() == i,
            forall|j: int|
                0 <= j < i ==> exact@[j].deep_view() == (ParseArmView {
                    patterns: seq![meta.variants@[j].ident.name@],
                    variant: j as usize,
                }),
            forall|j: int|
                0 <= j < i ==> alt@[j].deep_view() == (ParseArmView {
                    patterns: alternatives_of(meta.variants@[j].ident.name@),
                    variant: j as usize,
                }),
        decreases meta.variants.len() - i,
    {
        let variant = &meta.variants[i];
        // First the rename, which stands for this variant before any name.
        if let Some(rename) = &variant.rename {
            let ghost before = renamed.deep_view();
            let arm = ParseArm { patterns: one_pattern(rename), variant: i };
            renamed.push(arm);
            assert(renamed.deep_view() =~= before.push(arm.deep_view()));
        }
        // Then the name as it is.
        exact.push(ParseArm { patterns: one_pattern(&variant.ident.name), variant: i });
        // Then all possible alternative spellings of the name.
        alt.push(ParseArm { patterns: alternatives(variant.ident.name.as_str()), variant: i });
        i += 1;
    }
    assert(exact.deep_view() =~= from_str_impl_of(meta.deep_view()).unwrap().exact);
    assert(alt.deep_view() =~= from_str_impl_of(meta.deep_view()).unwrap().alternatives);
    Some(FromStrImpl { kind_name, renamed, exact, alternatives: alt })
}

/// Describes the implementation of `Kind`.
pub fn gen_impl_kind_trait(meta: &Meta) -> (kind_impl: KindImpl)
    ensures
        kind_impl.deep_view() == kind_impl_of(meta.deep_view()),
{
    KindImpl { kind_name: meta.kind_name() }
}

} // verus!
