//! The model of one declaration: the enum as written, the options given in
//! its `#[kinded(..)]` attributes, and the facts that follow from both.

use vstd::prelude::*;
use convert_case::{Case, Casing};
use crate::text::concat;
use crate::tokens::{Span, Token, TokenView};

verus! {

/// An identifier and the place where it was written.
#[derive(Debug, PartialEq, Eq)]
pub struct Ident {
    pub name: String,
    pub span: Span,
}

/// The mathematical value of an [`Ident`].
pub struct IdentView {
    pub name: Seq<char>,
    pub span: Span,
}

impl DeepView for Ident {
    type V = IdentView;

    open spec fn deep_view(&self) -> IdentView {
        IdentView { name: self.name@, span: self.span }
    }
}

impl Ident {
    /// The identifier `name`, placed at the call site.
    pub fn new(name: &str) -> (ident: Ident)
        ensures
            ident.deep_view() == (IdentView { name: name@, span: Span::CallSite }),
    {
        Ident { name: String::from_str(name), span: Span::CallSite }
    }

    /// The identifier `name` written at `span`.
    pub fn at(name: &str, span: Span) -> (ident: Ident)
        ensures
            ident.deep_view() == (IdentView { name: name@, span }),
    {
        Ident { name: String::from_str(name), span }
    }

    /// A copy of the identifier.
    pub fn duplicate(&self) -> (ident: Ident)
        ensures
            ident.deep_view() == self.deep_view(),
    {
        Ident { name: self.name.clone(), span: self.span }
    }
}

/// A path of identifiers such as `Hash` or `serde::Serialize`, with or
/// without `::` in front.
#[derive(Debug, PartialEq, Eq)]
pub struct Path {
    pub leading_colon: bool,
    pub segments: Vec<Ident>,
}

/// The mathematical value of a [`Path`].
pub struct PathView {
    pub leading_colon: bool,
    pub segments: Seq<IdentView>,
}

impl PathView {
    /// The names of the segments, without their places.
    pub open spec fn names(self) -> Seq<Seq<char>> {
        Seq::new(self.segments.len(), |i: int| self.segments[i].name)
    }

    /// Whether the two paths are written alike, wherever they stand.
    pub open spec fn same_as(self, other: PathView) -> bool {
        self.leading_colon == other.leading_colon && self.names() == other.names()
    }

    /// The path that is the single identifier `name`, made up at the call
    /// site.
    pub open spec fn simple(name: Seq<char>) -> PathView {
        PathView { leading_colon: false, segments: seq![IdentView { name, span: Span::CallSite }] }
    }
}

/// Whether a path written like `path` is among `paths`.
pub open spec fn holds_path(paths: Seq<PathView>, path: PathView) -> bool {
    exists|i: int| 0 <= i < paths.len() && #[trigger] paths[i].same_as(path)
}

impl DeepView for Path {
    type V = PathView;

    open spec fn deep_view(&self) -> PathView {
        PathView { leading_colon: self.leading_colon, segments: self.segments.deep_view() }
    }
}

impl Path {
    /// The path that is the single identifier `name`.
    pub fn simple(name: &str) -> (path: Path)
        ensures
            path.deep_view() == PathView::simple(name@),
    {
        let mut segments: Vec<Ident> = Vec::new();
        segments.push(Ident::new(name));
        let path = Path { leading_colon: false, segments };
        assert(path.deep_view().segments =~= PathView::simple(name@).segments);
        path
    }

    /// A copy of the path.
    pub fn duplicate(&self) -> (path: Path)
        ensures
            path.deep_view() == self.deep_view(),
    {
        let mut segments: Vec<Ident> = Vec::new();
        let mut i: usize = 0;
        while i < self.segments.len()
            invariant
                i <= self.segments.len(),
                segments.len() == i,
                forall|j: int| 0 <= j < i ==> segments@[j].deep_view() == self.segments@[j].deep_view(),
            decreases self.segments.len() - i,
        {
            segments.push(self.segments[i].duplicate());
            i += 1;
        }
        assert(segments.deep_view() =~= self.segments.deep_view());
        Path { leading_colon: self.leading_colon, segments }
    }

    /// Whether the two paths are written alike, wherever they stand.
    pub fn same_as(&self, other: &Path) -> (same: bool)
        ensures
            same == self.deep_view().same_as(other.deep_view()),
    {
        if self.leading_colon != other.leading_colon || self.segments.len() != other.segments.len() {
            assert(self.deep_view().names().len() == self.segments.len());
            assert(other.deep_view().names().len() == other.segments.len());
            return false;
        }
        let mut i: usize = 0;
        while i < self.segments.len()
            invariant
                i <= self.segments.len(),
                self.segments.len() == other.segments.len(),
                forall|j: int| 0 <= j < i ==> self.segments@[j].name@ == other.segments@[j].name@,
            decreases self.segments.len() - i,
        {
            if !self.segments[i].name.as_str().eq(other.segments[i].name.as_str()) {
                assert(self.deep_view().names()[i as int] != other.deep_view().names()[i as int]);
                return false;
            }
            i += 1;
        }
        assert(self.deep_view().names() =~= other.deep_view().names());
        true
    }
}

/// Whether a path written like `path` is among `paths`.
pub fn holds(paths: &Vec<Path>, path: &Path) -> (found: bool)
    ensures
        found == holds_path(paths.deep_view(), path.deep_view()),
{
    let mut i: usize = 0;
    while i < paths.len()
        invariant
            i <= paths.len(),
            forall|j: int| 0 <= j < i ==> !(#[trigger] paths.deep_view()[j]).same_as(path.deep_view()),
        decreases paths.len() - i,
    {
        if paths[i].same_as(path) {
            assert(paths.deep_view()[i as int].same_as(path.deep_view()));
            return true;
        }
        i += 1;
    }
    false
}

/// The shape of a variant's payload.
#[derive(Clone, Copy, Debug, PartialEq, Eq, Structural)]
pub enum FieldsType {
    /// Example: `Admin { id: i32 }`
    Named,
    /// Example: `User(i32)`
    Unnamed,
    /// Example: `Guest`
    Unit,
}

/// The naming conventions that a display policy can ask for. The names
/// are those of the accepted `display = ".."` values.
#[derive(Clone, Copy, Debug, PartialEq, Eq, Structural)]
pub enum DisplayCase {
    /// snake_case
    Snake,
    /// camelCase
    Camel,
    /// PascalCase
    Pascal,
    /// SCREAMING_SNAKE_CASE
    ScreamingSnake,
    /// kebab-case
    Kebab,
    /// SCREAMING-KEBAB-CASE
    ScreamingKebab,
    /// Title Case
    Title,
    /// lowercase
    Lower,
    /// UPPERCASE
    Upper,
}

/// `name` rewritten in the convention `case`, as the `convert_case` crate
/// rewrites it.
pub uninterp spec fn cased(name: Seq<char>, case: DisplayCase) -> Seq<char>;

impl DisplayCase {
    /// Every convention, in the order in which alternatives are tried.
    pub open spec fn every() -> Seq<DisplayCase> {
        seq![
            DisplayCase::Snake,
            DisplayCase::Camel,
            DisplayCase::Pascal,
            DisplayCase::ScreamingSnake,
            DisplayCase::Kebab,
            DisplayCase::ScreamingKebab,
            DisplayCase::Title,
            DisplayCase::Lower,
            DisplayCase::Upper,
        ]
    }

    /// The value of `display = ".."` that asks for this convention.
    pub open spec fn literal_of(self) -> Seq<char> {
        match self {
            DisplayCase::Snake => "snake_case"@,
            DisplayCase::Camel => "camelCase"@,
            DisplayCase::Pascal => "PascalCase"@,
            DisplayCase::ScreamingSnake => "SCREAMING_SNAKE_CASE"@,
            DisplayCase::Kebab => "kebab-case"@,
            DisplayCase::ScreamingKebab => "SCREAMING-KEBAB-CASE"@,
            DisplayCase::Title => "Title Case"@,
            DisplayCase::Lower => "lowercase"@,
            DisplayCase::Upper => "UPPERCASE"@,
        }
    }

    /// The first convention at or after position `from` of
    /// [`DisplayCase::every`] whose literal is `literal`.
    pub open spec fn named_from(literal: Seq<char>, from: int) -> Option<DisplayCase>
        decreases DisplayCase::every().len() - from,
    {
        if from < 0 || from >= DisplayCase::every().len() {
            None
        } else if DisplayCase::every()[from].literal_of() == literal {
            Some(DisplayCase::every()[from])
        } else {
            DisplayCase::named_from(literal, from + 1)
        }
    }

    /// The convention that `literal` asks for, if it names one.
    pub open spec fn named(literal: Seq<char>) -> Option<DisplayCase> {
        DisplayCase::named_from(literal, 0)
    }

    /// Every convention, in the order in which alternatives are tried.
    pub fn all() -> (cases: Vec<DisplayCase>)
        ensures
            cases@ == DisplayCase::every(),
    {
        let mut cases: Vec<DisplayCase> = Vec::new();
        cases.push(DisplayCase::Snake);
        cases.push(DisplayCase::Camel);
        cases.push(DisplayCase::Pascal);
        cases.push(DisplayCase::ScreamingSnake);
        cases.push(DisplayCase::Kebab);
        cases.push(DisplayCase::ScreamingKebab);
        cases.push(DisplayCase::Title);
        cases.push(DisplayCase::Lower);
        cases.push(DisplayCase::Upper);
        assert(cases@ =~= DisplayCase::every());
        cases
    }

    /// The value of `display = ".."` that asks for this convention.
    pub fn literal(self) -> (literal: &'static str)
        ensures
            literal@ == self.literal_of(),
    {
        match self {
            DisplayCase::Snake => "snake_case",
            DisplayCase::Camel => "camelCase",
            DisplayCase::Pascal => "PascalCase",
            DisplayCase::ScreamingSnake => "SCREAMING_SNAKE_CASE",
            DisplayCase::Kebab => "kebab-case",
            DisplayCase::ScreamingKebab => "SCREAMING-KEBAB-CASE",
            DisplayCase::Title => "Title Case",
            DisplayCase::Lower => "lowercase",
            DisplayCase::Upper => "UPPERCASE",
        }
    }

    /// The convention that `literal` asks for, if it names one.
    pub fn from_literal(literal: &str) -> (case: Option<DisplayCase>)
        ensures
            case == DisplayCase::named(literal@),
    {
        let cases = DisplayCase::all();
        let mut i: usize = 0;
        while i < cases.len()
            invariant
                i <= cases.len(),
                cases@ == DisplayCase::every(),
                DisplayCase::named_from(literal@, i as int) == DisplayCase::named(literal@),
            decreases cases.len() - i,
        {
            if cases[i].literal().eq(literal) {
                return Some(cases[i]);
            }
            i += 1;
        }
        None
    }

    /// Rewrites `s` in this convention. Calls `Casing::to_case` of the
    /// `convert_case` crate, with `Cobol` for SCREAMING-KEBAB-CASE, `Flat`
    /// for lowercase, `UpperFlat` for UPPERCASE and the case of the same
    /// name for the others. The crate splits `s` into words and joins them
    /// again, which depends on `s` and the case alone; the contract gives the
    /// result the name [`cased`] and says no more of it.
    #[verifier::external_body]
    pub fn apply(self, s: &str) -> (converted: String)
        ensures
            converted@ == cased(s@, self),
    {
        let case = match self {
            DisplayCase::Snake => Case::Snake,
            DisplayCase::Camel => Case::Camel,
            DisplayCase::Pascal => Case::Pascal,
            DisplayCase::ScreamingSnake => Case::ScreamingSnake,
            DisplayCase::Kebab => Case::Kebab,
            DisplayCase::ScreamingKebab => Case::Cobol,
            DisplayCase::Title => Case::Title,
            DisplayCase::Lower => Case::Flat,
            DisplayCase::Upper => Case::UpperFlat,
        };
        s.to_case(case)
    }
}

/// What a kind type gets unless it is skipped: the five derives and the
/// three implementations. The names are those that `skip_derive(..)`
/// accepts.
#[derive(Clone, Copy, Debug, PartialEq, Eq, Structural)]
pub enum Skippable {
    /// `Debug`
    DebugDerive,
    /// `Clone`
    CloneDerive,
    /// `Copy`
    CopyDerive,
    /// `PartialEq`
    PartialEqDerive,
    /// `Eq`
    EqDerive,
    /// `Display`
    DisplayImpl,
    /// `FromStr`
    FromStrImpl,
    /// `From`
    FromImpl,
}

impl Skippable {
    /// Every name that can be skipped, in their one fixed order. The
    /// derives come first.
    pub open spec fn every() -> Seq<Skippable> {
        seq![
            Skippable::DebugDerive,
            Skippable::CloneDerive,
            Skippable::CopyDerive,
            Skippable::PartialEqDerive,
            Skippable::EqDerive,
            Skippable::DisplayImpl,
            Skippable::FromStrImpl,
            Skippable::FromImpl,
        ]
    }

    /// The name as written in `skip_derive(..)`.
    pub open spec fn name_of(self) -> Seq<char> {
        match self {
            Skippable::DebugDerive => "Debug"@,
            Skippable::CloneDerive => "Clone"@,
            Skippable::CopyDerive => "Copy"@,
            Skippable::PartialEqDerive => "PartialEq"@,
            Skippable::EqDerive => "Eq"@,
            Skippable::DisplayImpl => "Display"@,
            Skippable::FromStrImpl => "FromStr"@,
            Skippable::FromImpl => "From"@,
        }
    }

    /// Whether this is one of the derives that a kind type has by default.
    pub open spec fn is_derive(self) -> bool {
        match self {
            Skippable::DisplayImpl | Skippable::FromStrImpl | Skippable::FromImpl => false,
            _ => true,
        }
    }

    /// What the first name at or after position `from` of
    /// [`Skippable::every`] that is written `name` stands for.
    pub open spec fn named_from(name: Seq<char>, from: int) -> Option<Skippable>
        decreases Skippable::every().len() - from,
    {
        if from < 0 || from >= Skippable::every().len() {
            None
        } else if Skippable::every()[from].name_of() == name {
            Some(Skippable::every()[from])
        } else {
            Skippable::named_from(name, from + 1)
        }
    }

    /// What `name` stands for, if it is one of the names.
    pub open spec fn named(name: Seq<char>) -> Option<Skippable> {
        Skippable::named_from(name, 0)
    }

    /// Every name that can be skipped, in their one fixed order.
    pub fn all() -> (all: Vec<Skippable>)
        ensures
            all@ == Skippable::every(),
    {
        let mut all: Vec<Skippable> = Vec::new();
        all.push(Skippable::DebugDerive);
        all.push(Skippable::CloneDerive);
        all.push(Skippable::CopyDerive);
        all.push(Skippable::PartialEqDerive);
        all.push(Skippable::EqDerive);
        all.push(Skippable::DisplayImpl);
        all.push(Skippable::FromStrImpl);
        all.push(Skippable::FromImpl);
        assert(all@ =~= Skippable::every());
        all
    }

    /// The name as written in `skip_derive(..)`.
    pub fn name(self) -> (name: &'static str)
        ensures
            name@ == self.name_of(),
    {
        match self {
            Skippable::DebugDerive => "Debug",
            Skippable::CloneDerive => "Clone",
            Skippable::CopyDerive => "Copy",
            Skippable::PartialEqDerive => "PartialEq",
            Skippable::EqDerive => "Eq",
            Skippable::DisplayImpl => "Display",
            Skippable::FromStrImpl => "FromStr",
            Skippable::FromImpl => "From",
        }
    }

    /// Whether this is one of the derives that a kind type has by default.
    pub fn derived_by_default(self) -> (derived: bool)
        ensures
            derived == self.is_derive(),
    {
        match self {
            Skippable::DisplayImpl | Skippable::FromStrImpl | Skippable::FromImpl => false,
            _ => true,
        }
    }

    /// What `name` stands for, if it is one of the names.
    pub fn from_name(name: &str) -> (skippable: Option<Skippable>)
        ensures
            skippable == Skippable::named(name@),
    {
        let all = Skippable::all();
        let mut i: usize = 0;
        while i < all.len()
            invariant
                i <= all.len(),
                all@ == Skippable::every(),
                Skippable::named_from(name@, i as int) == Skippable::named(name@),
            decreases all.len() - i,
        {
            if all[i].name().eq(name) {
                return Some(all[i]);
            }
            i += 1;
        }
        None
    }
}

/// What the declaration opts out of: one flag for each [`Skippable`].
#[derive(Clone, Copy, Debug, PartialEq, Eq, Structural)]
pub struct OptOuts {
    pub debug_derive: bool,
    pub clone_derive: bool,
    pub copy_derive: bool,
    pub partial_eq_derive: bool,
    pub eq_derive: bool,
    pub display_impl: bool,
    pub from_str_impl: bool,
    pub from_impl: bool,
}

impl OptOuts {
    /// Nothing skipped.
    pub open spec fn none() -> OptOuts {
        OptOuts {
            debug_derive: false,
            clone_derive: false,
            copy_derive: false,
            partial_eq_derive: false,
            eq_derive: false,
            display_impl: false,
            from_str_impl: false,
            from_impl: false,
        }
    }

    /// Whether `what` is skipped.
    pub open spec fn has(self, what: Skippable) -> bool {
        match what {
            Skippable::DebugDerive => self.debug_derive,
            Skippable::CloneDerive => self.clone_derive,
            Skippable::CopyDerive => self.copy_derive,
            Skippable::PartialEqDerive => self.partial_eq_derive,
            Skippable::EqDerive => self.eq_derive,
            Skippable::DisplayImpl => self.display_impl,
            Skippable::FromStrImpl => self.from_str_impl,
            Skippable::FromImpl => self.from_impl,
        }
    }

    /// These opt-outs and `what` besides.
    pub open spec fn and(self, what: Skippable) -> OptOuts {
        match what {
            Skippable::DebugDerive => OptOuts { debug_derive: true, ..self },
            Skippable::CloneDerive => OptOuts { clone_derive: true, ..self },
            Skippable::CopyDerive => OptOuts { copy_derive: true, ..self },
            Skippable::PartialEqDerive => OptOuts { partial_eq_derive: true, ..self },
            Skippable::EqDerive => OptOuts { eq_derive: true, ..self },
            Skippable::DisplayImpl => OptOuts { display_impl: true, ..self },
            Skippable::FromStrImpl => OptOuts { from_str_impl: true, ..self },
            Skippable::FromImpl => OptOuts { from_impl: true, ..self },
        }
    }

    /// Whether `what` is skipped.
    pub fn skips(&self, what: Skippable) -> (skipped: bool)
        ensures
            skipped == self.has(what),
    {
        match what {
            Skippable::DebugDerive => self.debug_derive,
            Skippable::CloneDerive => self.clone_derive,
            Skippable::CopyDerive => self.copy_derive,
            Skippable::PartialEqDerive => self.partial_eq_derive,
            Skippable::EqDerive => self.eq_derive,
            Skippable::DisplayImpl => self.display_impl,
            Skippable::FromStrImpl => self.from_str_impl,
            Skippable::FromImpl => self.from_impl,
        }
    }

    /// Skips `what` too.
    pub fn skip(&mut self, what: Skippable)
        ensures
            *final(self) == old(self).and(what),
    {
        match what {
            Skippable::DebugDerive => self.debug_derive = true,
            Skippable::CloneDerive => self.clone_derive = true,
            Skippable::CopyDerive => self.copy_derive = true,
            Skippable::PartialEqDerive => self.partial_eq_derive = true,
            Skippable::EqDerive => self.eq_derive = true,
            Skippable::DisplayImpl => self.display_impl = true,
            Skippable::FromStrImpl => self.from_str_impl = true,
            Skippable::FromImpl => self.from_impl = true,
        }
    }
}

impl Default for OptOuts {
    fn default() -> (opt_outs: OptOuts)
        ensures
            opt_outs == OptOuts::none(),
    {
        OptOuts {
            debug_derive: false,
            clone_derive: false,
            copy_derive: false,
            partial_eq_derive: false,
            eq_derive: false,
            display_impl: false,
            from_str_impl: false,
            from_impl: false,
        }
    }
}

/// Whether `what` is skipped under `opt_outs`; nothing is where there are
/// none.
pub open spec fn skipped(opt_outs: Option<OptOuts>, what: Skippable) -> bool {
    opt_outs matches Some(o) && o.has(what)
}

/// The options of an enum's `#[kinded(..)]` attribute.
#[derive(Debug, PartialEq, Eq)]
pub struct KindedAttributes {
    /// Name for the kind type, given with `kind = ..`
    pub kind: Option<Ident>,
    /// Traits to derive besides the default ones, given with `derive(..)`
    pub derive: Option<Vec<Path>>,
    /// How the variants are displayed, given with `display = ".."`
    pub display: Option<DisplayCase>,
    /// What is left out, given with `skip_derive(..)`
    pub opt_outs: Option<OptOuts>,
    /// Attributes to put on the kind type, given with `attrs(..)`
    pub attrs: Option<Vec<Vec<Token>>>,
}

/// The mathematical value of [`KindedAttributes`].
pub struct KindedAttributesView {
    pub kind: Option<IdentView>,
    pub derive: Option<Seq<PathView>>,
    pub display: Option<DisplayCase>,
    pub opt_outs: Option<OptOuts>,
    pub attrs: Option<Seq<Seq<TokenView>>>,
}

impl KindedAttributesView {
    /// No option given.
    pub open spec fn empty() -> KindedAttributesView {
        KindedAttributesView { kind: None, derive: None, display: None, opt_outs: None, attrs: None }
    }
}

impl DeepView for KindedAttributes {
    type V = KindedAttributesView;

    open spec fn deep_view(&self) -> KindedAttributesView {
        KindedAttributesView {
            kind: self.kind.deep_view(),
            derive: self.derive.deep_view(),
            display: self.display,
            opt_outs: self.opt_outs,
            attrs: self.attrs.deep_view(),
        }
    }
}

impl Default for KindedAttributes {
    fn default() -> (attrs: KindedAttributes)
        ensures
            attrs.deep_view() == KindedAttributesView::empty(),
    {
        KindedAttributes { kind: None, derive: None, display: None, opt_outs: None, attrs: None }
    }
}

/// The options of a variant's `#[kinded(..)]` attribute.
#[derive(Debug, PartialEq, Eq)]
pub struct VariantAttributes {
    /// The text to display and parse in place of the name, given with
    /// `rename = ".."`
    pub rename: Option<String>,
    /// Attributes to put on the variant of the kind type, given with
    /// `attrs(..)`
    pub attrs: Option<Vec<Vec<Token>>>,
}

/// The mathematical value of [`VariantAttributes`].
pub struct VariantAttributesView {
    pub rename: Option<Seq<char>>,
    pub attrs: Option<Seq<Seq<TokenView>>>,
}

impl VariantAttributesView {
    /// No option given.
    pub open spec fn empty() -> VariantAttributesView {
        VariantAttributesView { rename: None, attrs: None }
    }
}

impl DeepView for VariantAttributes {
    type V = VariantAttributesView;

    open spec fn deep_view(&self) -> VariantAttributesView {
        VariantAttributesView { rename: self.rename.deep_view(), attrs: self.attrs.deep_view() }
    }
}

impl Default for VariantAttributes {
    fn default() -> (attrs: VariantAttributes)
        ensures
            attrs.deep_view() == VariantAttributesView::empty(),
    {
        VariantAttributes { rename: None, attrs: None }
    }
}

/// One variant of the enum.
#[derive(Debug, PartialEq, Eq)]
pub struct Variant {
    pub ident: Ident,
    pub fields_type: FieldsType,
    /// The text to display and parse in place of the name, given with
    /// `rename = ".."`
    pub rename: Option<String>,
    /// Attributes to put on the variant of the kind type, given with
    /// `attrs(..)`
    pub attrs: Vec<Vec<Token>>,
}

/// The mathematical value of a [`Variant`].
pub struct VariantView {
    pub ident: IdentView,
    pub fields_type: FieldsType,
    pub rename: Option<Seq<char>>,
    pub attrs: Seq<Seq<TokenView>>,
}

impl DeepView for Variant {
    type V = VariantView;

    open spec fn deep_view(&self) -> VariantView {
        VariantView {
            ident: self.ident.deep_view(),
            fields_type: self.fields_type,
            rename: self.rename.deep_view(),
            attrs: self.attrs.deep_view(),
        }
    }
}

/// The enum and its options: all that the kind type is made from.
#[derive(Debug, PartialEq, Eq)]
pub struct Meta {
    /// Visibility of the enum, which the kind type takes over.
    pub vis: Vec<Token>,
    pub ident: Ident,
    /// The generic parameters with their brackets, or nothing.
    pub generics: Vec<Token>,
    pub variants: Vec<Variant>,
    /// The options given with `#[kinded(..)]` above the enum.
    pub kinded_attrs: KindedAttributes,
}

/// The mathematical value of a [`Meta`].
pub struct MetaView {
    pub vis: Seq<TokenView>,
    pub ident: IdentView,
    pub generics: Seq<TokenView>,
    pub variants: Seq<VariantView>,
    pub kinded_attrs: KindedAttributesView,
}

impl DeepView for Meta {
    type V = MetaView;

    open spec fn deep_view(&self) -> MetaView {
        MetaView {
            vis: self.vis.deep_view(),
            ident: self.ident.deep_view(),
            generics: self.generics.deep_view(),
            variants: self.variants.deep_view(),
            kinded_attrs: self.kinded_attrs.deep_view(),
        }
    }
}

/// The default derives that `opt_outs` leaves, among the first `n` names of
/// [`Skippable::every`] and in that order, each as a path.
pub open spec fn kept_defaults(opt_outs: Option<OptOuts>, n: int) -> Seq<PathView>
    decreases n,
{
    if n <= 0 {
        Seq::empty()
    } else {
        let what = Skippable::every()[n - 1];
        let before = kept_defaults(opt_outs, n - 1);
        if what.is_derive() && !skipped(opt_outs, what) {
            before.push(PathView::simple(what.name_of()))
        } else {
            before
        }
    }
}

/// `traits` and then the first `n` of `extra`, each unless a path written
/// like it is there already.
pub open spec fn with_extra(traits: Seq<PathView>, extra: Seq<PathView>, n: int) -> Seq<PathView>
    decreases n,
{
    if n <= 0 {
        traits
    } else {
        let before = with_extra(traits, extra, n - 1);
        if holds_path(before, extra[n - 1]) {
            before
        } else {
            before.push(extra[n - 1])
        }
    }
}

impl MetaView {
    /// Whether the declaration opts out of `what`.
    pub open spec fn skips(self, what: Skippable) -> bool {
        skipped(self.kinded_attrs.opt_outs, what)
    }

    /// The name of the kind type: the one given with `kind = ..`, else the
    /// enum's name followed by `Kind`, at the place of the enum's name.
    pub open spec fn kind_name(self) -> IdentView {
        match self.kinded_attrs.kind {
            Some(kind) => kind,
            None => IdentView { name: self.ident.name + "Kind"@, span: self.ident.span },
        }
    }

    /// The traits that the kind type derives: the default ones that are
    /// not skipped, in their fixed order, then those given with
    /// `derive(..)` in the order written, each path once.
    pub open spec fn derive_traits(self) -> Seq<PathView> {
        let defaults = kept_defaults(self.kinded_attrs.opt_outs, Skippable::every().len() as int);
        match self.kinded_attrs.derive {
            Some(extra) => with_extra(defaults, extra, extra.len() as int),
            None => defaults,
        }
    }

    /// The enum's name followed by its generic parameters.
    pub open spec fn main_enum_with_generics(self) -> Seq<TokenView> {
        seq![TokenView::Ident(self.ident.name, self.ident.span)] + self.generics
    }

    /// What variant `i` is displayed as: its rename if it has one, else its
    /// name in the convention of the display policy, else its name.
    pub open spec fn display_name(self, i: int) -> Seq<char> {
        match self.variants[i].rename {
            Some(rename) => rename,
            None => match self.kinded_attrs.display {
                Some(case) => cased(self.variants[i].ident.name, case),
                None => self.variants[i].ident.name,
            },
        }
    }
}

impl Meta {
    /// The name of the kind type.
    pub fn kind_name(&self) -> (name: Ident)
        ensures
            name.deep_view() == self.deep_view().kind_name(),
    {
        match &self.kinded_attrs.kind {
            Some(kind) => kind.duplicate(),
            None => Ident { name: concat(self.ident.name.as_str(), "Kind"), span: self.ident.span },
        }
    }

    /// The traits that the kind type derives.
    pub fn derive_traits(&self) -> (traits: Vec<Path>)
        ensures
            traits.deep_view() == self.deep_view().derive_traits(),
    {
        let all = Skippable::all();
        let mut traits: Vec<Path> = Vec::new();
        let mut i: usize = 0;
        while i < all.len()
            invariant
                i <= all.len(),
                all@ == Skippable::every(),
                traits.deep_view() == kept_defaults(self.kinded_attrs.opt_outs, i as int),
            decreases all.len() - i,
        {
            let what = all[i];
            let is_skipped = match &self.kinded_attrs.opt_outs {
                Some(opt_outs) => opt_outs.skips(what),
                None => false,
            };
            if what.derived_by_default() && !is_skipped {
                let ghost before = traits.deep_view();
                traits.push(Path::simple(what.name()));
                assert(traits.deep_view() =~= before.push(PathView::simple(what.name_of())));
            }
            i += 1;
        }
        // Add the extra traits, each unless it is there already.
        if let Some(extra) = &self.kinded_attrs.derive {
            let ghost defaults = traits.deep_view();
            let mut j: usize = 0;
            while j < extra.len()
                invariant
                    j <= extra.len(),
                    traits.deep_view() == with_extra(defaults, extra.deep_view(), j as int),
                decreases extra.len() - j,
            {
                if !holds(&traits, &extra[j]) {
                    let ghost before = traits.deep_view();
                    traits.push(extra[j].duplicate());
                    assert(traits.deep_view() =~= before.push(extra.deep_view()[j as int]));
                }
                j += 1;
            }
        }
        traits
    }

    /// The enum's name followed by its generic parameters.
    pub fn main_enum_with_generics(&self) -> (tokens: Vec<Token>)
        ensures
            tokens.deep_view() == self.deep_view().main_enum_with_generics(),
    {
        let mut tokens: Vec<Token> = Vec::new();
        tokens.push(Token::Ident(self.ident.name.clone(), self.ident.span));
        let mut i: usize = 0;
        while i < self.generics.len()
            invariant
                i <= self.generics.len(),
                tokens.len() == i + 1,
                tokens@[0].deep_view() == TokenView::Ident(self.ident.name@, self.ident.span),
                forall|j: int| 0 <= j < i ==> tokens@[j + 1].deep_view() == self.generics@[j].deep_view(),
            decreases self.generics.len() - i,
        {
            tokens.push(self.generics[i].duplicate());
            i += 1;
        }
        assert(tokens.deep_view() =~= self.deep_view().main_enum_with_generics());
        tokens
    }

    /// The position of the variant called `name`: of the first, if there
    /// is one.
    pub fn position(&self, name: &str) -> (position: Option<usize>)
        ensures
            match position {
                Some(i) => i < self.variants.len() && self.deep_view().variants[i as int].ident.name
                    == name@ && forall|j: int|
                    0 <= j < i ==> (#[trigger] self.deep_view().variants[j]).ident.name != name@,
                None => forall|j: int|
                    0 <= j < self.variants.len() ==> (#[trigger] self.deep_view().variants[j]).ident.name
                        != name@,
            },
    {
        let mut i: usize = 0;
        while i < self.variants.len()
            invariant
                i <= self.variants.len(),
                forall|j: int|
                    0 <= j < i ==> (#[trigger] self.deep_view().variants[j]).ident.name != name@,
            decreases self.variants.len() - i,
        {
            if self.variants[i].ident.name.as_str().eq(name) {
                return Some(i);
            }
            i += 1;
        }
        None
    }

    /// What variant `i` is displayed as.
    pub fn display_name(&self, i: usize) -> (text: String)
        requires
            i < self.variants.len(),
        ensures
            text@ == self.deep_view().display_name(i as int),
    {
        match &self.variants[i].rename {
            Some(rename) => rename.clone(),
            None => apply_maybe_case(self.variants[i].ident.name.clone(), self.kinded_attrs.display),
        }
    }
}

/// `name` in the convention `maybe_display_case`, or as it is where there
/// is none.
pub fn apply_maybe_case(name: String, maybe_display_case: Option<DisplayCase>) -> (text: String)
    ensures
        text@ == match maybe_display_case {
            Some(case) => cased(name@, case),
            None => name@,
        },
{
    if let Some(display_case) = maybe_display_case {
        display_case.apply(name.as_str())
    } else {
        name
    }
}

} // verus!
