//! The declaration that a derive is applied to, as the host parser read it.
//!
//! Only what the derive looks at is kept: the attributes, the name with its
//! visibility and generic parameters, and for an enum its variants with the
//! shape of their fields. What the fields hold stays a run of tokens that
//! nothing here reads.

use vstd::prelude::*;
use crate::models::{Ident, IdentView, Path, PathView};
use crate::tokens::{Span, Token, TokenView};

verus! {

/// An attribute `#[path tokens]` on an item or on a variant.
#[derive(Debug, PartialEq, Eq)]
pub struct Attribute {
    pub path: Path,
    /// What follows the path inside the square brackets.
    pub tokens: Vec<Token>,
    /// The place of the whole attribute.
    pub span: Span,
}

/// The mathematical value of an [`Attribute`].
pub struct AttributeView {
    pub path: PathView,
    pub tokens: Seq<TokenView>,
    pub span: Span,
}

impl DeepView for Attribute {
    type V = AttributeView;

    open spec fn deep_view(&self) -> AttributeView {
        AttributeView {
            path: self.path.deep_view(),
            tokens: self.tokens.deep_view(),
            span: self.span,
        }
    }
}

/// The fields of a variant, by their shape and the tokens between their
/// brackets.
#[derive(Debug, PartialEq, Eq)]
pub enum Fields {
    /// Example: `Admin { id: i32 }`
    Named(Vec<Token>),
    /// Example: `User(i32)`
    Unnamed(Vec<Token>),
    /// Example: `Guest`
    Unit,
}

/// The mathematical value of [`Fields`].
pub enum FieldsView {
    Named(Seq<TokenView>),
    Unnamed(Seq<TokenView>),
    Unit,
}

impl DeepView for Fields {
    type V = FieldsView;

    open spec fn deep_view(&self) -> FieldsView {
        match self {
            Fields::Named(tokens) => FieldsView::Named(tokens.deep_view()),
            Fields::Unnamed(tokens) => FieldsView::Unnamed(tokens.deep_view()),
            Fields::Unit => FieldsView::Unit,
        }
    }
}

/// One variant of an enum as written.
#[derive(Debug, PartialEq, Eq)]
pub struct SourceVariant {
    pub attrs: Vec<Attribute>,
    pub ident: Ident,
    pub fields: Fields,
}

/// The mathematical value of a [`SourceVariant`].
pub struct SourceVariantView {
    pub attrs: Seq<AttributeView>,
    pub ident: IdentView,
    pub fields: FieldsView,
}

impl DeepView for SourceVariant {
    type V = SourceVariantView;

    open spec fn deep_view(&self) -> SourceVariantView {
        SourceVariantView {
            attrs: self.attrs.deep_view(),
            ident: self.ident.deep_view(),
            fields: self.fields.deep_view(),
        }
    }
}

/// What kind of type is declared.
#[derive(Debug, PartialEq, Eq)]
pub enum Data {
    Enum(Vec<SourceVariant>),
    Struct,
    Union,
}

/// The mathematical value of [`Data`].
pub enum DataView {
    Enum(Seq<SourceVariantView>),
    Struct,
    Union,
}

impl DeepView for Data {
    type V = DataView;

    open spec fn deep_view(&self) -> DataView {
        match self {
            Data::Enum(variants) => DataView::Enum(variants.deep_view()),
            Data::Struct => DataView::Struct,
            Data::Union => DataView::Union,
        }
    }
}

/// The declaration under the derive.
#[derive(Debug, PartialEq, Eq)]
pub struct DeriveInput {
    pub attrs: Vec<Attribute>,
    /// The visibility as written, or nothing.
    pub vis: Vec<Token>,
    pub ident: Ident,
    /// The generic parameters with their angle brackets, or nothing.
    pub generics: Vec<Token>,
    pub data: Data,
}

/// The mathematical value of a [`DeriveInput`].
pub struct DeriveInputView {
    pub attrs: Seq<AttributeView>,
    pub vis: Seq<TokenView>,
    pub ident: IdentView,
    pub generics: Seq<TokenView>,
    pub data: DataView,
}

impl DeepView for DeriveInput {
    type V = DeriveInputView;

    open spec fn deep_view(&self) -> DeriveInputView {
        DeriveInputView {
            attrs: self.attrs.deep_view(),
            vis: self.vis.deep_view(),
            ident: self.ident.deep_view(),
            generics: self.generics.deep_view(),
            data: self.data.deep_view(),
        }
    }
}

} // verus!
