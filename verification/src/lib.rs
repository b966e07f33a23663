//! Kind types for enums, derived and verified.
//!
//! Given an enum whose variants may carry data, this crate works out the
//! companion enum of bare variant names (its *kind* type) and everything
//! that comes with it: the configuration written in `#[kinded(..)]`
//! attributes, the validated model of the declaration, and a description of
//! each item to emit. It also gives the meaning of those items (listing,
//! projection, display and parsing) as functions that can be run and that
//! the contracts speak of.

pub mod diagnostics;
pub mod errors;
pub mod expand;
pub mod generate;
pub mod grammar;
pub mod input;
pub mod laws;
pub mod models;
pub mod parse;
pub mod semantics;
pub mod text;
pub mod tokens;
pub mod traits;

pub use crate::diagnostics::{Diagnostic, DiagnosticKind, Expected};
pub use crate::errors::ParseKindError;
pub use crate::expand::expand_derive;
pub use crate::generate::kind_enum::{
    gen_kind_enum, Definition, DisplayArm, DisplayImpl, FromImpls, FromStrImpl, KindEnum, KindImpl,
    KindVariant, ParseArm,
};
pub use crate::generate::main_enum::{
    gen_main_enum_extra, Destruct, FnKind, KindedImpl, MainEnumExtra, MatchBranch,
};
pub use crate::generate::{generate, Generated};
pub use crate::input::{Attribute, Data, DeriveInput, Fields, SourceVariant};
pub use crate::models::{
    apply_maybe_case, DisplayCase, FieldsType, Ident, KindedAttributes, Meta, OptOuts, Path, Skippable,
    Variant, VariantAttributes,
};
pub use crate::parse::{find_kinded_attr, parse_derive_input, parse_fields_type, parse_variant};
pub use crate::semantics::Value;
pub use crate::tokens::{Delimiter, Spacing, Span, Token};
pub use crate::traits::{compute_kind, Kind, Kinded};
