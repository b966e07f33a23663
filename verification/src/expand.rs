//! The whole way from a declaration to what is emitted for it.

use vstd::prelude::*;
use crate::diagnostics::{Diagnostic, DiagnosticView};
use crate::generate::{generate, generated_of, Generated, GeneratedView};
use crate::input::{DeriveInput, DeriveInputView};
use crate::parse::{model_of, parse_derive_input, result_view};

verus! {

/// What is emitted for the declaration `input`: all of it where the
/// declaration has a model, and nothing but the diagnostic where it has
/// none.
pub open spec fn expansion_of(input: DeriveInputView) -> Result<GeneratedView, DiagnosticView> {
    match model_of(input) {
        Ok(meta) => Ok(generated_of(meta)),
        Err(diagnostic) => Err(diagnostic),
    }
}

/// Expands the derive on the declaration `input`: builds its model and
/// describes what is emitted for it, or says what is wrong.
pub fn expand_derive(input: DeriveInput) -> (result: Result<Generated, Diagnostic>)
    ensures
        result_view(result) == expansion_of(input.deep_view()),
{
    let meta = parse_derive_input(input)?;
    Ok(generate(meta))
}

} // verus!
