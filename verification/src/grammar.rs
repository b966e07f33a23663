//! The grammar of `#[kinded(..)]`, stated over token values.
//!
//! On an enum:
//!
//! ```text
//! kind = Ident, derive(Path, ..), skip_derive(Name, ..), display = "..", attrs(Attribute, ..)
//! ```
//!
//! and on a variant:
//!
//! ```text
//! rename = "..", attrs(Attribute, ..)
//! ```
//!
//! Options are separated by commas, may come in any order and at most once
//! each; a comma may follow the last one. Each function here says what one
//! part of the input means: a value, or the first thing wrong with it.

use vstd::prelude::*;
use crate::diagnostics::{DiagnosticKindView, DiagnosticView, Expected};
use crate::input::AttributeView;
use crate::models::{
    DisplayCase, IdentView, KindedAttributesView, OptOuts, PathView, Skippable, VariantAttributesView,
};
use crate::tokens::{Delimiter, Spacing, Span, TokenView};

verus! {

/// What is reported when `what` is looked for at position `i` and is not
/// there: at the token that stands there, or at `end` where the tokens are
/// over.
pub open spec fn missing(tokens: Seq<TokenView>, i: int, end: Span, what: Expected) -> DiagnosticView {
    if 0 <= i < tokens.len() {
        DiagnosticView { kind: DiagnosticKindView::Expected(what), span: tokens[i].span() }
    } else {
        DiagnosticView { kind: DiagnosticKindView::UnexpectedEnd(what), span: end }
    }
}

/// Whether `::` stands at position `i`: two colons, the first directly
/// followed by the second.
pub open spec fn path_sep_at(tokens: Seq<TokenView>, i: int) -> bool {
    &&& 0 <= i
    &&& i + 1 < tokens.len()
    &&& tokens[i] matches TokenView::Punct(first, spacing, _)
    &&& first == ':'
    &&& spacing == Spacing::Joint
    &&& tokens[i + 1].is_punct(':')
}

/// The identifier at position `i`, if one stands there.
pub open spec fn ident_at(tokens: Seq<TokenView>, i: int) -> Option<IdentView> {
    if 0 <= i < tokens.len() {
        match tokens[i] {
            TokenView::Ident(name, span) => Some(IdentView { name, span }),
            _ => None,
        }
    } else {
        None
    }
}

/// The tokens of the group in parentheses at position `i` and the place of
/// the group, if one stands there.
pub open spec fn parenthesized_at(tokens: Seq<TokenView>, i: int) -> Option<(Seq<TokenView>, Span)> {
    if 0 <= i < tokens.len() {
        match tokens[i] {
            TokenView::Group(Delimiter::Parenthesis, inner, span) => Some((inner, span)),
            _ => None,
        }
    } else {
        None
    }
}

/// The rest of a path whose segments so far are `segments` and end before
/// position `i`: the whole path and the position after it.
pub open spec fn path_rest(
    tokens: Seq<TokenView>,
    i: int,
    end: Span,
    leading_colon: bool,
    segments: Seq<IdentView>,
) -> Result<(PathView, int), DiagnosticView>
    decreases tokens.len() - i,
{
    if path_sep_at(tokens, i) {
        match ident_at(tokens, i + 2) {
            Some(segment) => path_rest(tokens, i + 3, end, leading_colon, segments.push(segment)),
            None => Err(missing(tokens, i + 2, end, Expected::Identifier)),
        }
    } else {
        Ok((PathView { leading_colon, segments }, i))
    }
}

/// The path that begins at position `i`, and the position after it.
pub open spec fn path_at(tokens: Seq<TokenView>, i: int, end: Span) -> Result<
    (PathView, int),
    DiagnosticView,
> {
    let leading_colon = path_sep_at(tokens, i);
    let first = if leading_colon {
        i + 2
    } else {
        i
    };
    match ident_at(tokens, first) {
        Some(segment) => path_rest(tokens, first + 1, end, leading_colon, seq![segment]),
        None => Err(missing(tokens, first, end, Expected::Identifier)),
    }
}

/// A path ends after the position where it begins, and within the tokens.
pub proof fn lemma_path_rest_advances(
    tokens: Seq<TokenView>,
    i: int,
    end: Span,
    leading_colon: bool,
    segments: Seq<IdentView>,
)
    requires
        0 <= i <= tokens.len(),
    ensures
        path_rest(tokens, i, end, leading_colon, segments) matches Ok((_, next)) ==> i <= next
            <= tokens.len(),
    decreases tokens.len() - i,
{
    if path_sep_at(tokens, i) && ident_at(tokens, i + 2) is Some {
        lemma_path_rest_advances(
            tokens,
            i + 3,
            end,
            leading_colon,
            segments.push(ident_at(tokens, i + 2).unwrap()),
        );
    }
}

/// A path ends after the position where it begins, and within the tokens.
pub proof fn lemma_path_advances(tokens: Seq<TokenView>, i: int, end: Span)
    requires
        0 <= i <= tokens.len(),
    ensures
        path_at(tokens, i, end) matches Ok((_, next)) ==> i < next <= tokens.len(),
{
    let leading_colon = path_sep_at(tokens, i);
    let first = if leading_colon {
        i + 2
    } else {
        i
    };
    if let Some(segment) = ident_at(tokens, first) {
        lemma_path_rest_advances(tokens, first + 1, end, leading_colon, seq![segment]);
    }
}

/// The paths written from position `i` on, after `paths`: a path, then a
/// comma and the next one, with or without a comma behind the last.
pub open spec fn paths_from(tokens: Seq<TokenView>, i: int, end: Span, paths: Seq<PathView>) -> Result<
    Seq<PathView>,
    DiagnosticView,
>
    decreases tokens.len() - i,
{
    if i < 0 || i >= tokens.len() {
        Ok(paths)
    } else {
        match path_at(tokens, i, end) {
            Err(diagnostic) => Err(diagnostic),
            Ok((path, next)) => {
                proof {
                    lemma_path_advances(tokens, i, end);
                }
                if next >= tokens.len() {
                    Ok(paths.push(path))
                } else if tokens[next].is_punct(',') {
                    paths_from(tokens, next + 1, end, paths.push(path))
                } else {
                    Err(missing(tokens, next, end, Expected::Comma))
                }
            },
        }
    }
}

/// The names to skip written from position `i` on, added to `opt_outs`:
/// names separated by commas, each one of [`Skippable::every`].
pub open spec fn skips_from(tokens: Seq<TokenView>, i: int, end: Span, opt_outs: OptOuts) -> Result<
    OptOuts,
    DiagnosticView,
>
    decreases tokens.len() - i,
{
    if i < 0 || i >= tokens.len() {
        Ok(opt_outs)
    } else {
        match tokens[i] {
            TokenView::Ident(name, span) => match Skippable::named(name) {
                None => Err(DiagnosticView { kind: DiagnosticKindView::InvalidSkipDerive(name), span }),
                Some(what) => {
                    if i + 1 >= tokens.len() {
                        Ok(opt_outs.and(what))
                    } else if tokens[i + 1].is_punct(',') {
                        skips_from(tokens, i + 2, end, opt_outs.and(what))
                    } else {
                        Err(missing(tokens, i + 1, end, Expected::Comma))
                    }
                },
            },
            _ => Err(missing(tokens, i, end, Expected::Identifier)),
        }
    }
}

/// The position of the first comma at or after position `i`, or the number
/// of tokens where no comma follows.
pub open spec fn comma_from(tokens: Seq<TokenView>, i: int) -> int
    decreases tokens.len() - i,
{
    if i < 0 || i >= tokens.len() || tokens[i].is_punct(',') {
        i
    } else {
        comma_from(tokens, i + 1)
    }
}

/// The first comma at or after a position is not before it, and no comma
/// stands between the two.
pub proof fn lemma_comma_from(tokens: Seq<TokenView>, i: int)
    requires
        0 <= i <= tokens.len(),
    ensures
        i <= comma_from(tokens, i) <= tokens.len(),
        forall|k: int| i <= k < comma_from(tokens, i) ==> !(#[trigger] tokens[k]).is_punct(','),
        comma_from(tokens, i) < tokens.len() ==> tokens[comma_from(tokens, i)].is_punct(','),
    decreases tokens.len() - i,
{
    if i < tokens.len() && !tokens[i].is_punct(',') {
        lemma_comma_from(tokens, i + 1);
    }
}

/// The attributes to pass on, written from position `i` on, after
/// `attributes`. Each is the run of tokens up to the next comma, and is not
/// looked into; an empty run is refused.
pub open spec fn passed_from(
    tokens: Seq<TokenView>,
    i: int,
    end: Span,
    attributes: Seq<Seq<TokenView>>,
) -> Result<Seq<Seq<TokenView>>, DiagnosticView>
    decreases tokens.len() - i,
{
    if i < 0 || i >= tokens.len() {
        Ok(attributes)
    } else {
        let comma = comma_from(tokens, i);
        proof {
            lemma_comma_from(tokens, i);
        }
        if comma == i {
            Err(missing(tokens, i, end, Expected::Attribute))
        } else if comma >= tokens.len() {
            Ok(attributes.push(tokens.subrange(i, tokens.len() as int)))
        } else {
            passed_from(tokens, comma + 1, end, attributes.push(tokens.subrange(i, comma)))
        }
    }
}

/// The identifier of `key = Ident`, where the key stands at position `i`.
pub open spec fn ident_value(tokens: Seq<TokenView>, i: int, end: Span) -> Result<
    IdentView,
    DiagnosticView,
> {
    if !(i + 1 < tokens.len() && tokens[i + 1].is_punct('=')) {
        Err(missing(tokens, i + 1, end, Expected::Equals))
    } else {
        match ident_at(tokens, i + 2) {
            Some(ident) => Ok(ident),
            None => Err(missing(tokens, i + 2, end, Expected::Identifier)),
        }
    }
}

/// The text and the place of the literal of `key = ".."`, where the key
/// stands at position `i`.
pub open spec fn string_value(tokens: Seq<TokenView>, i: int, end: Span) -> Result<
    (Seq<char>, Span),
    DiagnosticView,
> {
    if !(i + 1 < tokens.len() && tokens[i + 1].is_punct('=')) {
        Err(missing(tokens, i + 1, end, Expected::Equals))
    } else if i + 2 < tokens.len() && tokens[i + 2] is Str {
        Ok((tokens[i + 2]->Str_0, tokens[i + 2]->Str_1))
    } else {
        Err(missing(tokens, i + 2, end, Expected::StringLiteral))
    }
}

/// The tokens between the parentheses of `key(..)` and the place of the
/// group, where the key stands at position `i`.
pub open spec fn group_value(tokens: Seq<TokenView>, i: int, end: Span) -> Result<
    (Seq<TokenView>, Span),
    DiagnosticView,
> {
    match parenthesized_at(tokens, i + 1) {
        Some(group) => Ok(group),
        None => Err(missing(tokens, i + 1, end, Expected::Parentheses)),
    }
}

/// What is reported when the option `name`, written at `span`, was given
/// before.
pub open spec fn duplicated(name: Seq<char>, span: Span) -> DiagnosticView {
    DiagnosticView { kind: DiagnosticKindView::DuplicatedAttribute(name), span }
}

/// The option of an enum that begins with the key `name`, written at `span`
/// at position `i`, added to `options`; and the position after it. A key
/// that `options` holds already is refused before anything behind it is
/// read.
pub open spec fn enum_option(
    tokens: Seq<TokenView>,
    i: int,
    end: Span,
    name: Seq<char>,
    span: Span,
    options: KindedAttributesView,
) -> Result<(KindedAttributesView, int), DiagnosticView> {
    if name == "kind"@ {
        if options.kind is Some {
            Err(duplicated(name, span))
        } else {
            match ident_value(tokens, i, end) {
                Err(diagnostic) => Err(diagnostic),
                Ok(kind) => Ok((KindedAttributesView { kind: Some(kind), ..options }, i + 3)),
            }
        }
    } else if name == "derive"@ {
        if options.derive is Some {
            Err(duplicated(name, span))
        } else {
            match group_value(tokens, i, end) {
                Err(diagnostic) => Err(diagnostic),
                Ok((inner, group)) => match paths_from(inner, 0, group, Seq::empty()) {
                    Err(diagnostic) => Err(diagnostic),
                    Ok(paths) => Ok((KindedAttributesView { derive: Some(paths), ..options }, i + 2)),
                },
            }
        }
    } else if name == "skip_derive"@ {
        if options.opt_outs is Some {
            Err(duplicated(name, span))
        } else {
            match group_value(tokens, i, end) {
                Err(diagnostic) => Err(diagnostic),
                Ok((inner, group)) => match skips_from(inner, 0, group, OptOuts::none()) {
                    Err(diagnostic) => Err(diagnostic),
                    Ok(opt_outs) => Ok(
                        (KindedAttributesView { opt_outs: Some(opt_outs), ..options }, i + 2),
                    ),
                },
            }
        }
    } else if name == "display"@ {
        if options.display is Some {
            Err(duplicated(name, span))
        } else {
            match string_value(tokens, i, end) {
                Err(diagnostic) => Err(diagnostic),
                Ok((value, literal)) => match DisplayCase::named(value) {
                    None => Err(
                        DiagnosticView { kind: DiagnosticKindView::InvalidDisplay(value), span: literal },
                    ),
                    Some(case) => Ok((KindedAttributesView { display: Some(case), ..options }, i + 3)),
                },
            }
        }
    } else if name == "attrs"@ {
        if options.attrs is Some {
            Err(duplicated(name, span))
        } else {
            match group_value(tokens, i, end) {
                Err(diagnostic) => Err(diagnostic),
                Ok((inner, group)) => match passed_from(inner, 0, group, Seq::empty()) {
                    Err(diagnostic) => Err(diagnostic),
                    Ok(attrs) => Ok((KindedAttributesView { attrs: Some(attrs), ..options }, i + 2)),
                },
            }
        }
    } else {
        Err(DiagnosticView { kind: DiagnosticKindView::UnknownAttribute(name), span })
    }
}

/// The options after the one that begins with the key `name` is added to
/// `options`, where it can be.
pub open spec fn with_enum_option(
    tokens: Seq<TokenView>,
    i: int,
    end: Span,
    name: Seq<char>,
    span: Span,
    options: KindedAttributesView,
) -> KindedAttributesView {
    enum_option(tokens, i, end, name, span, options)->Ok_0.0
}

/// Two different options of an enum can be given in either order: each
/// sets what it stands for and leaves the rest as it is.
pub proof fn law_enum_options_commute(
    one: Seq<TokenView>,
    i: int,
    one_end: Span,
    one_name: Seq<char>,
    one_span: Span,
    other: Seq<TokenView>,
    j: int,
    other_end: Span,
    other_name: Seq<char>,
    other_span: Span,
    options: KindedAttributesView,
)
    requires
        one_name != other_name,
        enum_option(one, i, one_end, one_name, one_span, options) is Ok,
        enum_option(
            other,
            j,
            other_end,
            other_name,
            other_span,
            with_enum_option(one, i, one_end, one_name, one_span, options),
        ) is Ok,
    ensures
        enum_option(other, j, other_end, other_name, other_span, options) is Ok,
        enum_option(
            one,
            i,
            one_end,
            one_name,
            one_span,
            with_enum_option(other, j, other_end, other_name, other_span, options),
        ) is Ok,
        with_enum_option(
            one,
            i,
            one_end,
            one_name,
            one_span,
            with_enum_option(other, j, other_end, other_name, other_span, options),
        ) == with_enum_option(
            other,
            j,
            other_end,
            other_name,
            other_span,
            with_enum_option(one, i, one_end, one_name, one_span, options),
        ),
{
}

/// The options of an enum written from position `i` on, added to `options`.
pub open spec fn enum_options_from(
    tokens: Seq<TokenView>,
    i: int,
    end: Span,
    options: KindedAttributesView,
) -> Result<KindedAttributesView, DiagnosticView>
    decreases tokens.len() - i,
{
    if i < 0 || i >= tokens.len() {
        Ok(options)
    } else {
        match tokens[i] {
            TokenView::Ident(name, span) => match enum_option(tokens, i, end, name, span, options) {
                Err(diagnostic) => Err(diagnostic),
                Ok((more, next)) => {
                    if next >= tokens.len() {
                        Ok(more)
                    } else if tokens[next].is_punct(',') {
                        enum_options_from(tokens, next + 1, end, more)
                    } else {
                        Err(missing(tokens, next, end, Expected::Comma))
                    }
                },
            },
            _ => Err(missing(tokens, i, end, Expected::Identifier)),
        }
    }
}

/// The option of a variant that begins with the key `name`, written at
/// `span` at position `i`, added to `options`; and the position after it.
pub open spec fn variant_option(
    tokens: Seq<TokenView>,
    i: int,
    end: Span,
    name: Seq<char>,
    span: Span,
    options: VariantAttributesView,
) -> Result<(VariantAttributesView, int), DiagnosticView> {
    if name == "rename"@ {
        if options.rename is Some {
            Err(duplicated(name, span))
        } else {
            match string_value(tokens, i, end) {
                Err(diagnostic) => Err(diagnostic),
                Ok((value, _)) => Ok((VariantAttributesView { rename: Some(value), ..options }, i + 3)),
            }
        }
    } else if name == "attrs"@ {
        if options.attrs is Some {
            Err(duplicated(name, span))
        } else {
            match group_value(tokens, i, end) {
                Err(diagnostic) => Err(diagnostic),
                Ok((inner, group)) => match passed_from(inner, 0, group, Seq::empty()) {
                    Err(diagnostic) => Err(diagnostic),
                    Ok(attrs) => Ok((VariantAttributesView { attrs: Some(attrs), ..options }, i + 2)),
                },
            }
        }
    } else {
        Err(DiagnosticView { kind: DiagnosticKindView::UnknownAttribute(name), span })
    }
}

/// The options of a variant written from position `i` on, added to
/// `options`.
pub open spec fn variant_options_from(
    tokens: Seq<TokenView>,
    i: int,
    end: Span,
    options: VariantAttributesView,
) -> Result<VariantAttributesView, DiagnosticView>
    decreases tokens.len() - i,
{
    if i < 0 || i >= tokens.len() {
        Ok(options)
    } else {
        match tokens[i] {
            TokenView::Ident(name, span) => match variant_option(tokens, i, end, name, span, options) {
                Err(diagnostic) => Err(diagnostic),
                Ok((more, next)) => {
                    if next >= tokens.len() {
                        Ok(more)
                    } else if tokens[next].is_punct(',') {
                        variant_options_from(tokens, next + 1, end, more)
                    } else {
                        Err(missing(tokens, next, end, Expected::Comma))
                    }
                },
            },
            _ => Err(missing(tokens, i, end, Expected::Identifier)),
        }
    }
}

/// What stands between the parentheses of the attribute `#[kinded(..)]`,
/// and the place of the parentheses. The attribute holds that one group and
/// nothing else.
pub open spec fn kinded_arguments(attr: AttributeView) -> Result<(Seq<TokenView>, Span), DiagnosticView> {
    match parenthesized_at(attr.tokens, 0) {
        Some(group) => {
            if attr.tokens.len() > 1 {
                Err(
                    DiagnosticView {
                        kind: DiagnosticKindView::UnexpectedToken,
                        span: attr.tokens[1].span(),
                    },
                )
            } else {
                Ok(group)
            }
        },
        None => Err(missing(attr.tokens, 0, attr.span, Expected::Parentheses)),
    }
}

/// The options that the attribute `attr` gives an enum.
pub open spec fn enum_options(attr: AttributeView) -> Result<KindedAttributesView, DiagnosticView> {
    match kinded_arguments(attr) {
        Err(diagnostic) => Err(diagnostic),
        Ok((inner, group)) => enum_options_from(inner, 0, group, KindedAttributesView::empty()),
    }
}

/// The options that the attribute `attr` gives a variant.
pub open spec fn variant_options(attr: AttributeView) -> Result<VariantAttributesView, DiagnosticView> {
    match kinded_arguments(attr) {
        Err(diagnostic) => Err(diagnostic),
        Ok((inner, group)) => variant_options_from(
            inner,
            0,
            group,
            VariantAttributesView::empty(),
        ),
    }
}

} // verus!
