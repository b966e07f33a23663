//! From the declaration as written to its model.

use vstd::prelude::*;
use crate::diagnostics::{Diagnostic, DiagnosticKind, DiagnosticKindView, DiagnosticView, Expected};
use crate::grammar::{
    comma_from, duplicated, enum_option, enum_options, enum_options_from, group_value, ident_at,
    ident_value, kinded_arguments, lemma_path_advances, missing, parenthesized_at, passed_from,
    path_at, path_rest, path_sep_at, paths_from, skips_from, string_value, variant_option,
    variant_options, variant_options_from,
};
use crate::input::{
    Attribute, AttributeView, Data, DataView, DeriveInput, DeriveInputView, Fields, FieldsView,
    SourceVariant, SourceVariantView,
};
use crate::models::{
    DisplayCase, FieldsType, Ident, KindedAttributes, KindedAttributesView, Meta, MetaView, OptOuts,
    Path, Skippable, Variant, VariantAttributes, VariantAttributesView, VariantView,
};
use crate::tokens::{duplicate_range, lemma_group_view, Delimiter, Spacing, Span, Token};

verus! {

/// The value of a result: that of what it holds.
pub open spec fn result_view<T: DeepView, E: DeepView>(result: Result<T, E>) -> Result<T::V, E::V> {
    match result {
        Ok(value) => Ok(value.deep_view()),
        Err(error) => Err(error.deep_view()),
    }
}

/// What is reported when `what` is looked for at position `i` and is not
/// there.
fn missing_at(tokens: &Vec<Token>, i: usize, end: Span, what: Expected) -> (diagnostic: Diagnostic)
    ensures
        diagnostic.deep_view() == missing(tokens.deep_view(), i as int, end, what),
{
    if i < tokens.len() {
        Diagnostic { kind: DiagnosticKind::Expected(what), span: tokens[i].span() }
    } else {
        Diagnostic { kind: DiagnosticKind::UnexpectedEnd(what), span: end }
    }
}

/// Whether the punctuation character `c` stands at position `i`.
fn punct_at(tokens: &Vec<Token>, i: usize, c: char) -> (found: bool)
    ensures
        found == (i < tokens.len() && tokens.deep_view()[i as int].is_punct(c)),
{
    if i < tokens.len() {
        match &tokens[i] {
            Token::Punct(p, _, _) => *p == c,
            _ => false,
        }
    } else {
        false
    }
}

/// Whether `::` stands at position `i`.
fn path_sep(tokens: &Vec<Token>, i: usize) -> (found: bool)
    ensures
        found == path_sep_at(tokens.deep_view(), i as int),
{
    if i < tokens.len() && tokens.len() - i > 1 {
        match &tokens[i] {
            Token::Punct(first, Spacing::Joint, _) => *first == ':' && punct_at(tokens, i + 1, ':'),
            _ => false,
        }
    } else {
        false
    }
}

/// The identifier at position `i`, if one stands there.
fn ident_here(tokens: &Vec<Token>, i: usize) -> (ident: Option<Ident>)
    ensures
        ident.deep_view() == ident_at(tokens.deep_view(), i as int),
{
    if i < tokens.len() {
        match &tokens[i] {
            Token::Ident(name, span) => Some(Ident { name: name.clone(), span: *span }),
            _ => None,
        }
    } else {
        None
    }
}

/// The tokens of the group in parentheses at position `i` and the place of
/// the group, if one stands there.
fn parenthesized_here(tokens: &Vec<Token>, i: usize) -> (group: Option<(&Vec<Token>, Span)>)
    ensures
        match group {
            Some((inner, span)) => parenthesized_at(tokens.deep_view(), i as int) == Some(
                (inner.deep_view(), span),
            ),
            None => parenthesized_at(tokens.deep_view(), i as int) is None,
        },
{
    if i < tokens.len() {
        match &tokens[i] {
            Token::Group(Delimiter::Parenthesis, inner, span) => {
                proof {
                    lemma_group_view(Delimiter::Parenthesis, *inner, *span);
                }
                Some((inner, *span))
            },
            _ => None,
        }
    } else {
        None
    }
}

/// The path that begins at position `i`, and the position after it.
fn parse_path(tokens: &Vec<Token>, i: usize, end: Span) -> (result: Result<(Path, usize), Diagnostic>)
    requires
        i <= tokens.len(),
    ensures
        match result {
            Ok((path, next)) => path_at(tokens.deep_view(), i as int, end) matches Ok((p, n))
                && p == path.deep_view() && n == next,
            Err(diagnostic) => path_at(tokens.deep_view(), i as int, end) matches Err(d)
                && d == diagnostic.deep_view(),
        },
{
    let leading_colon = path_sep(tokens, i);
    let first: usize = if leading_colon {
        i + 2
    } else {
        i
    };
    let mut segments: Vec<Ident> = Vec::new();
    match ident_here(tokens, first) {
        None => {
            return Err(missing_at(tokens, first, end, Expected::Identifier));
        },
        Some(segment) => {
            segments.push(segment);
        },
    }
    assert(segments.deep_view() =~= seq![ident_at(tokens.deep_view(), first as int).unwrap()]);
    let mut at: usize = first + 1;
    while path_sep(tokens, at)
        invariant
            at <= tokens.len(),
            path_rest(tokens.deep_view(), at as int, end, leading_colon, segments.deep_view())
                == path_at(tokens.deep_view(), i as int, end),
        decreases tokens.len() - at,
    {
        match ident_here(tokens, at + 2) {
            None => {
                return Err(missing_at(tokens, at + 2, end, Expected::Identifier));
            },
            Some(segment) => {
                let ghost before = segments.deep_view();
                segments.push(segment);
                assert(segments.deep_view() =~= before.push(
                    ident_at(tokens.deep_view(), at + 2).unwrap(),
                ));
                at = at + 3;
            },
        }
    }
    Ok((Path { leading_colon, segments }, at))
}

/// The paths written in `tokens`, which stand in a group at `end`.
fn parse_paths(tokens: &Vec<Token>, end: Span) -> (result: Result<Vec<Path>, Diagnostic>)
    ensures
        result_view(result) == paths_from(tokens.deep_view(), 0, end, Seq::empty()),
{
    let mut paths: Vec<Path> = Vec::new();
    let mut i: usize = 0;
    assert(paths.deep_view() =~= Seq::empty());
    while i < tokens.len()
        invariant
            i <= tokens.len(),
            paths_from(tokens.deep_view(), i as int, end, paths.deep_view()) == paths_from(
                tokens.deep_view(),
                0,
                end,
                Seq::empty(),
            ),
        decreases tokens.len() - i,
    {
        match parse_path(tokens, i, end) {
            Err(diagnostic) => {
                return Err(diagnostic);
            },
            Ok((path, next)) => {
                proof {
                    lemma_path_advances(tokens.deep_view(), i as int, end);
                }
                let ghost before = paths.deep_view();
                paths.push(path);
                assert(paths.deep_view() =~= before.push(path.deep_view()));
                if next >= tokens.len() {
                    i = next;
                } else if punct_at(tokens, next, ',') {
                    i = next + 1;
                } else {
                    return Err(missing_at(tokens, next, end, Expected::Comma));
                }
            },
        }
    }
    Ok(paths)
}

/// What is skipped by the names written in `tokens`, which stand in a group
/// at `end`.
fn parse_skips(tokens: &Vec<Token>, end: Span) -> (result: Result<OptOuts, Diagnostic>)
    ensures
        match result {
            Ok(opt_outs) => skips_from(tokens.deep_view(), 0, end, OptOuts::none()) matches Ok(o)
                && o == opt_outs,
            Err(diagnostic) => skips_from(tokens.deep_view(), 0, end, OptOuts::none()) matches Err(d)
                && d == diagnostic.deep_view(),
        },
{
    let mut opt_outs = OptOuts::default();
    let mut i: usize = 0;
    while i < tokens.len()
        invariant
            i <= tokens.len(),
            skips_from(tokens.deep_view(), i as int, end, opt_outs) == skips_from(
                tokens.deep_view(),
                0,
                end,
                OptOuts::none(),
            ),
        decreases tokens.len() - i,
    {
        match &tokens[i] {
            Token::Ident(name, span) => match Skippable::from_name(name.as_str()) {
                None => {
                    return Err(
                        Diagnostic { kind: DiagnosticKind::InvalidSkipDerive(name.clone()), span: *span },
                    );
                },
                Some(what) => {
                    opt_outs.skip(what);
                    if tokens.len() - i <= 1 {
                        i = tokens.len();
                    } else if punct_at(tokens, i + 1, ',') {
                        i = i + 2;
                    } else {
                        return Err(missing_at(tokens, i + 1, end, Expected::Comma));
                    }
                },
            },
            _ => {
                return Err(missing_at(tokens, i, end, Expected::Identifier));
            },
        }
    }
    Ok(opt_outs)
}

/// The attributes to pass on that are written in `tokens`, which stand in
/// a group at `end`.
fn parse_passed(tokens: &Vec<Token>, end: Span) -> (result: Result<Vec<Vec<Token>>, Diagnostic>)
    ensures
        result_view(result) == passed_from(tokens.deep_view(), 0, end, Seq::empty()),
{
    let mut attributes: Vec<Vec<Token>> = Vec::new();
    let mut i: usize = 0;
    assert(attributes.deep_view() =~= Seq::empty());
    while i < tokens.len()
        invariant
            i <= tokens.len(),
            passed_from(tokens.deep_view(), i as int, end, attributes.deep_view()) == passed_from(
                tokens.deep_view(),
                0,
                end,
                Seq::empty(),
            ),
        decreases tokens.len() - i,
    {
        let mut comma: usize = i;
        while comma < tokens.len() && !punct_at(tokens, comma, ',')
            invariant
                i <= comma <= tokens.len(),
                comma_from(tokens.deep_view(), comma as int) == comma_from(tokens.deep_view(), i as int),
            decreases tokens.len() - comma,
        {
            comma += 1;
        }
        if comma == i {
            return Err(missing_at(tokens, i, end, Expected::Attribute));
        }
        let ghost before = attributes.deep_view();
        let attribute = duplicate_range(tokens, i, comma);
        attributes.push(attribute);
        assert(attributes.deep_view() =~= before.push(attribute.deep_view()));
        if comma >= tokens.len() {
            i = comma;
        } else {
            i = comma + 1;
        }
    }
    Ok(attributes)
}

/// The identifier of `key = Ident`, where the key stands at position `i`.
fn parse_ident_value(tokens: &Vec<Token>, i: usize, end: Span) -> (result: Result<Ident, Diagnostic>)
    requires
        i < tokens.len(),
    ensures
        result_view(result) == ident_value(tokens.deep_view(), i as int, end),
{
    if !punct_at(tokens, i + 1, '=') {
        return Err(missing_at(tokens, i + 1, end, Expected::Equals));
    }
    match ident_here(tokens, i + 2) {
        Some(ident) => Ok(ident),
        None => Err(missing_at(tokens, i + 2, end, Expected::Identifier)),
    }
}

/// The text and the place of the literal of `key = ".."`, where the key
/// stands at position `i`.
fn parse_string_value(tokens: &Vec<Token>, i: usize, end: Span) -> (result: Result<
    (String, Span),
    Diagnostic,
>)
    requires
        i < tokens.len(),
    ensures
        match result {
            Ok((value, literal)) => string_value(tokens.deep_view(), i as int, end) matches Ok((v, l))
                && v == value@ && l == literal,
            Err(diagnostic) => string_value(tokens.deep_view(), i as int, end) matches Err(d)
                && d == diagnostic.deep_view(),
        },
{
    if !punct_at(tokens, i + 1, '=') {
        return Err(missing_at(tokens, i + 1, end, Expected::Equals));
    }
    if tokens.len() - i > 2 {
        if let Token::Str(value, literal) = &tokens[i + 2] {
            return Ok((value.clone(), *literal));
        }
    }
    Err(missing_at(tokens, i + 2, end, Expected::StringLiteral))
}

/// The tokens between the parentheses of `key(..)` and the place of the
/// group, where the key stands at position `i`.
fn parse_group_value(tokens: &Vec<Token>, i: usize, end: Span) -> (result: Result<
    (&Vec<Token>, Span),
    Diagnostic,
>)
    requires
        i < tokens.len(),
    ensures
        match result {
            Ok((inner, group)) => group_value(tokens.deep_view(), i as int, end) matches Ok((v, g))
                && v == inner.deep_view() && g == group,
            Err(diagnostic) => group_value(tokens.deep_view(), i as int, end) matches Err(d)
                && d == diagnostic.deep_view(),
        },
{
    match parenthesized_here(tokens, i + 1) {
        Some(group) => Ok(group),
        None => Err(missing_at(tokens, i + 1, end, Expected::Parentheses)),
    }
}

/// What is reported when the option `name`, written at `span`, was given
/// before.
fn duplicated_at(name: &String, span: Span) -> (diagnostic: Diagnostic)
    ensures
        diagnostic.deep_view() == duplicated(name@, span),
{
    Diagnostic { kind: DiagnosticKind::DuplicatedAttribute(name.clone()), span }
}

/// The option of an enum that begins with the key `name`, written at `span`
/// at position `i`, added to `options`; and the position after it.
fn parse_enum_option(
    tokens: &Vec<Token>,
    i: usize,
    end: Span,
    name: &String,
    span: Span,
    options: KindedAttributes,
) -> (result: Result<(KindedAttributes, usize), Diagnostic>)
    requires
        i < tokens.len(),
    ensures
        match result {
            Ok((more, next)) => enum_option(
                tokens.deep_view(),
                i as int,
                end,
                name@,
                span,
                options.deep_view(),
            ) matches Ok((m, n)) && m == more.deep_view() && n == next,
            Err(diagnostic) => enum_option(
                tokens.deep_view(),
                i as int,
                end,
                name@,
                span,
                options.deep_view(),
            ) matches Err(d) && d == diagnostic.deep_view(),
        },
{
    let mut options = options;
    if name.as_str().eq("kind") {
        if options.kind.is_some() {
            return Err(duplicated_at(name, span));
        }
        let kind = parse_ident_value(tokens, i, end)?;
        options.kind = Some(kind);
        Ok((options, i + 3))
    } else if name.as_str().eq("derive") {
        if options.derive.is_some() {
            return Err(duplicated_at(name, span));
        }
        let (inner, group) = parse_group_value(tokens, i, end)?;
        let paths = parse_paths(inner, group)?;
        options.derive = Some(paths);
        Ok((options, i + 2))
    } else if name.as_str().eq("skip_derive") {
        if options.opt_outs.is_some() {
            return Err(duplicated_at(name, span));
        }
        let (inner, group) = parse_group_value(tokens, i, end)?;
        let opt_outs = parse_skips(inner, group)?;
        options.opt_outs = Some(opt_outs);
        Ok((options, i + 2))
    } else if name.as_str().eq("display") {
        if options.display.is_some() {
            return Err(duplicated_at(name, span));
        }
        let (value, literal) = parse_string_value(tokens, i, end)?;
        match DisplayCase::from_literal(value.as_str()) {
            None => Err(Diagnostic { kind: DiagnosticKind::InvalidDisplay(value), span: literal }),
            Some(case) => {
                options.display = Some(case);
                Ok((options, i + 3))
            },
        }
    } else if name.as_str().eq("attrs") {
        if options.attrs.is_some() {
            return Err(duplicated_at(name, span));
        }
        let (inner, group) = parse_group_value(tokens, i, end)?;
        let attrs = parse_passed(inner, group)?;
        options.attrs = Some(attrs);
        Ok((options, i + 2))
    } else {
        Err(Diagnostic { kind: DiagnosticKind::UnknownAttribute(name.clone()), span })
    }
}

/// The option of a variant that begins with the key `name`, written at
/// `span` at position `i`, added to `options`; and the position after it.
fn parse_variant_option(
    tokens: &Vec<Token>,
    i: usize,
    end: Span,
    name: &String,
    span: Span,
    options: VariantAttributes,
) -> (result: Result<(VariantAttributes, usize), Diagnostic>)
    requires
        i < tokens.len(),
    ensures
        match result {
            Ok((more, next)) => variant_option(
                tokens.deep_view(),
                i as int,
                end,
                name@,
                span,
                options.deep_view(),
            ) matches Ok((m, n)) && m == more.deep_view() && n == next,
            Err(diagnostic) => variant_option(
                tokens.deep_view(),
                i as int,
                end,
                name@,
                span,
                options.deep_view(),
            ) matches Err(d) && d == diagnostic.deep_view(),
        },
{
    let mut options = options;
    if name.as_str().eq("rename") {
        if options.rename.is_some() {
            return Err(duplicated_at(name, span));
        }
        let (value, _) = parse_string_value(tokens, i, end)?;
        options.rename = Some(value);
        Ok((options, i + 3))
    } else if name.as_str().eq("attrs") {
        if options.attrs.is_some() {
            return Err(duplicated_at(name, span));
        }
        let (inner, group) = parse_group_value(tokens, i, end)?;
        let attrs = parse_passed(inner, group)?;
        options.attrs = Some(attrs);
        Ok((options, i + 2))
    } else {
        Err(Diagnostic { kind: DiagnosticKind::UnknownAttribute(name.clone()), span })
    }
}

/// What stands between the parentheses of the attribute, and the place of
/// the parentheses.
fn parse_kinded_arguments(attr: &Attribute) -> (result: Result<(&Vec<Token>, Span), Diagnostic>)
    ensures
        match result {
            Ok((inner, group)) => kinded_arguments(attr.deep_view()) matches Ok((v, g))
                && v == inner.deep_view() && g == group,
            Err(diagnostic) => kinded_arguments(attr.deep_view()) matches Err(d)
                && d == diagnostic.deep_view(),
        },
{
    match parenthesized_here(&attr.tokens, 0) {
        Some(group) => {
            if attr.tokens.len() > 1 {
                Err(Diagnostic { kind: DiagnosticKind::UnexpectedToken, span: attr.tokens[1].span() })
            } else {
                Ok(group)
            }
        },
        None => Err(missing_at(&attr.tokens, 0, attr.span, Expected::Parentheses)),
    }
}

impl KindedAttributes {
    /// Reads the options of an enum from its attribute `#[kinded(..)]`:
    /// the options in the order written, or the first thing wrong.
    pub fn parse(attr: &Attribute) -> (result: Result<KindedAttributes, Diagnostic>)
        ensures
            result_view(result) == enum_options(attr.deep_view()),
    {
        let (tokens, end) = parse_kinded_arguments(attr)?;
        let mut options = KindedAttributes::default();
        let mut i: usize = 0;
        while i < tokens.len()
            invariant
                i <= tokens.len(),
                enum_options_from(tokens.deep_view(), i as int, end, options.deep_view())
                    == enum_options(attr.deep_view()),
            decreases tokens.len() - i,
        {
            match &tokens[i] {
                Token::Ident(name, span) => {
                    let (more, next) = parse_enum_option(tokens, i, end, name, *span, options)?;
                    options = more;
                    // A comma, unless this is the end.
                    if next >= tokens.len() {
                        i = tokens.len();
                    } else if punct_at(tokens, next, ',') {
                        i = next + 1;
                    } else {
                        return Err(missing_at(tokens, next, end, Expected::Comma));
                    }
                },
                _ => {
                    return Err(missing_at(tokens, i, end, Expected::Identifier));
                },
            }
        }
        Ok(options)
    }
}

impl VariantAttributes {
    /// Reads the options of a variant from its attribute `#[kinded(..)]`:
    /// the options in the order written, or the first thing wrong.
    pub fn parse(attr: &Attribute) -> (result: Result<VariantAttributes, Diagnostic>)
        ensures
            result_view(result) == variant_options(attr.deep_view()),
    {
        let (tokens, end) = parse_kinded_arguments(attr)?;
        let mut options = VariantAttributes::default();
        let mut i: usize = 0;
        while i < tokens.len()
            invariant
                i <= tokens.len(),
                variant_options_from(tokens.deep_view(), i as int, end, options.deep_view())
                    == variant_options(attr.deep_view()),
            decreases tokens.len() - i,
        {
            match &tokens[i] {
                Token::Ident(name, span) => {
                    let (more, next) = parse_variant_option(tokens, i, end, name, *span, options)?;
                    options = more;
                    // A comma, unless this is the end.
                    if next >= tokens.len() {
                        i = tokens.len();
                    } else if punct_at(tokens, next, ',') {
                        i = next + 1;
                    } else {
                        return Err(missing_at(tokens, next, end, Expected::Comma));
                    }
                },
                _ => {
                    return Err(missing_at(tokens, i, end, Expected::Identifier));
                },
            }
        }
        Ok(options)
    }
}

/// Whether `attr` is a `#[kinded ..]` attribute: its path is the one name
/// `kinded`.
pub open spec fn is_kinded(attr: AttributeView) -> bool {
    &&& !attr.path.leading_colon
    &&& attr.path.segments.len() == 1
    &&& attr.path.segments[0].name == "kinded"@
}

/// The position of the first `#[kinded ..]` attribute at or after `from`.
pub open spec fn first_kinded(attrs: Seq<AttributeView>, from: int) -> Option<int>
    decreases attrs.len() - from,
{
    if from < 0 || from >= attrs.len() {
        None
    } else if is_kinded(attrs[from]) {
        Some(from)
    } else {
        first_kinded(attrs, from + 1)
    }
}

/// The position of the last `#[kinded ..]` attribute before `before`.
pub open spec fn last_kinded(attrs: Seq<AttributeView>, before: int) -> Option<int>
    decreases before,
{
    if before <= 0 || before > attrs.len() {
        None
    } else if is_kinded(attrs[before - 1]) {
        Some(before - 1)
    } else {
        last_kinded(attrs, before - 1)
    }
}

/// The one `#[kinded ..]` attribute among `attrs`, or none; more than one
/// is reported at the last.
pub open spec fn kinded_attr(attrs: Seq<AttributeView>) -> Result<Option<int>, DiagnosticView> {
    match (first_kinded(attrs, 0), last_kinded(attrs, attrs.len() as int)) {
        (Some(first), Some(last)) => {
            if first == last {
                Ok(Some(first))
            } else {
                Err(
                    DiagnosticView {
                        kind: DiagnosticKindView::MultipleKindedAttributes,
                        span: attrs[last].span,
                    },
                )
            }
        },
        _ => Ok(None),
    }
}

/// The shape of `fields`.
pub open spec fn shape_of(fields: FieldsView) -> FieldsType {
    match fields {
        FieldsView::Named(_) => FieldsType::Named,
        FieldsView::Unnamed(_) => FieldsType::Unnamed,
        FieldsView::Unit => FieldsType::Unit,
    }
}

/// The model of one variant: its name and shape as written, and the
/// options of its `#[kinded(..)]` attribute if it has one.
pub open spec fn variant_model(variant: SourceVariantView) -> Result<VariantView, DiagnosticView> {
    match kinded_attr(variant.attrs) {
        Err(diagnostic) => Err(diagnostic),
        Ok(found) => {
            let options = match found {
                Some(i) => variant_options(variant.attrs[i]),
                None => Ok(VariantAttributesView::empty()),
            };
            match options {
                Err(diagnostic) => Err(diagnostic),
                Ok(options) => Ok(
                    VariantView {
                        ident: variant.ident,
                        fields_type: shape_of(variant.fields),
                        rename: options.rename,
                        attrs: match options.attrs {
                            Some(attrs) => attrs,
                            None => Seq::empty(),
                        },
                    },
                ),
            }
        },
    }
}

/// The models of the first `n` of `variants`, or what is wrong with the
/// first of them that has something wrong.
pub open spec fn variant_models(variants: Seq<SourceVariantView>, n: int) -> Result<
    Seq<VariantView>,
    DiagnosticView,
>
    decreases n,
{
    if n <= 0 {
        Ok(Seq::empty())
    } else {
        match variant_models(variants, n - 1) {
            Err(diagnostic) => Err(diagnostic),
            Ok(before) => match variant_model(variants[n - 1]) {
                Err(diagnostic) => Err(diagnostic),
                Ok(variant) => Ok(before.push(variant)),
            },
        }
    }
}

/// What is wrong with one of the first `n` variants is wrong with the first
/// `m` of them, for every later `m`.
pub proof fn lemma_variant_models_fail(variants: Seq<SourceVariantView>, n: int, m: int)
    requires
        n <= m,
        variant_models(variants, n) is Err,
    ensures
        variant_models(variants, m) == variant_models(variants, n),
    decreases m - n,
{
    if n < m {
        lemma_variant_models_fail(variants, n, m - 1);
    }
}

/// The model of the declaration `input`. The attributes of the item are
/// read first, then it must be an enum and have a variant, then its
/// variants are read in order; the first thing wrong is reported and
/// nothing else.
pub open spec fn model_of(input: DeriveInputView) -> Result<MetaView, DiagnosticView> {
    match kinded_attr(input.attrs) {
        Err(diagnostic) => Err(diagnostic),
        Ok(found) => {
            let options = match found {
                Some(i) => enum_options(input.attrs[i]),
                None => Ok(KindedAttributesView::empty()),
            };
            match options {
                Err(diagnostic) => Err(diagnostic),
                Ok(kinded_attrs) => match input.data {
                    DataView::Enum(variants) => {
                        if variants.len() == 0 {
                            Err(
                                DiagnosticView {
                                    kind: DiagnosticKindView::NoVariants,
                                    span: input.ident.span,
                                },
                            )
                        } else {
                            match variant_models(variants, variants.len() as int) {
                                Err(diagnostic) => Err(diagnostic),
                                Ok(variants) => Ok(
                                    MetaView {
                                        vis: input.vis,
                                        ident: input.ident,
                                        generics: input.generics,
                                        variants,
                                        kinded_attrs,
                                    },
                                ),
                            }
                        }
                    },
                    _ => Err(
                        DiagnosticView { kind: DiagnosticKindView::NotAnEnum, span: input.ident.span },
                    ),
                },
            }
        },
    }
}

/// Whether `attr` is a `#[kinded ..]` attribute.
fn kinded(attr: &Attribute) -> (found: bool)
    ensures
        found == is_kinded(attr.deep_view()),
{
    !attr.path.leading_colon && attr.path.segments.len() == 1
        && attr.path.segments[0].name.as_str().eq("kinded")
}

/// Finds the `#[kinded(..)]` attribute among `attrs`: its position, or
/// none where there is none. More than one is refused, at the last.
pub fn find_kinded_attr(attrs: &Vec<Attribute>) -> (result: Result<Option<usize>, Diagnostic>)
    ensures
        match result {
            Ok(Some(i)) => kinded_attr(attrs.deep_view()) == Ok::<_, DiagnosticView>(Some(i as int)),
            Ok(None) => kinded_attr(attrs.deep_view()) == Ok::<Option<int>, DiagnosticView>(None),
            Err(diagnostic) => kinded_attr(attrs.deep_view()) == Err::<Option<int>, _>(
                diagnostic.deep_view(),
            ),
        },
        result matches Ok(Some(i)) ==> i < attrs.len(),
{
    let mut first: Option<usize> = None;
    let mut last: Option<usize> = None;
    let mut i: usize = 0;
    while i < attrs.len()
        invariant
            i <= attrs.len(),
            match last {
                Some(l) => l < i && last_kinded(attrs.deep_view(), i as int) == Some(l as int),
                None => last_kinded(attrs.deep_view(), i as int) is None,
            },
            match first {
                Some(f) => f < i && first_kinded(attrs.deep_view(), 0) == Some(f as int),
                None => first_kinded(attrs.deep_view(), i as int) == first_kinded(attrs.deep_view(), 0),
            },
            first is Some <==> last is Some,
        decreases attrs.len() - i,
    {
        if kinded(&attrs[i]) {
            if first.is_none() {
                first = Some(i);
            }
            last = Some(i);
        }
        i += 1;
    }
    match (first, last) {
        (Some(first), Some(last)) => {
            if first == last {
                Ok(Some(first))
            } else {
                Err(Diagnostic { kind: DiagnosticKind::MultipleKindedAttributes, span: attrs[last].span })
            }
        },
        _ => Ok(None),
    }
}

/// The shape of `fields`.
pub fn parse_fields_type(fields: &Fields) -> (shape: FieldsType)
    ensures
        shape == shape_of(fields.deep_view()),
{
    match fields {
        Fields::Named(..) => FieldsType::Named,
        Fields::Unnamed(..) => FieldsType::Unnamed,
        Fields::Unit => FieldsType::Unit,
    }
}

/// The model of one variant.
pub fn parse_variant(variant: &SourceVariant) -> (result: Result<Variant, Diagnostic>)
    ensures
        result_view(result) == variant_model(variant.deep_view()),
{
    let options = match find_kinded_attr(&variant.attrs)? {
        Some(i) => VariantAttributes::parse(&variant.attrs[i])?,
        None => VariantAttributes::default(),
    };
    let attrs = match options.attrs {
        Some(attrs) => attrs,
        None => {
            let attrs: Vec<Vec<Token>> = Vec::new();
            assert(attrs.deep_view() =~= Seq::empty());
            attrs
        },
    };
    Ok(
        Variant {
            ident: variant.ident.duplicate(),
            fields_type: parse_fields_type(&variant.fields),
            rename: options.rename,
            attrs,
        },
    )
}

/// Builds the model of the declaration `input`, or says what is wrong with
/// it.
#[verifier::loop_isolation(false)]
pub fn parse_derive_input(input: DeriveInput) -> (result: Result<Meta, Diagnostic>)
    ensures
        result_view(result) == model_of(input.deep_view()),
{
    let kinded_attrs = match find_kinded_attr(&input.attrs)? {
        Some(i) => KindedAttributes::parse(&input.attrs[i])?,
        None => KindedAttributes::default(),
    };
    let data = match input.data {
        Data::Enum(variants) => variants,
        Data::Struct | Data::Union => {
            return Err(Diagnostic { kind: DiagnosticKind::NotAnEnum, span: input.ident.span });
        },
    };
    if data.len() == 0 {
        return Err(Diagnostic { kind: DiagnosticKind::NoVariants, span: input.ident.span });
    }
    let mut variants: Vec<Variant> = Vec::new();
    let mut i: usize = 0;
    assert(variants.deep_view() =~= Seq::empty());
    while i < data.len()
        invariant
            i <= data.len(),
            variant_models(data.deep_view(), i as int) == Ok::<_, DiagnosticView>(variants.deep_view()),
        decreases data.len() - i,
    {
        let ghost before = variants.deep_view();
        proof {
            if variant_model(data.deep_view()[i as int]) is Err {
                lemma_variant_models_fail(data.deep_view(), i + 1, data.len() as int);
            }
        }
        let variant = parse_variant(&data[i])?;
        variants.push(variant);
        assert(variants.deep_view() =~= before.push(variant.deep_view()));
        i += 1;
    }
    Ok(Meta { vis: input.vis, ident: input.ident, generics: input.generics, variants, kinded_attrs })
}

} // verus!
