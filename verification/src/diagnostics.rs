//! What is reported when a declaration cannot be derived from.

use vstd::prelude::*;
use crate::models::{DisplayCase, Skippable};
use crate::tokens::Span;

verus! {

/// What was looked for where the input went wrong.
#[derive(Clone, Copy, Debug, PartialEq, Eq, Structural)]
pub enum Expected {
    Identifier,
    Equals,
    Comma,
    Parentheses,
    StringLiteral,
    Attribute,
}

impl Expected {
    /// The words for it in a message.
    pub open spec fn words_of(self) -> Seq<char> {
        match self {
            Expected::Identifier => "identifier"@,
            Expected::Equals => "`=`"@,
            Expected::Comma => "`,`"@,
            Expected::Parentheses => "parentheses"@,
            Expected::StringLiteral => "string literal"@,
            Expected::Attribute => "attribute"@,
        }
    }

    /// The words for it in a message.
    pub fn words(self) -> (words: &'static str)
        ensures
            words@ == self.words_of(),
    {
        match self {
            Expected::Identifier => "identifier",
            Expected::Equals => "`=`",
            Expected::Comma => "`,`",
            Expected::Parentheses => "parentheses",
            Expected::StringLiteral => "string literal",
            Expected::Attribute => "attribute",
        }
    }
}

/// What is wrong with a declaration.
#[derive(Debug, PartialEq, Eq)]
pub enum DiagnosticKind {
    /// The derive stands on a struct or a union.
    NotAnEnum,
    /// The derive stands on an enum without variants.
    NoVariants,
    /// More than one `#[kinded(..)]` attribute on one item.
    MultipleKindedAttributes,
    /// An option is given a second time.
    DuplicatedAttribute(String),
    /// An option that does not exist.
    UnknownAttribute(String),
    /// `display = ".."` with a value that names no convention.
    InvalidDisplay(String),
    /// `skip_derive(..)` with a name that cannot be skipped.
    InvalidSkipDerive(String),
    /// Another token stands where this was looked for.
    Expected(Expected),
    /// The input ends where this was looked for.
    UnexpectedEnd(Expected),
    /// A token stands where the input should end.
    UnexpectedToken,
}

/// The mathematical value of a [`DiagnosticKind`].
pub enum DiagnosticKindView {
    NotAnEnum,
    NoVariants,
    MultipleKindedAttributes,
    DuplicatedAttribute(Seq<char>),
    UnknownAttribute(Seq<char>),
    InvalidDisplay(Seq<char>),
    InvalidSkipDerive(Seq<char>),
    Expected(Expected),
    UnexpectedEnd(Expected),
    UnexpectedToken,
}

/// The first `n` of `items` with `", "` between them.
pub open spec fn listed(items: Seq<Seq<char>>, n: int) -> Seq<char>
    decreases n,
{
    if n <= 0 {
        Seq::empty()
    } else if n == 1 {
        items[0]
    } else {
        listed(items, n - 1) + ", "@ + items[n - 1]
    }
}

/// `text` between double quotes.
pub open spec fn quoted(text: Seq<char>) -> Seq<char> {
    "\""@ + text + "\""@
}

/// The values that `display = ".."` accepts, each quoted, as a list.
pub open spec fn display_values() -> Seq<char> {
    listed(
        Seq::new(DisplayCase::every().len(), |i: int| quoted(DisplayCase::every()[i].literal_of())),
        DisplayCase::every().len() as int,
    )
}

/// The names that `skip_derive(..)` accepts, as a list.
pub open spec fn skippable_names() -> Seq<char> {
    listed(
        Seq::new(Skippable::every().len(), |i: int| Skippable::every()[i].name_of()),
        Skippable::every().len() as int,
    )
}

impl DiagnosticKindView {
    /// The text of the message.
    pub open spec fn message(self) -> Seq<char> {
        match self {
            DiagnosticKindView::NotAnEnum => "Kinded can be derived only on enums"@,
            DiagnosticKindView::NoVariants => "Kinded cannot be derived on enums without variants"@,
            DiagnosticKindView::MultipleKindedAttributes =>
                "Multiple #[kinded(..)] attributes are not allowed."@,
            DiagnosticKindView::DuplicatedAttribute(name) => "Duplicated attribute: "@ + name,
            DiagnosticKindView::UnknownAttribute(name) => "Unknown attribute: "@ + name,
            DiagnosticKindView::InvalidDisplay(value) => "Invalid value for display: "@ + quoted(value)
                + "\nValid values are: "@ + display_values(),
            DiagnosticKindView::InvalidSkipDerive(name) => "Invalid value for skip_derive: "@ + name
                + "\nValid values are: "@ + skippable_names(),
            DiagnosticKindView::Expected(what) => "expected "@ + what.words_of(),
            DiagnosticKindView::UnexpectedEnd(what) => "unexpected end of input, expected "@
                + what.words_of(),
            DiagnosticKindView::UnexpectedToken => "unexpected token"@,
        }
    }
}

impl DeepView for DiagnosticKind {
    type V = DiagnosticKindView;

    open spec fn deep_view(&self) -> DiagnosticKindView {
        match self {
            DiagnosticKind::NotAnEnum => DiagnosticKindView::NotAnEnum,
            DiagnosticKind::NoVariants => DiagnosticKindView::NoVariants,
            DiagnosticKind::MultipleKindedAttributes => DiagnosticKindView::MultipleKindedAttributes,
            DiagnosticKind::DuplicatedAttribute(name) => DiagnosticKindView::DuplicatedAttribute(name@),
            DiagnosticKind::UnknownAttribute(name) => DiagnosticKindView::UnknownAttribute(name@),
            DiagnosticKind::InvalidDisplay(value) => DiagnosticKindView::InvalidDisplay(value@),
            DiagnosticKind::InvalidSkipDerive(name) => DiagnosticKindView::InvalidSkipDerive(name@),
            DiagnosticKind::Expected(what) => DiagnosticKindView::Expected(*what),
            DiagnosticKind::UnexpectedEnd(what) => DiagnosticKindView::UnexpectedEnd(*what),
            DiagnosticKind::UnexpectedToken => DiagnosticKindView::UnexpectedToken,
        }
    }
}

/// A problem and the place it is reported at.
#[derive(Debug, PartialEq, Eq)]
pub struct Diagnostic {
    pub kind: DiagnosticKind,
    pub span: Span,
}

/// The mathematical value of a [`Diagnostic`].
pub struct DiagnosticView {
    pub kind: DiagnosticKindView,
    pub span: Span,
}

impl DeepView for Diagnostic {
    type V = DiagnosticView;

    open spec fn deep_view(&self) -> DiagnosticView {
        DiagnosticView { kind: self.kind.deep_view(), span: self.span }
    }
}

/// The values that `display = ".."` accepts, each quoted, as a list.
fn list_display_values() -> (list: String)
    ensures
        list@ == display_values(),
{
    let cases = DisplayCase::all();
    let ghost items = Seq::new(
        DisplayCase::every().len(),
        |i: int| quoted(DisplayCase::every()[i].literal_of()),
    );
    let mut list = String::new();
    let mut i: usize = 0;
    while i < cases.len()
        invariant
            i <= cases.len(),
            cases@ == DisplayCase::every(),
            items == Seq::new(
                DisplayCase::every().len(),
                |i: int| quoted(DisplayCase::every()[i].literal_of()),
            ),
            list@ == listed(items, i as int),
        decreases cases.len() - i,
    {
        if i > 0 {
            list.append(", ");
        }
        list.append("\"");
        list.append(cases[i].literal());
        list.append("\"");
        assert(list@ =~= listed(items, i + 1)) by {
            assert(items[i as int] == quoted(cases@[i as int].literal_of()));
        }
        i += 1;
    }
    list
}

/// The names that `skip_derive(..)` accepts, as a list.
fn list_skippable_names() -> (list: String)
    ensures
        list@ == skippable_names(),
{
    let all = Skippable::all();
    let ghost items = Seq::new(Skippable::every().len(), |i: int| Skippable::every()[i].name_of());
    let mut list = String::new();
    let mut i: usize = 0;
    while i < all.len()
        invariant
            i <= all.len(),
            all@ == Skippable::every(),
            items == Seq::new(Skippable::every().len(), |i: int| Skippable::every()[i].name_of()),
            list@ == listed(items, i as int),
        decreases all.len() - i,
    {
        if i > 0 {
            list.append(", ");
        }
        list.append(all[i].name());
        assert(list@ =~= listed(items, i + 1)) by {
            assert(items[i as int] == all@[i as int].name_of());
        }
        i += 1;
    }
    list
}

impl Diagnostic {
    /// The text of the message.
    pub fn message(&self) -> (text: String)
        ensures
            text@ == self.deep_view().kind.message(),
    {
        match &self.kind {
            DiagnosticKind::NotAnEnum => String::from_str("Kinded can be derived only on enums"),
            DiagnosticKind::NoVariants => String::from_str(
                "Kinded cannot be derived on enums without variants",
            ),
            DiagnosticKind::MultipleKindedAttributes => String::from_str(
                "Multiple #[kinded(..)] attributes are not allowed.",
            ),
            DiagnosticKind::DuplicatedAttribute(name) => {
                let mut text = String::from_str("Duplicated attribute: ");
                text.append(name.as_str());
                text
            },
            DiagnosticKind::UnknownAttribute(name) => {
                let mut text = String::from_str("Unknown attribute: ");
                text.append(name.as_str());
                text
            },
            DiagnosticKind::InvalidDisplay(value) => {
                let mut text = String::from_str("Invalid value for display: ");
                text.append("\"");
                text.append(value.as_str());
                text.append("\"");
                text.append("\nValid values are: ");
                text.append(list_display_values().as_str());
                assert(text@ =~= self.deep_view().kind.message());
                text
            },
            DiagnosticKind::InvalidSkipDerive(name) => {
                let mut text = String::from_str("Invalid value for skip_derive: ");
                text.append(name.as_str());
                text.append("\nValid values are: ");
                text.append(list_skippable_names().as_str());
                text
            },
            DiagnosticKind::Expected(what) => {
                let mut text = String::from_str("expected ");
                text.append(what.words());
                text
            },
            DiagnosticKind::UnexpectedEnd(what) => {
                let mut text = String::from_str("unexpected end of input, expected ");
                text.append(what.words());
                text
            },
            DiagnosticKind::UnexpectedToken => String::from_str("unexpected token"),
        }
    }
}

} // verus!
