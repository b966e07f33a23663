//! The token trees that the host parser hands over, as plain values.
//!
//! A derive is given the declaration as a tree of tokens. The library reads
//! and relays such trees but never produces source text itself, so a tree is
//! modelled as data: identifiers, punctuation, literals and delimited groups,
//! each with the place it came from.

use vstd::prelude::*;

verus! {

/// A source location. The library only carries locations around: it puts
/// the location of the offending token on a diagnostic, and `CallSite` on
/// what it makes up itself. `At` holds an index into a table that the
/// caller keeps.
#[derive(Clone, Copy, Debug, PartialEq, Eq, Structural)]
pub enum Span {
    CallSite,
    At(usize),
}

/// The brackets around a group.
#[derive(Clone, Copy, Debug, PartialEq, Eq, Structural)]
pub enum Delimiter {
    /// `( .. )`
    Parenthesis,
    /// `{ .. }`
    Brace,
    /// `[ .. ]`
    Bracket,
    /// A group without written brackets.
    Invisible,
}

/// Whether a punctuation character is directly followed by another one.
#[derive(Clone, Copy, Debug, PartialEq, Eq, Structural)]
pub enum Spacing {
    Alone,
    Joint,
}

/// One token tree.
#[derive(Debug, PartialEq, Eq)]
pub enum Token {
    /// An identifier or keyword.
    Ident(String, Span),
    /// A single punctuation character.
    Punct(char, Spacing, Span),
    /// A string literal, by the text it denotes.
    Str(String, Span),
    /// Any other literal, as written.
    Literal(String, Span),
    /// A bracketed run of tokens.
    Group(Delimiter, Vec<Token>, Span),
}

/// The mathematical value of a [`Token`].
pub enum TokenView {
    Ident(Seq<char>, Span),
    Punct(char, Spacing, Span),
    Str(Seq<char>, Span),
    Literal(Seq<char>, Span),
    Group(Delimiter, Seq<TokenView>, Span),
}

impl TokenView {
    /// The location of the token; for a group, of the whole group.
    pub open spec fn span(self) -> Span {
        match self {
            TokenView::Ident(_, span) => span,
            TokenView::Punct(_, _, span) => span,
            TokenView::Str(_, span) => span,
            TokenView::Literal(_, span) => span,
            TokenView::Group(_, _, span) => span,
        }
    }

    /// Whether the token is the punctuation character `c`.
    pub open spec fn is_punct(self, c: char) -> bool {
        self matches TokenView::Punct(p, _, _) && p == c
    }
}

/// The value of `token`: its text and place, and for a group the values of
/// the tokens inside it.
pub open spec fn token_view(token: Token) -> TokenView
    decreases token,
{
    match token {
        Token::Ident(name, span) => TokenView::Ident(name@, span),
        Token::Punct(c, spacing, span) => TokenView::Punct(c, spacing, span),
        Token::Str(value, span) => TokenView::Str(value@, span),
        Token::Literal(text, span) => TokenView::Literal(text@, span),
        Token::Group(delimiter, inner, span) => TokenView::Group(
            delimiter,
            Seq::new(
                inner@.len(),
                |i: int|
                    if 0 <= i < inner@.len() {
                        token_view(inner@[i])
                    } else {
                        arbitrary()
                    },
            ),
            span,
        ),
    }
}

impl DeepView for Token {
    type V = TokenView;

    open spec fn deep_view(&self) -> TokenView {
        token_view(*self)
    }
}

/// The value of a group is the group of its tokens' values.
pub proof fn lemma_group_view(delimiter: Delimiter, inner: Vec<Token>, span: Span)
    ensures
        Token::Group(delimiter, inner, span).deep_view() == TokenView::Group(
            delimiter,
            inner.deep_view(),
            span,
        ),
{
    let t = Token::Group(delimiter, inner, span);
    assert(t.deep_view()->Group_1 =~= inner.deep_view());
}

impl Token {
    /// The identifier `name`, placed at the call site.
    pub fn ident(name: &str) -> (t: Token)
        ensures
            t.deep_view() == TokenView::Ident(name@, Span::CallSite),
    {
        Token::Ident(String::from_str(name), Span::CallSite)
    }

    /// The punctuation character `c`, standing alone.
    pub fn punct(c: char) -> (t: Token)
        ensures
            t.deep_view() == TokenView::Punct(c, Spacing::Alone, Span::CallSite),
    {
        Token::Punct(c, Spacing::Alone, Span::CallSite)
    }

    /// The punctuation character `c`, directly followed by another.
    pub fn joint(c: char) -> (t: Token)
        ensures
            t.deep_view() == TokenView::Punct(c, Spacing::Joint, Span::CallSite),
    {
        Token::Punct(c, Spacing::Joint, Span::CallSite)
    }

    /// The string literal that denotes `value`.
    pub fn string(value: &str) -> (t: Token)
        ensures
            t.deep_view() == TokenView::Str(value@, Span::CallSite),
    {
        Token::Str(String::from_str(value), Span::CallSite)
    }

    /// A literal other than a string, written `text`.
    pub fn literal(text: &str) -> (t: Token)
        ensures
            t.deep_view() == TokenView::Literal(text@, Span::CallSite),
    {
        Token::Literal(String::from_str(text), Span::CallSite)
    }

    /// The group of `inner` between the brackets of `delimiter`.
    pub fn group(delimiter: Delimiter, inner: Vec<Token>) -> (t: Token)
        ensures
            t.deep_view() == TokenView::Group(delimiter, inner.deep_view(), Span::CallSite),
    {
        proof {
            lemma_group_view(delimiter, inner, Span::CallSite);
        }
        Token::Group(delimiter, inner, Span::CallSite)
    }

    /// The same token at another place. The tokens inside a group keep
    /// theirs.
    pub fn at(self, span: Span) -> (t: Token)
        ensures
            t.deep_view() == match self.deep_view() {
                TokenView::Ident(name, _) => TokenView::Ident(name, span),
                TokenView::Punct(c, spacing, _) => TokenView::Punct(c, spacing, span),
                TokenView::Str(value, _) => TokenView::Str(value, span),
                TokenView::Literal(text, _) => TokenView::Literal(text, span),
                TokenView::Group(delimiter, inner, _) => TokenView::Group(delimiter, inner, span),
            },
    {
        match self {
            Token::Ident(name, _) => Token::Ident(name, span),
            Token::Punct(c, spacing, _) => Token::Punct(c, spacing, span),
            Token::Str(value, _) => Token::Str(value, span),
            Token::Literal(text, _) => Token::Literal(text, span),
            Token::Group(delimiter, inner, _) => {
                proof {
                    lemma_group_view(delimiter, inner, span);
                    lemma_group_view(delimiter, inner, self.deep_view().span());
                }
                Token::Group(delimiter, inner, span)
            },
        }
    }

    /// Where the token stood.
    pub fn span(&self) -> (span: Span)
        ensures
            span == self.deep_view().span(),
    {
        match self {
            Token::Ident(_, span) => *span,
            Token::Punct(_, _, span) => *span,
            Token::Str(_, span) => *span,
            Token::Literal(_, span) => *span,
            Token::Group(_, _, span) => *span,
        }
    }

    /// A copy of the token, with everything inside it.
    pub fn duplicate(&self) -> (t: Token)
        ensures
            t.deep_view() == self.deep_view(),
        decreases self,
    {
        match self {
            Token::Ident(name, span) => Token::Ident(name.clone(), *span),
            Token::Punct(c, spacing, span) => Token::Punct(*c, *spacing, *span),
            Token::Str(value, span) => Token::Str(value.clone(), *span),
            Token::Literal(text, span) => Token::Literal(text.clone(), *span),
            Token::Group(delimiter, inner, span) => {
                let mut copy: Vec<Token> = Vec::new();
                let mut i: usize = 0;
                while i < inner.len()
                    invariant
                        i <= inner.len(),
                        copy.len() == i,
                        self matches Token::Group(_, v, _) && v == inner,
                        forall|j: int| 0 <= j < i ==> copy@[j].deep_view() == inner@[j].deep_view(),
                    decreases inner.len() - i,
                {
                    copy.push(inner[i].duplicate());
                    i += 1;
                }
                proof {
                    assert(copy.deep_view() =~= inner.deep_view());
                    lemma_group_view(*delimiter, copy, *span);
                    lemma_group_view(*delimiter, *inner, *span);
                }
                Token::Group(*delimiter, copy, *span)
            },
        }
    }
}

/// A copy of `tokens[from..to]`.
pub fn duplicate_range(tokens: &Vec<Token>, from: usize, to: usize) -> (copy: Vec<Token>)
    requires
        from <= to <= tokens.len(),
    ensures
        copy.deep_view() == tokens.deep_view().subrange(from as int, to as int),
{
    let mut copy: Vec<Token> = Vec::new();
    let mut i: usize = from;
    while i < to
        invariant
            from <= i <= to <= tokens.len(),
            copy.len() == i - from,
            forall|j: int| 0 <= j < i - from ==> copy@[j].deep_view() == tokens@[from + j].deep_view(),
        decreases to - i,
    {
        copy.push(tokens[i].duplicate());
        i += 1;
    }
    assert(copy.deep_view() =~= tokens.deep_view().subrange(from as int, to as int));
    copy
}

/// A copy of all of `tokens`.
pub fn duplicate_all(tokens: &Vec<Token>) -> (copy: Vec<Token>)
    ensures
        copy.deep_view() == tokens.deep_view(),
{
    let copy = duplicate_range(tokens, 0, tokens.len());
    assert(tokens.deep_view().subrange(0, tokens.len() as int) =~= tokens.deep_view());
    copy
}

/// A copy of each run of `runs`.
pub fn duplicate_runs(runs: &Vec<Vec<Token>>) -> (copy: Vec<Vec<Token>>)
    ensures
        copy.deep_view() == runs.deep_view(),
{
    let mut copy: Vec<Vec<Token>> = Vec::new();
    let mut i: usize = 0;
    while i < runs.len()
        invariant
            i <= runs.len(),
            copy.len() == i,
            forall|j: int| 0 <= j < i ==> copy@[j].deep_view() == runs@[j].deep_view(),
        decreases runs.len() - i,
    {
        copy.push(duplicate_all(&runs[i]));
        i += 1;
    }
    assert(copy.deep_view() =~= runs.deep_view());
    copy
}

} // verus!
