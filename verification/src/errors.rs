//! The error of parsing a kind from text.

use vstd::prelude::*;

verus! {

/// An error which is returned when parsing of a kind type fails.
#[derive(Debug, PartialEq, Eq)]
pub struct ParseKindError {
    kind_type_name: String,
    given_string: String,
}

/// The mathematical value of a [`ParseKindError`].
pub struct ParseKindErrorView {
    pub kind_type_name: Seq<char>,
    pub given_string: Seq<char>,
}

impl ParseKindErrorView {
    /// The message of the error.
    pub open spec fn message(self) -> Seq<char> {
        "Failed to parse \""@ + self.given_string + "\" as "@ + self.kind_type_name
    }
}

impl DeepView for ParseKindError {
    type V = ParseKindErrorView;

    closed spec fn deep_view(&self) -> ParseKindErrorView {
        ParseKindErrorView { kind_type_name: self.kind_type_name@, given_string: self.given_string@ }
    }
}

/// Where the last segment of `path` begins, when `path` has been read up to
/// `from` and the last `::` seen ended at `start`. A `::` is looked for from
/// left to right, and the next one after its end.
pub open spec fn segment_start(path: Seq<char>, from: int, start: int) -> int
    decreases path.len() - from,
{
    if from < 0 || from + 1 >= path.len() {
        start
    } else if path[from] == ':' && path[from + 1] == ':' {
        segment_start(path, from + 2, from + 2)
    } else {
        segment_start(path, from + 1, start)
    }
}

/// What follows the last `::` of `path`; all of it where there is none.
pub open spec fn last_segment(path: Seq<char>) -> Seq<char> {
    path.skip(segment_start(path, 0, 0))
}

/// Where no `::` stands in `path` from `from` on, the last segment begins
/// where it began.
pub proof fn lemma_segment_start_without_separator(path: Seq<char>, from: int, start: int)
    requires
        0 <= from,
        forall|i: int| from <= i && i + 1 < path.len() ==> !(path[i] == ':' && #[trigger] path[i + 1] == ':'),
    ensures
        segment_start(path, from, start) == start,
    decreases path.len() - from,
{
    if from + 1 < path.len() {
        assert(!(path[from] == ':' && path[from + 1] == ':'));
        lemma_segment_start_without_separator(path, from + 1, start);
    }
}

/// A name in which no `::` stands is its own last segment.
pub proof fn law_last_segment_of_a_name(name: Seq<char>)
    requires
        forall|i: int| 0 <= i && i + 1 < name.len() ==> !(name[i] == ':' && #[trigger] name[i + 1] == ':'),
    ensures
        last_segment(name) == name,
{
    lemma_segment_start_without_separator(name, 0, 0);
    assert(name.skip(0) =~= name);
}

/// What follows the last `::` of `path`; all of it where there is none.
pub fn last_segment_of(path: &str) -> (segment: String)
    ensures
        segment@ == last_segment(path@),
{
    let n = path.unicode_len();
    let mut start: usize = 0;
    let mut i: usize = 0;
    while i < n && i + 1 < n
        invariant
            n == path@.len(),
            start <= i <= n,
            segment_start(path@, i as int, start as int) == segment_start(path@, 0, 0),
        decreases n - i,
    {
        if path.get_char(i) == ':' && path.get_char(i + 1) == ':' {
            i += 2;
            start = i;
        } else {
            i += 1;
        }
    }
    String::from_str(path.substring_char(start, n))
}

impl ParseKindError {
    /// The error of parsing `given_string` as the kind type whose full
    /// name, with the modules it lies in, is `full_kind_type_name`. The
    /// error names the type by the last segment of that name.
    pub fn from_type_and_string(full_kind_type_name: &str, given_string: String) -> (error:
        ParseKindError)
        ensures
            error.deep_view() == (ParseKindErrorView {
                kind_type_name: last_segment(full_kind_type_name@),
                given_string: given_string@,
            }),
    {
        ParseKindError { kind_type_name: last_segment_of(full_kind_type_name), given_string }
    }

    /// The name of the kind type that was asked for.
    pub fn kind_type_name(&self) -> (name: &str)
        ensures
            name@ == self.deep_view().kind_type_name,
    {
        self.kind_type_name.as_str()
    }

    /// The text that is no kind.
    pub fn given_string(&self) -> (given: &str)
        ensures
            given@ == self.deep_view().given_string,
    {
        self.given_string.as_str()
    }

    /// The message of the error: `Failed to parse "<text>" as <kind type>`.
    pub fn to_string(&self) -> (message: String)
        ensures
            message@ == self.deep_view().message(),
    {
        let mut message = String::from_str("Failed to parse \"");
        message.append(self.given_string.as_str());
        message.append("\" as ");
        message.append(self.kind_type_name.as_str());
        message
    }
}

} // verus!
