//! What the emitted items do, as functions on their descriptions.
//!
//! A kind is named by the position of its variant, and a value of the enum
//! by the position of its variant and what it carries. Each function here
//! runs one emitted item as the compiled code would run: a match takes the
//! first arm that fits.

use vstd::prelude::*;
use crate::errors::{last_segment, ParseKindError, ParseKindErrorView};
use crate::generate::kind_enum::{
    Definition, DefinitionView, DisplayArmView, DisplayImpl, DisplayImplView, FromStrImpl,
    FromStrImplView, ParseArm, ParseArmView,
};
use crate::generate::main_enum::{FnKind, FnKindView, MatchBranch};
use crate::generate::{Generated, GeneratedView};

verus! {

/// A value of the enum: the position of its variant, and what it carries.
#[derive(Debug, PartialEq, Eq)]
pub struct Value<P> {
    pub variant: usize,
    pub payload: P,
}

/// The position of the first arm at or after `from` that is for `kind`.
pub open spec fn display_arm_for(arms: Seq<DisplayArmView>, kind: usize, from: int) -> Option<int>
    decreases arms.len() - from,
{
    if from < 0 || from >= arms.len() {
        None
    } else if arms[from].variant == kind {
        Some(from)
    } else {
        display_arm_for(arms, kind, from + 1)
    }
}

/// The position of the first arm at or after `from` that has `text` among
/// its patterns.
pub open spec fn parse_arm_for(arms: Seq<ParseArmView>, text: Seq<char>, from: int) -> Option<int>
    decreases arms.len() - from,
{
    if from < 0 || from >= arms.len() {
        None
    } else if arms[from].patterns.contains(text) {
        Some(from)
    } else {
        parse_arm_for(arms, text, from + 1)
    }
}

/// The position of the first arm at or after `from` that takes the variant
/// at position `variant`.
pub open spec fn branch_for(branches: Seq<MatchBranch>, variant: usize, from: int) -> Option<int>
    decreases branches.len() - from,
{
    if from < 0 || from >= branches.len() {
        None
    } else if branches[from].variant == variant {
        Some(from)
    } else {
        branch_for(branches, variant, from + 1)
    }
}

impl DefinitionView {
    /// What `all()` lists: every kind, in the order of the variants.
    pub open spec fn all(self) -> Seq<usize> {
        Seq::new(self.variants.len(), |i: int| i as usize)
    }

    /// The name of the variant of `kind`, which is also what `Debug` prints
    /// where it is derived.
    pub open spec fn variant_name(self, kind: usize) -> Option<Seq<char>> {
        if kind < self.variants.len() {
            Some(self.variants[kind as int].ident.name)
        } else {
            None
        }
    }
}

impl DisplayImplView {
    /// What is written for `kind`: the text of the first arm for it.
    pub open spec fn fmt(self, kind: usize) -> Option<Seq<char>> {
        match display_arm_for(self.arms, kind, 0) {
            Some(i) => Some(self.arms[i].text),
            None => None,
        }
    }
}

impl FromStrImplView {
    /// The kind that `text` is parsed as: that of the first arm that has
    /// it, looked for among the renames, then among the names as written,
    /// then among the names in all conventions. Where no arm has it, the
    /// error names the kind type and the text.
    pub open spec fn from_str(self, text: Seq<char>) -> Result<usize, ParseKindErrorView> {
        match parse_arm_for(self.renamed, text, 0) {
            Some(i) => Ok(self.renamed[i].variant),
            None => match parse_arm_for(self.exact, text, 0) {
                Some(i) => Ok(self.exact[i].variant),
                None => match parse_arm_for(self.alternatives, text, 0) {
                    Some(i) => Ok(self.alternatives[i].variant),
                    None => Err(
                        ParseKindErrorView {
                            kind_type_name: last_segment(self.kind_name.name),
                            given_string: text,
                        },
                    ),
                },
            },
        }
    }
}

impl FnKindView {
    /// The kind of a value whose variant stands at position `variant`: what
    /// the first arm for that variant gives.
    pub open spec fn kind(self, variant: usize) -> Option<usize> {
        match branch_for(self.branches, variant, 0) {
            Some(i) => Some(self.branches[i].kind),
            None => None,
        }
    }
}

impl GeneratedView {
    /// What `all()` of the kind type lists.
    pub open spec fn all(self) -> Seq<usize> {
        self.kind_enum.definition.all()
    }

    /// The kind of a value whose variant stands at position `variant`.
    pub open spec fn kind(self, variant: usize) -> Option<usize> {
        self.main_enum_extra.fn_kind.kind(variant)
    }

    /// What `From` makes of a value whose variant stands at position
    /// `variant`: its kind, where `From` is implemented.
    pub open spec fn from(self, variant: usize) -> Option<usize> {
        if self.kind_enum.impl_from_traits is Some {
            self.kind(variant)
        } else {
            None
        }
    }

    /// What `Display` writes for `kind`, where it is implemented.
    pub open spec fn display(self, kind: usize) -> Option<Seq<char>> {
        match self.kind_enum.impl_display_trait {
            Some(display_impl) => display_impl.fmt(kind),
            None => None,
        }
    }

    /// What `FromStr` makes of `text`, where it is implemented.
    pub open spec fn from_str(self, text: Seq<char>) -> Option<Result<usize, ParseKindErrorView>> {
        match self.kind_enum.impl_from_str_trait {
            Some(from_str_impl) => Some(from_str_impl.from_str(text)),
            None => None,
        }
    }
}

impl Definition {
    /// Runs `all()`: every kind, in the order of the variants.
    pub fn all(&self) -> (kinds: Vec<usize>)
        ensures
            kinds@ == self.deep_view().all(),
    {
        let mut kinds: Vec<usize> = Vec::new();
        let mut i: usize = 0;
        while i < self.variants.len()
            invariant
                i <= self.variants.len(),
                kinds.len() == i,
                forall|j: int| 0 <= j < i ==> kinds@[j] == j,
            decreases self.variants.len() - i,
        {
            kinds.push(i);
            i += 1;
        }
        assert(kinds@ =~= self.deep_view().all());
        kinds
    }

    /// The name of the variant of `kind`, if there is such a kind.
    pub fn variant_name(&self, kind: usize) -> (name: Option<String>)
        ensures
            name.deep_view() == self.deep_view().variant_name(kind),
    {
        if kind < self.variants.len() {
            Some(self.variants[kind].ident.name.clone())
        } else {
            None
        }
    }

    /// The kind whose variant is called `name`: the first, if there is one.
    pub fn position(&self, name: &str) -> (kind: Option<usize>)
        ensures
            match kind {
                Some(k) => k < self.variants.len() && self.deep_view().variants[k as int].ident.name
                    == name@ && forall|j: int|
                    0 <= j < k ==> (#[trigger] self.deep_view().variants[j]).ident.name != name@,
                None => forall|j: int|
                    0 <= j < self.variants.len() ==> (#[trigger] self.deep_view().variants[j]).ident.name
                        != name@,
            },
    {
        let mut i: usize = 0;
        while i < self.variants.len()
            invariant
                i <= self.variants.len(),
                forall|j: int|
                    0 <= j < i ==> (#[trigger] self.deep_view().variants[j]).ident.name != name@,
            decreases self.variants.len() - i,
        {
            if self.variants[i].ident.name.as_str().eq(name) {
                return Some(i);
            }
            i += 1;
        }
        None
    }
}

impl DisplayImpl {
    /// Runs `Display` on `kind`: the text that is written, or nothing
    /// where no arm is for `kind`.
    pub fn fmt(&self, kind: usize) -> (text: Option<String>)
        ensures
            text.deep_view() == self.deep_view().fmt(kind),
    {
        let mut i: usize = 0;
        while i < self.arms.len()
            invariant
                i <= self.arms.len(),
                display_arm_for(self.deep_view().arms, kind, i as int) == display_arm_for(
                    self.deep_view().arms,
                    kind,
                    0,
                ),
            decreases self.arms.len() - i,
        {
            if self.arms[i].variant == kind {
                return Some(self.arms[i].text.clone());
            }
            i += 1;
        }
        None
    }
}

/// Whether `arm` has `text` among its patterns.
fn has_pattern(arm: &ParseArm, text: &str) -> (found: bool)
    ensures
        found == arm.deep_view().patterns.contains(text@),
{
    let mut i: usize = 0;
    while i < arm.patterns.len()
        invariant
            i <= arm.patterns.len(),
            forall|j: int| 0 <= j < i ==> arm.deep_view().patterns[j] != text@,
        decreases arm.patterns.len() - i,
    {
        if arm.patterns[i].as_str().eq(text) {
            assert(arm.deep_view().patterns[i as int] == text@);
            return true;
        }
        i += 1;
    }
    false
}

/// The variant of the first of `arms` that has `text` among its patterns.
fn first_arm_for(arms: &Vec<ParseArm>, text: &str) -> (kind: Option<usize>)
    ensures
        match kind {
            Some(k) => parse_arm_for(arms.deep_view(), text@, 0) matches Some(i)
                && arms.deep_view()[i].variant == k,
            None => parse_arm_for(arms.deep_view(), text@, 0) is None,
        },
{
    let mut i: usize = 0;
    while i < arms.len()
        invariant
            i <= arms.len(),
            parse_arm_for(arms.deep_view(), text@, i as int) == parse_arm_for(arms.deep_view(), text@, 0),
        decreases arms.len() - i,
    {
        if has_pattern(&arms[i], text) {
            return Some(arms[i].variant);
        }
        i += 1;
    }
    None
}

impl FromStrImpl {
    /// Runs `FromStr` on `text`: the kind it is parsed as, or the error.
    pub fn from_str(&self, text: &str) -> (result: Result<usize, ParseKindError>)
        ensures
            match result {
                Ok(kind) => self.deep_view().from_str(text@) == Ok::<_, ParseKindErrorView>(kind),
                Err(error) => self.deep_view().from_str(text@) == Err::<usize, _>(error.deep_view()),
            },
    {
        // First try to match the renames.
        if let Some(kind) = first_arm_for(&self.renamed, text) {
            return Ok(kind);
        }
        // Then the variants as they are.
        if let Some(kind) = first_arm_for(&self.exact, text) {
            return Ok(kind);
        }
        // Now try to match all possible alternative spellings of the
        // variants.
        if let Some(kind) = first_arm_for(&self.alternatives, text) {
            return Ok(kind);
        }
        // If still no success, then return an error.
        Err(ParseKindError::from_type_and_string(self.kind_name.name.as_str(), String::from_str(text)))
    }
}

impl FnKind {
    /// Runs `kind()` on `value`: its kind, or nothing where no arm takes
    /// its variant. What the value carries is not looked at.
    pub fn kind<P>(&self, value: &Value<P>) -> (kind: Option<usize>)
        ensures
            kind == self.deep_view().kind(value.variant),
    {
        let mut i: usize = 0;
        while i < self.branches.len()
            invariant
                i <= self.branches.len(),
                branch_for(self.deep_view().branches, value.variant, i as int) == branch_for(
                    self.deep_view().branches,
                    value.variant,
                    0,
                ),
            decreases self.branches.len() - i,
        {
            if self.branches[i].variant == value.variant {
                return Some(self.branches[i].kind);
            }
            i += 1;
        }
        None
    }
}

impl Generated {
    /// Runs `all()` of the kind type.
    pub fn all(&self) -> (kinds: Vec<usize>)
        ensures
            kinds@ == self.deep_view().all(),
    {
        self.kind_enum.definition.all()
    }

    /// Runs `kind()` on `value`.
    pub fn kind<P>(&self, value: &Value<P>) -> (kind: Option<usize>)
        ensures
            kind == self.deep_view().kind(value.variant),
    {
        self.main_enum_extra.fn_kind.kind(value)
    }

    /// Runs `From` on `value`: its kind, or nothing where `From` is not
    /// implemented.
    pub fn from<P>(&self, value: Value<P>) -> (kind: Option<usize>)
        ensures
            kind == self.deep_view().from(value.variant),
    {
        self.from_ref(&value)
    }

    /// Runs `From` on a reference to `value`: its kind, or nothing where
    /// `From` is not implemented.
    pub fn from_ref<P>(&self, value: &Value<P>) -> (kind: Option<usize>)
        ensures
            kind == self.deep_view().from(value.variant),
    {
        if self.kind_enum.impl_from_traits.is_some() {
            self.kind(value)
        } else {
            None
        }
    }

    /// Runs `Display` on `kind`: the text that is written, or nothing
    /// where `Display` is not implemented or `kind` is no kind of the type.
    pub fn display(&self, kind: usize) -> (text: Option<String>)
        ensures
            text.deep_view() == self.deep_view().display(kind),
    {
        match &self.kind_enum.impl_display_trait {
            Some(display_impl) => display_impl.fmt(kind),
            None => None,
        }
    }

    /// Runs `FromStr` on `text`: the kind or the error, or nothing where
    /// `FromStr` is not implemented.
    pub fn from_str(&self, text: &str) -> (result: Option<Result<usize, ParseKindError>>)
        ensures
            match result {
                Some(Ok(kind)) => self.deep_view().from_str(text@) == Some(
                    Ok::<_, ParseKindErrorView>(kind),
                ),
                Some(Err(error)) => self.deep_view().from_str(text@) == Some(
                    Err::<usize, _>(error.deep_view()),
                ),
                None => self.deep_view().from_str(text@) is None,
            },
    {
        match &self.kind_enum.impl_from_str_trait {
            Some(from_str_impl) => Some(from_str_impl.from_str(text)),
            None => None,
        }
    }
}

} // verus!
