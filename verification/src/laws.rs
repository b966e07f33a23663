//! What holds of every declaration, proved from the contracts.
//!
//! The laws speak of a model `meta` and of what is emitted for it,
//! `generated_of(meta)`, run by the functions of [`crate::semantics`]. A
//! kind is the position of its variant.

use vstd::prelude::*;
use crate::errors::{last_segment, ParseKindErrorView};
use crate::generate::generated_of;
use crate::generate::kind_enum::{alternatives_of, renamed_arms, ParseArmView};
use crate::models::{
    cased, holds_path, kept_defaults, skipped, with_extra, DisplayCase, MetaView, OptOuts, PathView,
    Skippable, VariantView,
};
use crate::semantics::{branch_for, display_arm_for, parse_arm_for, Value};

verus! {

/// Whether the model is one of a declaration that can exist: it has no
/// more variants than can be counted.
pub open spec fn countable(meta: MetaView) -> bool {
    meta.variants.len() <= usize::MAX
}

/// The three ways in which a variant lays claim to a text, in the order in
/// which `FromStr` looks for them.
pub enum Stage {
    /// The text is the rename of the variant.
    Renamed,
    /// The text is the name of the variant as written.
    Exact,
    /// The text is the name of the variant in one of the conventions.
    Alternative,
}

impl Stage {
    /// The place of the stage in the order.
    pub open spec fn rank(self) -> int {
        match self {
            Stage::Renamed => 0,
            Stage::Exact => 1,
            Stage::Alternative => 2,
        }
    }
}

/// Whether variant `i` lays claim to `text` at `stage`.
pub open spec fn claims(meta: MetaView, stage: Stage, i: int, text: Seq<char>) -> bool {
    match stage {
        Stage::Renamed => meta.variants[i].rename == Some(text),
        Stage::Exact => meta.variants[i].ident.name == text,
        Stage::Alternative => exists|c: int|
            0 <= c < DisplayCase::every().len() && #[trigger] cased(
                meta.variants[i].ident.name,
                DisplayCase::every()[c],
            ) == text,
    }
}

/// The first variant at or after position `from` that lays claim to `text`
/// at `stage`.
pub open spec fn first_claim(meta: MetaView, stage: Stage, text: Seq<char>, from: int) -> Option<int>
    decreases meta.variants.len() - from,
{
    if from < 0 || from >= meta.variants.len() {
        None
    } else if claims(meta, stage, from, text) {
        Some(from)
    } else {
        first_claim(meta, stage, text, from + 1)
    }
}

/// The variant that `text` stands for: the first that is renamed to it;
/// where there is none, the first that is called so; where there is none,
/// the first whose name is `text` in some convention.
pub open spec fn parse_of(meta: MetaView, text: Seq<char>) -> Option<int> {
    if first_claim(meta, Stage::Renamed, text, 0) is Some {
        first_claim(meta, Stage::Renamed, text, 0)
    } else if first_claim(meta, Stage::Exact, text, 0) is Some {
        first_claim(meta, Stage::Exact, text, 0)
    } else {
        first_claim(meta, Stage::Alternative, text, 0)
    }
}

/// Whether the claim of variant `i` at `stage` is looked at before that of
/// variant `j` at `other`: at an earlier stage, or at the same stage and an
/// earlier position.
pub open spec fn comes_before(stage: Stage, i: int, other: Stage, j: int) -> bool {
    stage.rank() < other.rank() || (stage.rank() == other.rank() && i < j)
}

/// Whether variant `i` lays a claim to `text` that is looked at before
/// every claim of another variant.
pub open spec fn unrivalled(meta: MetaView, i: int, text: Seq<char>) -> bool {
    exists|stage: Stage|
        #![trigger claims(meta, stage, i, text)]
        claims(meta, stage, i, text) && forall|other: Stage, j: int|
            0 <= j < meta.variants.len() && j != i && #[trigger] claims(meta, other, j, text)
                ==> comes_before(stage, i, other, j)
}

/// The first claim is a claim, and no variant between `from` and it lays
/// one; where there is no first claim, no variant from `from` on lays one.
pub proof fn lemma_first_claim(meta: MetaView, stage: Stage, text: Seq<char>, from: int)
    requires
        0 <= from,
    ensures
        match first_claim(meta, stage, text, from) {
            Some(i) => from <= i < meta.variants.len() && claims(meta, stage, i, text) && forall|j: int|
                from <= j < i ==> !claims(meta, stage, j, text),
            None => forall|j: int| from <= j < meta.variants.len() ==> !claims(meta, stage, j, text),
        },
    decreases meta.variants.len() - from,
{
    if from < meta.variants.len() && !claims(meta, stage, from, text) {
        lemma_first_claim(meta, stage, text, from + 1);
    }
}

/// The first arm that has `text` has it, and no arm between `from` and it
/// does; where there is none, no arm from `from` on has it.
pub proof fn lemma_parse_arm_for(arms: Seq<ParseArmView>, text: Seq<char>, from: int)
    requires
        0 <= from,
    ensures
        match parse_arm_for(arms, text, from) {
            Some(i) => from <= i < arms.len() && arms[i].patterns.contains(text) && forall|j: int|
                from <= j < i ==> !(#[trigger] arms[j]).patterns.contains(text),
            None => forall|j: int| from <= j < arms.len() ==> !(#[trigger] arms[j]).patterns.contains(text),
        },
    decreases arms.len() - from,
{
    if from < arms.len() && !arms[from].patterns.contains(text) {
        lemma_parse_arm_for(arms, text, from + 1);
    }
}

/// Where each arm is for the variant at its own position and has `text`
/// exactly when that variant lays claim to it at `stage`, the first arm
/// that has `text` is at the position of the first claim.
pub proof fn lemma_arms_follow_claims(
    arms: Seq<ParseArmView>,
    meta: MetaView,
    stage: Stage,
    text: Seq<char>,
    from: int,
)
    requires
        0 <= from,
        arms.len() == meta.variants.len(),
        forall|i: int|
            0 <= i < arms.len() ==> ((#[trigger] arms[i]).patterns.contains(text) <==> claims(
                meta,
                stage,
                i,
                text,
            )),
    ensures
        parse_arm_for(arms, text, from) == first_claim(meta, stage, text, from),
    decreases arms.len() - from,
{
    if from < arms.len() && !arms[from].patterns.contains(text) {
        lemma_arms_follow_claims(arms, meta, stage, text, from + 1);
    }
}

/// The arms for the renames stand in the order of their variants, each
/// with the rename of its variant as its one pattern, and every variant
/// that has a rename has its arm.
pub proof fn lemma_renamed_arms(variants: Seq<VariantView>, n: int)
    requires
        0 <= n <= variants.len(),
        n <= usize::MAX,
    ensures
        forall|a: int|
            0 <= a < renamed_arms(variants, n).len() ==> {
                let arm = #[trigger] renamed_arms(variants, n)[a];
                &&& arm.variant < n
                &&& variants[arm.variant as int].rename == Some(arm.patterns[0])
                &&& arm.patterns.len() == 1
            },
        forall|a: int, b: int|
            0 <= a < b < renamed_arms(variants, n).len() ==> (#[trigger] renamed_arms(
                variants,
                n,
            )[a]).variant < (#[trigger] renamed_arms(variants, n)[b]).variant,
        forall|i: int|
            0 <= i < n && (#[trigger] variants[i]).rename is Some ==> exists|a: int|
                0 <= a < renamed_arms(variants, n).len() && (#[trigger] renamed_arms(
                    variants,
                    n,
                )[a]).variant == i,
    decreases n,
{
    if n > 0 {
        lemma_renamed_arms(variants, n - 1);
        let before = renamed_arms(variants, n - 1);
        let now = renamed_arms(variants, n);
        match variants[n - 1].rename {
            Some(rename) => {
                let arm = ParseArmView { patterns: seq![rename], variant: (n - 1) as usize };
                assert(now == before.push(arm));
                assert forall|i: int| 0 <= i < n && (#[trigger] variants[i]).rename is Some implies exists|
                    a: int,
                |
                    0 <= a < now.len() && (#[trigger] now[a]).variant == i by {
                    if i < n - 1 {
                        let a = choose|a: int| 0 <= a < before.len() && (#[trigger] before[a]).variant == i;
                        assert(now[a].variant == i);
                    } else {
                        assert(now[before.len() as int].variant == i);
                    }
                }
            },
            None => {
                assert(now == before);
            },
        }
    }
}

/// The first arm among those for the renames that has `text` is the arm of
/// the first variant that is renamed to `text`.
pub proof fn lemma_renamed_follow_claims(meta: MetaView, text: Seq<char>)
    requires
        countable(meta),
    ensures
        match parse_arm_for(renamed_arms(meta.variants, meta.variants.len() as int), text, 0) {
            Some(a) => 0 <= a < renamed_arms(meta.variants, meta.variants.len() as int).len()
                && first_claim(meta, Stage::Renamed, text, 0) == Some(
                renamed_arms(meta.variants, meta.variants.len() as int)[a].variant as int,
            ),
            None => first_claim(meta, Stage::Renamed, text, 0) is None,
        },
{
    let n = meta.variants.len() as int;
    let arms = renamed_arms(meta.variants, n);
    lemma_renamed_arms(meta.variants, n);
    lemma_parse_arm_for(arms, text, 0);
    lemma_first_claim(meta, Stage::Renamed, text, 0);
    match parse_arm_for(arms, text, 0) {
        Some(a) => {
            let v = arms[a].variant as int;
            assert(arms[a].patterns[0] == text) by {
                let k = choose|k: int| 0 <= k < arms[a].patterns.len() && arms[a].patterns[k] == text;
                assert(k == 0);
            }
            assert(claims(meta, Stage::Renamed, v, text));
            let i = first_claim(meta, Stage::Renamed, text, 0).unwrap();
            if i < v {
                let b = choose|b: int| 0 <= b < arms.len() && (#[trigger] arms[b]).variant == i;
                assert(arms[b].patterns[0] == text);
                assert(arms[b].patterns.contains(text));
                if a <= b {
                    if a < b {
                        assert(arms[a].variant < arms[b].variant);
                    }
                }
            }
        },
        None => {
            if let Some(i) = first_claim(meta, Stage::Renamed, text, 0) {
                let b = choose|b: int| 0 <= b < arms.len() && (#[trigger] arms[b]).variant == i;
                assert(arms[b].patterns[0] == text);
                assert(arms[b].patterns.contains(text));
            }
        },
    }
}

/// What `FromStr` makes of `text` when it is run, where it is emitted: the
/// variant that `text` stands for by [`parse_of`], or the error that names
/// the kind type and `text`.
pub open spec fn parsed(meta: MetaView, text: Seq<char>) -> Result<usize, ParseKindErrorView> {
    match parse_of(meta, text) {
        Some(i) => Ok(i as usize),
        None => Err(
            ParseKindErrorView {
                kind_type_name: last_segment(meta.kind_name().name),
                given_string: text,
            },
        ),
    }
}

/// The emitted `FromStr` looks for a text in three stages: among the
/// renames of all variants, then among their names as written, then among
/// their names in all conventions; within a stage the first variant wins,
/// and a text that no stage knows gives the error.
pub proof fn law_from_str_goes_by_stages(meta: MetaView, text: Seq<char>)
    requires
        countable(meta),
    ensures
        generated_of(meta).from_str(text) == if meta.skips(Skippable::FromStrImpl) {
            None
        } else {
            Some(parsed(meta, text))
        },
{
    if !meta.skips(Skippable::FromStrImpl) {
        let n = meta.variants.len() as int;
        let from_str_impl = generated_of(meta).kind_enum.impl_from_str_trait.unwrap();
        lemma_renamed_follow_claims(meta, text);
        assert forall|i: int| 0 <= i < n implies ((#[trigger] from_str_impl.exact[i]).patterns.contains(
            text,
        ) <==> claims(meta, Stage::Exact, i, text)) by {
            let patterns = from_str_impl.exact[i].patterns;
            assert(patterns == seq![meta.variants[i].ident.name]);
            if patterns.contains(text) {
                let k = choose|k: int| 0 <= k < patterns.len() && patterns[k] == text;
                assert(k == 0);
            }
            if meta.variants[i].ident.name == text {
                assert(patterns[0] == text);
            }
        }
        lemma_arms_follow_claims(from_str_impl.exact, meta, Stage::Exact, text, 0);
        assert forall|i: int| 0 <= i < n implies ((#[trigger] from_str_impl.alternatives[i]).patterns.contains(
            text,
        ) <==> claims(meta, Stage::Alternative, i, text)) by {
            let patterns = from_str_impl.alternatives[i].patterns;
            let name = meta.variants[i].ident.name;
            assert(patterns == alternatives_of(name));
            if patterns.contains(text) {
                let c = choose|c: int| 0 <= c < patterns.len() && patterns[c] == text;
                assert(cased(name, DisplayCase::every()[c]) == text);
            }
            if claims(meta, Stage::Alternative, i, text) {
                let c = choose|c: int|
                    0 <= c < DisplayCase::every().len() && #[trigger] cased(name, DisplayCase::every()[c])
                        == text;
                assert(patterns[c] == text);
            }
        }
        lemma_arms_follow_claims(from_str_impl.alternatives, meta, Stage::Alternative, text, 0);
        lemma_parse_arm_for(from_str_impl.exact, text, 0);
        lemma_parse_arm_for(from_str_impl.alternatives, text, 0);
    }
}

/// A text stands for a variant exactly when that variant lays a claim to
/// it that is looked at before every claim of another variant.
pub proof fn law_parse_of_the_unrivalled(meta: MetaView, text: Seq<char>, i: int)
    ensures
        parse_of(meta, text) == Some(i) <==> 0 <= i < meta.variants.len() && unrivalled(meta, i, text),
{
    lemma_first_claim(meta, Stage::Renamed, text, 0);
    lemma_first_claim(meta, Stage::Exact, text, 0);
    lemma_first_claim(meta, Stage::Alternative, text, 0);
    if parse_of(meta, text) == Some(i) {
        let stage = if first_claim(meta, Stage::Renamed, text, 0) is Some {
            Stage::Renamed
        } else if first_claim(meta, Stage::Exact, text, 0) is Some {
            Stage::Exact
        } else {
            Stage::Alternative
        };
        assert(claims(meta, stage, i, text));
        assert forall|other: Stage, j: int|
            0 <= j < meta.variants.len() && j != i && #[trigger] claims(
                meta,
                other,
                j,
                text,
            ) implies comes_before(stage, i, other, j) by {
            match other {
                Stage::Renamed => {},
                Stage::Exact => {},
                Stage::Alternative => {},
            }
        }
    }
    if 0 <= i < meta.variants.len() && unrivalled(meta, i, text) {
        let stage = choose|stage: Stage|
            #![trigger claims(meta, stage, i, text)]
            claims(meta, stage, i, text) && forall|other: Stage, j: int|
                0 <= j < meta.variants.len() && j != i && #[trigger] claims(meta, other, j, text)
                    ==> comes_before(stage, i, other, j);
        if let Some(j) = first_claim(meta, Stage::Renamed, text, 0) {
            if j != i {
                assert(claims(meta, Stage::Renamed, j, text));
                assert(comes_before(stage, i, Stage::Renamed, j));
            }
        } else if let Some(j) = first_claim(meta, Stage::Exact, text, 0) {
            if j != i {
                assert(claims(meta, Stage::Exact, j, text));
                assert(comes_before(stage, i, Stage::Exact, j));
            }
        } else if let Some(j) = first_claim(meta, Stage::Alternative, text, 0) {
            if j != i {
                assert(claims(meta, Stage::Alternative, j, text));
                assert(comes_before(stage, i, Stage::Alternative, j));
            }
        } else {
            match stage {
                Stage::Renamed => {},
                Stage::Exact => {},
                Stage::Alternative => {},
            }
        }
    }
}

/// The first arm of `Display` for a kind is the arm at its position.
proof fn lemma_display_arm(meta: MetaView, kind: int, from: int)
    requires
        countable(meta),
        0 <= from <= kind < meta.variants.len(),
        !meta.skips(Skippable::DisplayImpl),
    ensures
        display_arm_for(generated_of(meta).kind_enum.impl_display_trait.unwrap().arms, kind as usize, from)
            == Some(kind),
    decreases kind - from,
{
    if from < kind {
        lemma_display_arm(meta, kind, from + 1);
    }
}

/// The emitted `Display` writes for each kind what its variant is displayed
/// as: the rename if it has one, else the name in the convention of the
/// display policy, else the name.
pub proof fn law_display_writes_display_name(meta: MetaView, kind: int)
    requires
        countable(meta),
        0 <= kind < meta.variants.len(),
    ensures
        generated_of(meta).display(kind as usize) == if meta.skips(Skippable::DisplayImpl) {
            None
        } else {
            Some(meta.display_name(kind))
        },
{
    if !meta.skips(Skippable::DisplayImpl) {
        lemma_display_arm(meta, kind, 0);
    }
}

/// Each variant lays claim to what it is displayed as.
pub proof fn law_display_name_is_claimed(meta: MetaView, kind: int)
    requires
        0 <= kind < meta.variants.len(),
    ensures
        exists|stage: Stage| #[trigger] claims(meta, stage, kind, meta.display_name(kind)),
{
    let text = meta.display_name(kind);
    match meta.variants[kind].rename {
        Some(_) => {
            assert(claims(meta, Stage::Renamed, kind, text));
        },
        None => match meta.kinded_attrs.display {
            Some(case) => {
                let c = choose|c: int| 0 <= c < DisplayCase::every().len() && DisplayCase::every()[c] == case;
                assert(cased(meta.variants[kind].ident.name, DisplayCase::every()[c]) == text);
                assert(claims(meta, Stage::Alternative, kind, text));
            },
            None => {
                assert(claims(meta, Stage::Exact, kind, text));
            },
        },
    }
}

/// Parsing what was displayed gives the kind back, where both `Display`
/// and `FromStr` are emitted, exactly when no other variant lays an earlier
/// claim to the displayed text; else the text stands for that variant.
pub proof fn law_parse_inverts_display(meta: MetaView, kind: int)
    requires
        countable(meta),
        0 <= kind < meta.variants.len(),
        !meta.skips(Skippable::DisplayImpl),
        !meta.skips(Skippable::FromStrImpl),
    ensures
        generated_of(meta).display(kind as usize) == Some(meta.display_name(kind)),
        generated_of(meta).from_str(meta.display_name(kind)) == Some(
            Ok::<usize, ParseKindErrorView>(kind as usize),
        ) <==> unrivalled(meta, kind, meta.display_name(kind)),
{
    law_display_writes_display_name(meta, kind);
    law_text_is_parsed_as_its_unrivalled_claimant(meta, meta.display_name(kind), kind);
}

/// A text is parsed as a variant exactly when that variant lays a claim to
/// it that is looked at before every claim of another variant.
pub proof fn law_text_is_parsed_as_its_unrivalled_claimant(meta: MetaView, text: Seq<char>, kind: int)
    requires
        countable(meta),
        0 <= kind < meta.variants.len(),
        !meta.skips(Skippable::FromStrImpl),
    ensures
        generated_of(meta).from_str(text) == Some(Ok::<usize, ParseKindErrorView>(kind as usize))
            <==> unrivalled(meta, kind, text),
{
    law_from_str_goes_by_stages(meta, text);
    law_parse_of_the_unrivalled(meta, text, kind);
    if let Some(i) = parse_of(meta, text) {
        law_parse_of_the_unrivalled(meta, text, i);
    }
}

/// A rename is what is displayed, whatever the name and the display policy
/// are.
pub proof fn law_rename_is_displayed(meta: MetaView, kind: int, rename: Seq<char>)
    requires
        countable(meta),
        0 <= kind < meta.variants.len(),
        !meta.skips(Skippable::DisplayImpl),
        meta.variants[kind].rename == Some(rename),
    ensures
        generated_of(meta).display(kind as usize) == Some(rename),
{
    law_display_writes_display_name(meta, kind);
}

/// A rename is parsed as its variant before any name is looked at: it
/// gives way only to the same rename on an earlier variant.
pub proof fn law_rename_is_parsed(meta: MetaView, kind: int, rename: Seq<char>)
    requires
        countable(meta),
        0 <= kind < meta.variants.len(),
        !meta.skips(Skippable::FromStrImpl),
        meta.variants[kind].rename == Some(rename),
    ensures
        generated_of(meta).from_str(rename) == Some(Ok::<usize, ParseKindErrorView>(kind as usize))
            <==> forall|j: int| 0 <= j < kind ==> (#[trigger] meta.variants[j]).rename != Some(rename),
{
    law_from_str_goes_by_stages(meta, rename);
    lemma_first_claim(meta, Stage::Renamed, rename, 0);
    assert(claims(meta, Stage::Renamed, kind, rename));
    if generated_of(meta).from_str(rename) == Some(Ok::<usize, ParseKindErrorView>(kind as usize)) {
        assert(first_claim(meta, Stage::Renamed, rename, 0) == Some(kind));
        assert forall|j: int| 0 <= j < kind implies (#[trigger] meta.variants[j]).rename != Some(
            rename,
        ) by {
            assert(!claims(meta, Stage::Renamed, j, rename));
        }
    }
}

/// The name of a variant as written stays parseable, renamed or not and
/// with any display policy: it is parsed as that variant unless another
/// variant lays an earlier claim to it.
pub proof fn law_name_is_parsed(meta: MetaView, kind: int)
    requires
        countable(meta),
        0 <= kind < meta.variants.len(),
        !meta.skips(Skippable::FromStrImpl),
        unrivalled(meta, kind, meta.variants[kind].ident.name),
    ensures
        generated_of(meta).from_str(meta.variants[kind].ident.name) == Some(
            Ok::<usize, ParseKindErrorView>(kind as usize),
        ),
{
    law_text_is_parsed_as_its_unrivalled_claimant(meta, meta.variants[kind].ident.name, kind);
}

/// The name of a variant in any convention stays parseable, renamed or not
/// and with any display policy: it is parsed as that variant unless
/// another variant lays an earlier claim to it.
pub proof fn law_alternative_is_parsed(meta: MetaView, kind: int, case: DisplayCase)
    requires
        countable(meta),
        0 <= kind < meta.variants.len(),
        !meta.skips(Skippable::FromStrImpl),
        unrivalled(meta, kind, cased(meta.variants[kind].ident.name, case)),
    ensures
        generated_of(meta).from_str(cased(meta.variants[kind].ident.name, case)) == Some(
            Ok::<usize, ParseKindErrorView>(kind as usize),
        ),
{
    law_text_is_parsed_as_its_unrivalled_claimant(
        meta,
        cased(meta.variants[kind].ident.name, case),
        kind,
    );
}

/// The claim of a variant to its name as written has no rival where no
/// variant is renamed to that name and no earlier variant bears it. A name
/// in another spelling never stands in its way.
pub proof fn law_unclaimed_name_has_no_rival(meta: MetaView, kind: int)
    requires
        0 <= kind < meta.variants.len(),
        forall|j: int|
            0 <= j < meta.variants.len() ==> (#[trigger] meta.variants[j]).rename != Some(
                meta.variants[kind].ident.name,
            ),
        forall|j: int|
            0 <= j < kind ==> (#[trigger] meta.variants[j]).ident.name != meta.variants[kind].ident.name,
    ensures
        unrivalled(meta, kind, meta.variants[kind].ident.name),
{
    let text = meta.variants[kind].ident.name;
    assert(claims(meta, Stage::Exact, kind, text));
    assert forall|other: Stage, j: int|
        0 <= j < meta.variants.len() && j != kind && #[trigger] claims(
            meta,
            other,
            j,
            text,
        ) implies comes_before(Stage::Exact, kind, other, j) by {
        match other {
            Stage::Renamed => {},
            Stage::Exact => {},
            Stage::Alternative => {},
        }
    }
}

/// The claim of a variant to its name in a convention has no rival where
/// that text is no rename and no name as written, and no earlier variant
/// has a name that gives it in some convention.
pub proof fn law_unclaimed_alternative_has_no_rival(meta: MetaView, kind: int, case: DisplayCase)
    requires
        0 <= kind < meta.variants.len(),
        forall|j: int|
            0 <= j < meta.variants.len() ==> (#[trigger] meta.variants[j]).rename != Some(
                cased(meta.variants[kind].ident.name, case),
            ),
        forall|j: int|
            0 <= j < meta.variants.len() ==> (#[trigger] meta.variants[j]).ident.name != cased(
                meta.variants[kind].ident.name,
                case,
            ),
        forall|j: int, other: DisplayCase|
            0 <= j < kind ==> #[trigger] cased(meta.variants[j].ident.name, other) != cased(
                meta.variants[kind].ident.name,
                case,
            ),
    ensures
        unrivalled(meta, kind, cased(meta.variants[kind].ident.name, case)),
{
    let text = cased(meta.variants[kind].ident.name, case);
    let c = choose|c: int| 0 <= c < DisplayCase::every().len() && DisplayCase::every()[c] == case;
    assert(cased(meta.variants[kind].ident.name, DisplayCase::every()[c]) == text);
    assert(claims(meta, Stage::Alternative, kind, text));
    assert forall|other: Stage, j: int|
        0 <= j < meta.variants.len() && j != kind && #[trigger] claims(
            meta,
            other,
            j,
            text,
        ) implies comes_before(Stage::Alternative, kind, other, j) by {
        match other {
            Stage::Renamed => {},
            Stage::Exact => {},
            Stage::Alternative => {
                if j < kind {
                    let d = choose|d: int|
                        0 <= d < DisplayCase::every().len() && #[trigger] cased(
                            meta.variants[j].ident.name,
                            DisplayCase::every()[d],
                        ) == text;
                    assert(cased(meta.variants[j].ident.name, DisplayCase::every()[d]) != text);
                }
            },
        }
    }
}

/// Whether no two variants bear the same name, as the language asks of an
/// enum.
pub open spec fn distinct_names(meta: MetaView) -> bool {
    forall|i: int, j: int|
        0 <= i < j < meta.variants.len() ==> (#[trigger] meta.variants[i]).ident.name
            != (#[trigger] meta.variants[j]).ident.name
}

/// Where the variants bear distinct names and none is renamed, each name
/// as written is parsed as its variant, whatever the names are in other
/// spellings.
pub proof fn law_distinct_names_are_told_apart(meta: MetaView, kind: int)
    requires
        countable(meta),
        0 <= kind < meta.variants.len(),
        !meta.skips(Skippable::FromStrImpl),
        distinct_names(meta),
        forall|j: int| 0 <= j < meta.variants.len() ==> (#[trigger] meta.variants[j]).rename is None,
    ensures
        generated_of(meta).from_str(meta.variants[kind].ident.name) == Some(
            Ok::<usize, ParseKindErrorView>(kind as usize),
        ),
{
    law_unclaimed_name_has_no_rival(meta, kind);
    law_name_is_parsed(meta, kind);
}

/// A text that is no rename, no name and no name in any convention is
/// refused, with an error that names the kind type and the text.
pub proof fn law_unknown_text_is_refused(meta: MetaView, text: Seq<char>)
    requires
        countable(meta),
        !meta.skips(Skippable::FromStrImpl),
        forall|stage: Stage, j: int|
            0 <= j < meta.variants.len() ==> !#[trigger] claims(meta, stage, j, text),
    ensures
        generated_of(meta).from_str(text) == Some(
            Err::<usize, ParseKindErrorView>(
                ParseKindErrorView {
                    kind_type_name: last_segment(meta.kind_name().name),
                    given_string: text,
                },
            ),
        ),
{
    law_from_str_goes_by_stages(meta, text);
    lemma_first_claim(meta, Stage::Renamed, text, 0);
    lemma_first_claim(meta, Stage::Exact, text, 0);
    lemma_first_claim(meta, Stage::Alternative, text, 0);
}

/// The first arm of `kind()` for a variant is the arm at its position.
proof fn lemma_branch(meta: MetaView, variant: int, from: int)
    requires
        countable(meta),
        0 <= from <= variant < meta.variants.len(),
    ensures
        branch_for(generated_of(meta).main_enum_extra.fn_kind.branches, variant as usize, from) == Some(
            variant,
        ),
    decreases variant - from,
{
    if from < variant {
        lemma_branch(meta, variant, from + 1);
    }
}

/// The emitted `kind()` has an arm for every variant: each value of the
/// enum has a kind, which is the variant of the kind type at the position
/// and under the name of its own.
pub proof fn law_kind_is_total(meta: MetaView, variant: int)
    requires
        countable(meta),
        0 <= variant < meta.variants.len(),
    ensures
        generated_of(meta).kind(variant as usize) == Some(variant as usize),
        generated_of(meta).kind_enum.definition.variant_name(variant as usize) == Some(
            meta.variants[variant].ident.name,
        ),
{
    lemma_branch(meta, variant, 0);
}

/// `all()` lists the kinds of the variants in the order in which they are
/// declared: as many as there are variants, and at each position the kind
/// of the values of the variant at that position. It is a function of the
/// declaration alone, so every call gives this list.
pub proof fn law_all_lists_the_kinds_in_order(meta: MetaView)
    requires
        countable(meta),
    ensures
        generated_of(meta).all().len() == meta.variants.len(),
        forall|i: int|
            0 <= i < meta.variants.len() ==> generated_of(meta).kind(i as usize) == Some(
                #[trigger] generated_of(meta).all()[i],
            ),
{
    assert forall|i: int| 0 <= i < meta.variants.len() implies generated_of(meta).kind(i as usize)
        == Some(#[trigger] generated_of(meta).all()[i]) by {
        law_kind_is_total(meta, i);
    }
}

/// The kind of a value of the enum, under what is emitted.
pub open spec fn kind_of<P>(meta: MetaView, value: Value<P>) -> Option<usize> {
    generated_of(meta).kind(value.variant)
}

/// Two values of the same variant have the same kind, whatever they
/// carry.
pub proof fn law_kind_ignores_payload<P, Q>(meta: MetaView, one: Value<P>, other: Value<Q>)
    requires
        one.variant == other.variant,
    ensures
        kind_of(meta, one) == kind_of(meta, other),
{
}

/// `From` is `kind()` for a value and for a reference to it alike, where
/// it is emitted.
pub proof fn law_from_is_kind(meta: MetaView, variant: usize)
    ensures
        generated_of(meta).from(variant) == if meta.skips(Skippable::FromImpl) {
            None
        } else {
            generated_of(meta).kind(variant)
        },
{
}

/// The kind type has the name given with `kind = ..`, where one is given,
/// and no other.
pub proof fn law_custom_name_is_taken(meta: MetaView)
    requires
        meta.kinded_attrs.kind is Some,
    ensures
        generated_of(meta).kind_enum.definition.kind_name == meta.kinded_attrs.kind.unwrap(),
{
}

/// No two of the names that can be skipped are written alike.
pub proof fn lemma_skippable_names_differ(one: Skippable, other: Skippable)
    requires
        one != other,
    ensures
        one.name_of() != other.name_of(),
        !PathView::simple(one.name_of()).same_as(PathView::simple(other.name_of())),
{
    reveal_strlit("Debug");
    reveal_strlit("Clone");
    reveal_strlit("Copy");
    reveal_strlit("PartialEq");
    reveal_strlit("Eq");
    reveal_strlit("Display");
    reveal_strlit("FromStr");
    reveal_strlit("From");
    let a = one.name_of();
    let b = other.name_of();
    if a.len() == b.len() {
        assert(a[0] != b[0]);
    }
    assert(PathView::simple(a).names()[0] == a);
    assert(PathView::simple(b).names()[0] == b);
}

/// Whether no two of `paths` are written alike.
pub open spec fn each_once(paths: Seq<PathView>) -> bool {
    forall|a: int, b: int|
        0 <= a < b < paths.len() ==> !(#[trigger] paths[a]).same_as(#[trigger] paths[b])
}

/// What the kept defaults are: each default derive that is not skipped,
/// and nothing else, each once.
pub proof fn lemma_kept_defaults(opt_outs: Option<OptOuts>, n: int)
    requires
        0 <= n <= Skippable::every().len(),
    ensures
        forall|a: int|
            0 <= a < kept_defaults(opt_outs, n).len() ==> exists|k: int|
                0 <= k < n && Skippable::every()[k].is_derive() && !skipped(
                    opt_outs,
                    Skippable::every()[k],
                ) && #[trigger] kept_defaults(opt_outs, n)[a] == PathView::simple(
                    #[trigger] Skippable::every()[k].name_of(),
                ),
        forall|k: int|
            0 <= k < n && Skippable::every()[k].is_derive() && !skipped(opt_outs, Skippable::every()[k])
                ==> holds_path(
                kept_defaults(opt_outs, n),
                PathView::simple(#[trigger] Skippable::every()[k].name_of()),
            ),
        each_once(kept_defaults(opt_outs, n)),
    decreases n,
{
    if n > 0 {
        lemma_kept_defaults(opt_outs, n - 1);
        let before = kept_defaults(opt_outs, n - 1);
        let now = kept_defaults(opt_outs, n);
        let what = Skippable::every()[n - 1];
        let path = PathView::simple(what.name_of());
        if what.is_derive() && !skipped(opt_outs, what) {
            assert(now == before.push(path));
            assert(now[before.len() as int].same_as(path));
            assert forall|a: int| 0 <= a < now.len() implies exists|k: int|
                0 <= k < n && Skippable::every()[k].is_derive() && !skipped(
                    opt_outs,
                    Skippable::every()[k],
                ) && #[trigger] now[a] == PathView::simple(#[trigger] Skippable::every()[k].name_of()) by {
                if a < before.len() {
                    let k = choose|k: int|
                        0 <= k < n - 1 && Skippable::every()[k].is_derive() && !skipped(
                            opt_outs,
                            Skippable::every()[k],
                        ) && #[trigger] before[a] == PathView::simple(
                            #[trigger] Skippable::every()[k].name_of(),
                        );
                    assert(now[a] == PathView::simple(Skippable::every()[k].name_of()));
                } else {
                    assert(now[a] == PathView::simple(Skippable::every()[n - 1].name_of()));
                }
            }
            assert forall|k: int|
                0 <= k < n && Skippable::every()[k].is_derive() && !skipped(
                    opt_outs,
                    Skippable::every()[k],
                ) implies holds_path(now, PathView::simple(#[trigger] Skippable::every()[k].name_of())) by {
                let wanted = PathView::simple(Skippable::every()[k].name_of());
                if k < n - 1 {
                    let a = choose|a: int| 0 <= a < before.len() && (#[trigger] before[a]).same_as(wanted);
                    assert(now[a].same_as(wanted));
                }
            }
            assert forall|a: int, b: int| 0 <= a < b < now.len() implies !(#[trigger] now[a]).same_as(
                #[trigger] now[b],
            ) by {
                if b == before.len() {
                    let k = choose|k: int|
                        0 <= k < n - 1 && Skippable::every()[k].is_derive() && !skipped(
                            opt_outs,
                            Skippable::every()[k],
                        ) && #[trigger] before[a] == PathView::simple(
                            #[trigger] Skippable::every()[k].name_of(),
                        );
                    lemma_skippable_names_differ(Skippable::every()[k], what);
                }
            }
        } else {
            assert(now == before);
            assert forall|a: int| 0 <= a < now.len() implies exists|k: int|
                0 <= k < n && Skippable::every()[k].is_derive() && !skipped(
                    opt_outs,
                    Skippable::every()[k],
                ) && #[trigger] now[a] == PathView::simple(#[trigger] Skippable::every()[k].name_of()) by {
                let k = choose|k: int|
                    0 <= k < n - 1 && Skippable::every()[k].is_derive() && !skipped(
                        opt_outs,
                        Skippable::every()[k],
                    ) && #[trigger] before[a] == PathView::simple(
                        #[trigger] Skippable::every()[k].name_of(),
                    );
                assert(now[a] == PathView::simple(Skippable::every()[k].name_of()));
            }
        }
    }
}

/// What adding the extra traits does: what was there stays in front, each
/// of the extra ones is there afterwards, nothing else is, and none comes
/// twice.
pub proof fn lemma_with_extra(traits: Seq<PathView>, extra: Seq<PathView>, n: int)
    requires
        0 <= n <= extra.len(),
    ensures
        traits.len() <= with_extra(traits, extra, n).len(),
        with_extra(traits, extra, n).subrange(0, traits.len() as int) == traits,
        forall|j: int| 0 <= j < n ==> holds_path(with_extra(traits, extra, n), #[trigger] extra[j]),
        forall|path: PathView|
            holds_path(with_extra(traits, extra, n), path) ==> holds_path(traits, path) || exists|j: int|
                0 <= j < n && (#[trigger] extra[j]).same_as(path),
        each_once(traits) ==> each_once(with_extra(traits, extra, n)),
    decreases n,
{
    if n > 0 {
        lemma_with_extra(traits, extra, n - 1);
        let before = with_extra(traits, extra, n - 1);
        let now = with_extra(traits, extra, n);
        let added = extra[n - 1];
        if holds_path(before, added) {
            assert(now == before);
        } else {
            assert(now == before.push(added));
            assert(now.subrange(0, traits.len() as int) =~= before.subrange(0, traits.len() as int));
            assert(now[before.len() as int].same_as(added)) by {
                assert(added.names() == added.names());
            }
            assert forall|j: int| 0 <= j < n implies holds_path(now, #[trigger] extra[j]) by {
                if j < n - 1 {
                    let a = choose|a: int| 0 <= a < before.len() && (#[trigger] before[a]).same_as(extra[j]);
                    assert(now[a].same_as(extra[j]));
                }
            }
            assert forall|path: PathView| holds_path(now, path) implies holds_path(traits, path)
                || exists|j: int| 0 <= j < n && (#[trigger] extra[j]).same_as(path) by {
                let a = choose|a: int| 0 <= a < now.len() && (#[trigger] now[a]).same_as(path);
                if a < before.len() {
                    assert(before[a].same_as(path));
                    assert(holds_path(before, path));
                } else {
                    assert(extra[n - 1].same_as(path));
                }
            }
            if each_once(traits) {
                assert forall|a: int, b: int| 0 <= a < b < now.len() implies !(#[trigger] now[a]).same_as(
                    #[trigger] now[b],
                ) by {
                    if b == before.len() && now[a].same_as(now[b]) {
                        assert(before[a].same_as(added));
                    }
                }
            }
        }
    }
}

/// A default derive is derived exactly when it is not skipped, unless it
/// is asked for with `derive(..)`: the implementations that can be
/// skipped are never derived by default.
pub proof fn law_defaults_are_derived_unless_skipped(meta: MetaView, what: Skippable)
    requires
        !(meta.kinded_attrs.derive matches Some(extra) && holds_path(
            extra,
            PathView::simple(what.name_of()),
        )),
    ensures
        holds_path(meta.derive_traits(), PathView::simple(what.name_of())) <==> what.is_derive()
            && !meta.skips(what),
{
    let all = Skippable::every();
    let n = all.len() as int;
    let opt_outs = meta.kinded_attrs.opt_outs;
    let defaults = kept_defaults(opt_outs, n);
    let wanted = PathView::simple(what.name_of());
    lemma_kept_defaults(opt_outs, n);
    let k = choose|k: int| 0 <= k < n && all[k] == what;
    assert(all[k] == what);
    if holds_path(defaults, wanted) {
        let a = choose|a: int| 0 <= a < defaults.len() && (#[trigger] defaults[a]).same_as(wanted);
        let d = choose|d: int|
            0 <= d < n && all[d].is_derive() && !skipped(opt_outs, all[d]) && #[trigger] defaults[a]
                == PathView::simple(#[trigger] all[d].name_of());
        if all[d] != what {
            lemma_skippable_names_differ(all[d], what);
        }
    }
    match meta.kinded_attrs.derive {
        Some(extra) => {
            lemma_with_extra(defaults, extra, extra.len() as int);
            let traits = with_extra(defaults, extra, extra.len() as int);
            if holds_path(defaults, wanted) {
                let a = choose|a: int| 0 <= a < defaults.len() && (#[trigger] defaults[a]).same_as(wanted);
                assert(traits.subrange(0, defaults.len() as int)[a] == traits[a]);
                assert(traits[a].same_as(wanted));
            }
            if holds_path(traits, wanted) && !holds_path(defaults, wanted) {
                let j = choose|j: int| 0 <= j < extra.len() && (#[trigger] extra[j]).same_as(wanted);
                assert(holds_path(extra, wanted));
            }
        },
        None => {},
    }
}

/// Every trait asked for with `derive(..)` is derived.
pub proof fn law_extra_traits_are_derived(meta: MetaView, j: int)
    requires
        meta.kinded_attrs.derive matches Some(extra) && 0 <= j < extra.len(),
    ensures
        holds_path(meta.derive_traits(), meta.kinded_attrs.derive.unwrap()[j]),
{
    let extra = meta.kinded_attrs.derive.unwrap();
    lemma_with_extra(
        kept_defaults(meta.kinded_attrs.opt_outs, Skippable::every().len() as int),
        extra,
        extra.len() as int,
    );
}

/// The derived traits are the kept default ones, in their fixed order,
/// followed by extra ones; none is derived twice; and each is a default
/// one that is not skipped or one that is asked for.
pub proof fn law_traits_are_derived_once_defaults_first(meta: MetaView)
    ensures
        each_once(meta.derive_traits()),
        kept_defaults(meta.kinded_attrs.opt_outs, Skippable::every().len() as int).len()
            <= meta.derive_traits().len(),
        meta.derive_traits().subrange(
            0,
            kept_defaults(meta.kinded_attrs.opt_outs, Skippable::every().len() as int).len() as int,
        ) == kept_defaults(meta.kinded_attrs.opt_outs, Skippable::every().len() as int),
        forall|path: PathView|
            holds_path(meta.derive_traits(), path) ==> holds_path(
                kept_defaults(meta.kinded_attrs.opt_outs, Skippable::every().len() as int),
                path,
            ) || (meta.kinded_attrs.derive matches Some(extra) && holds_path(extra, path)),
{
    let defaults = kept_defaults(meta.kinded_attrs.opt_outs, Skippable::every().len() as int);
    lemma_kept_defaults(meta.kinded_attrs.opt_outs, Skippable::every().len() as int);
    match meta.kinded_attrs.derive {
        Some(extra) => {
            lemma_with_extra(defaults, extra, extra.len() as int);
        },
        None => {
            assert(defaults.subrange(0, defaults.len() as int) =~= defaults);
        },
    }
}

/// Each name that can be skipped is read back as what it names, and no
/// other text is read as anything.
pub proof fn law_skippable_names_are_read_back(what: Skippable, name: Seq<char>)
    ensures
        Skippable::named(what.name_of()) == Some(what),
        Skippable::named(name) == Some(what) <==> name == what.name_of(),
{
    reveal_strlit("Debug");
    reveal_strlit("Clone");
    reveal_strlit("Copy");
    reveal_strlit("PartialEq");
    reveal_strlit("Eq");
    reveal_strlit("Display");
    reveal_strlit("FromStr");
    reveal_strlit("From");
    reveal_with_fuel(Skippable::named_from, 9);
    assert("Debug"@.len() == 5 && "Clone"@.len() == 5 && "Copy"@.len() == 4 && "PartialEq"@.len() == 9);
    assert("Eq"@.len() == 2 && "Display"@.len() == 7 && "FromStr"@.len() == 7 && "From"@.len() == 4);
    assert("Debug"@[0] != "Clone"@[0]);
    assert("Copy"@[0] != "From"@[0]);
    assert("Display"@[0] != "FromStr"@[0]);
}

/// Each value of `display = ".."` is read back as the convention it names,
/// and no other text is read as a convention.
pub proof fn law_display_literals_are_read_back(case: DisplayCase, literal: Seq<char>)
    ensures
        DisplayCase::named(case.literal_of()) == Some(case),
        DisplayCase::named(literal) == Some(case) <==> literal == case.literal_of(),
{
    reveal_strlit("snake_case");
    reveal_strlit("camelCase");
    reveal_strlit("PascalCase");
    reveal_strlit("SCREAMING_SNAKE_CASE");
    reveal_strlit("kebab-case");
    reveal_strlit("SCREAMING-KEBAB-CASE");
    reveal_strlit("Title Case");
    reveal_strlit("lowercase");
    reveal_strlit("UPPERCASE");
    reveal_with_fuel(DisplayCase::named_from, 10);
    assert("snake_case"@[0] != "PascalCase"@[0]);
    assert("snake_case"@[0] != "kebab-case"@[0]);
    assert("snake_case"@[0] != "Title Case"@[0]);
    assert("PascalCase"@[0] != "kebab-case"@[0]);
    assert("PascalCase"@[0] != "Title Case"@[0]);
    assert("kebab-case"@[0] != "Title Case"@[0]);
    assert("camelCase"@[0] != "lowercase"@[0]);
    assert("camelCase"@[0] != "UPPERCASE"@[0]);
    assert("lowercase"@[0] != "UPPERCASE"@[0]);
    assert("SCREAMING_SNAKE_CASE"@[9] != "SCREAMING-KEBAB-CASE"@[9]);
}

} // verus!
