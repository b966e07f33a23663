//! From the model to the description of what is emitted.
//!
//! Nothing here writes source text. Each function describes one item as
//! data: which type, which traits and attributes, which arms in which
//! order. Turning a description into tokens is left to the caller.

pub mod kind_enum;
pub mod main_enum;

use vstd::prelude::*;
use crate::generate::kind_enum::{gen_kind_enum, kind_enum_of, KindEnum, KindEnumView};
use crate::generate::main_enum::{
    gen_main_enum_extra, main_enum_extra_of, MainEnumExtra, MainEnumExtraView,
};
use crate::models::{Meta, MetaView};

verus! {

/// All that is emitted for one declaration.
#[derive(Debug, PartialEq, Eq)]
pub struct Generated {
    pub kind_enum: KindEnum,
    pub main_enum_extra: MainEnumExtra,
}

/// The mathematical value of [`Generated`].
pub struct GeneratedView {
    pub kind_enum: KindEnumView,
    pub main_enum_extra: MainEnumExtraView,
}

impl DeepView for Generated {
    type V = GeneratedView;

    open spec fn deep_view(&self) -> GeneratedView {
        GeneratedView {
            kind_enum: self.kind_enum.deep_view(),
            main_enum_extra: self.main_enum_extra.deep_view(),
        }
    }
}

/// All that is emitted for `meta`.
pub open spec fn generated_of(meta: MetaView) -> GeneratedView {
    GeneratedView { kind_enum: kind_enum_of(meta), main_enum_extra: main_enum_extra_of(meta) }
}

/// Describes all that is emitted for `meta`: the kind type with its
/// implementations, and what the enum itself gets.
pub fn generate(meta: Meta) -> (generated: Generated)
    ensures
        generated.deep_view() == generated_of(meta.deep_view()),
{
    let kind_enum = gen_kind_enum(&meta);
    let main_enum_extra = gen_main_enum_extra(&meta);
    Generated { kind_enum, main_enum_extra }
}

} // verus!
