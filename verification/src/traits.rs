//! The traits that tie an enum to its kind type.

use vstd::prelude::*;
use core::fmt::Debug;
use crate::input::Fields;
use crate::models::FieldsType;
use crate::parse::{parse_fields_type, shape_of};

verus! {

/// A trait that can be implemented by a main enum type: one whose values
/// have a kind.
pub trait Kinded {
    type Kind: PartialEq + Eq + Debug + Clone + Copy + Kind;

    /// Get a kind variant without data.
    fn kind(&self) -> Self::Kind;
}

/// A trait of kind types: enums without data, of which all values can be
/// listed.
pub trait Kind: PartialEq + Eq + Debug + Clone + Copy {
    /// Return a vector with all possible kind variants.
    fn all() -> Vec<Self>;
}

/// The kind of `val`, for any type that has kinds: what its `kind()` gives.
pub fn compute_kind<T: Kinded>(val: T) -> (kind: <T as Kinded>::Kind)
    ensures
        call_ensures(T::kind, (&val,), kind),
{
    val.kind()
}

impl Kind for FieldsType {
    /// The three shapes, in the order in which they are declared.
    fn all() -> (all: Vec<FieldsType>)
        ensures
            all@ == seq![FieldsType::Named, FieldsType::Unnamed, FieldsType::Unit],
    {
        let mut all: Vec<FieldsType> = Vec::new();
        all.push(FieldsType::Named);
        all.push(FieldsType::Unnamed);
        all.push(FieldsType::Unit);
        assert(all@ =~= seq![FieldsType::Named, FieldsType::Unnamed, FieldsType::Unit]);
        all
    }
}

/// The fields of a variant are themselves an enum with data, and their
/// shape is its kind.
impl Kinded for Fields {
    type Kind = FieldsType;

    fn kind(&self) -> (kind: FieldsType)
        ensures
            kind == shape_of(self.deep_view()),
    {
        parse_fields_type(self)
    }
}

} // verus!
