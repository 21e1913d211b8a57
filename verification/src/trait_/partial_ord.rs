//! The implementation of `PartialOrd`.

use crate::data::Data;
use crate::input::Item;
use crate::trait_::common_ord;
use crate::trait_::{DeriveTrait, DeriveTraitView, Policy, Trait};
use vstd::prelude::*;

verus! {

/// Writes implementations of `PartialOrd`: the variant declared first is less; values
/// of one variant are ordered by the first field that takes part and differs.
pub struct PartialOrd;

impl PartialOrd {
    /// The name of the trait.
    pub fn as_str(&self) -> (name: &'static str)
        ensures
            name@ == Trait::PartialOrd.name(),
    {
        "PartialOrd"
    }

    /// The trait as it is requested without options.
    pub fn default_derive_trait(&self) -> (derive: DeriveTrait)
        ensures
            derive@ == DeriveTraitView::plain(Trait::PartialOrd),
    {
        DeriveTrait::new(Trait::PartialOrd)
    }

    /// Whether fields can be left out.
    pub fn supports_skip(&self) -> (supported: bool)
        ensures
            supported == Trait::PartialOrd.skippable(),
    {
        true
    }

    /// Writes the method `partial_cmp` around the arms of its `match`.
    pub fn build_signature(&self, item: &Item, trait_: &DeriveTrait, body: &str, policy: Policy)
        -> (code: String)
        ensures
            code@ == common_ord::signature(item@, trait_@, body@, policy),
    {
        common_ord::build_ord_signature(item, trait_, body, policy)
    }

    /// Writes the arm of the `match` for two values of one body. A union has no
    /// such arm.
    pub fn build_body(&self, trait_: &DeriveTrait, data: &Data) -> (code: String)
        requires
            !(data@.simple_type() is Union),
        ensures
            code@ == common_ord::body(trait_@, data@),
    {
        common_ord::build_ord_body(trait_, data)
    }
}

} // verus!
