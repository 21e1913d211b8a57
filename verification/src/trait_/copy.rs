//! The implementation of `Copy`.

use crate::data::Data;
use crate::input::Item;
use crate::trait_::{DeriveTrait, DeriveTraitView, Trait};
use vstd::prelude::*;

verus! {

/// Writes implementations of `Copy`, which has no method.
pub struct Copy;

impl Copy {
    /// The name of the trait.
    pub fn as_str(&self) -> (name: &'static str)
        ensures
            name@ == Trait::Copy.name(),
    {
        "Copy"
    }

    /// The trait as it is requested without options.
    pub fn default_derive_trait(&self) -> (derive: DeriveTrait)
        ensures
            derive@ == DeriveTraitView::plain(Trait::Copy),
    {
        DeriveTrait::new(Trait::Copy)
    }

    /// Whether fields can be left out.
    pub fn supports_skip(&self) -> (supported: bool)
        ensures
            supported == Trait::Copy.skippable(),
    {
        false
    }

    /// Writes the content of the `impl` block: nothing.
    pub fn build_signature(&self, _item: &Item, _trait_: &DeriveTrait, _body: &str) -> (code:
        String)
        ensures
            code@ == Seq::<char>::empty(),
    {
        String::new()
    }

    /// Writes what one body adds to the `impl` block: nothing.
    pub fn build_body(&self, _trait_: &DeriveTrait, _data: &Data) -> (code: String)
        ensures
            code@ == Seq::<char>::empty(),
    {
        String::new()
    }
}

} // verus!
