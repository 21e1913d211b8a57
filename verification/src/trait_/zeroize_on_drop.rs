//! The implementation of `ZeroizeOnDrop`.

use crate::data::Data;
use crate::input::{Item, ItemView};
use crate::trait_::zeroize::Zeroize;
use crate::trait_::{DeriveTrait, DeriveTraitView, Trait};
use vstd::prelude::*;
use vstd::string::StringExecFns;

verus! {

/// Writes implementations of `ZeroizeOnDrop`: a `Drop` that zeroes every field
/// that takes part, and the marker trait beside it.
pub struct ZeroizeOnDrop;

impl ZeroizeOnDrop {
    /// The method `drop` around the arms of its `match`.
    pub open spec fn signature(item: ItemView, trait_: DeriveTraitView, body: Seq<char>) -> Seq<
        char,
    > {
        "fn drop(&mut self) "@ + Zeroize::content(item, trait_, body)
    }

    /// The second `impl` block: the path of the marker trait, and its empty
    /// content.
    pub open spec fn additional(trait_: DeriveTraitView) -> (Seq<char>, Seq<char>) {
        (trait_.path(), Seq::empty())
    }

    /// The name of the trait.
    pub fn as_str(&self) -> (name: &'static str)
        ensures
            name@ == Trait::ZeroizeOnDrop.name(),
    {
        "ZeroizeOnDrop"
    }

    /// The trait as it is requested without options.
    pub fn default_derive_trait(&self) -> (derive: DeriveTrait)
        ensures
            derive@ == DeriveTraitView::plain(Trait::ZeroizeOnDrop),
    {
        DeriveTrait::new(Trait::ZeroizeOnDrop)
    }

    /// Whether fields can be left out.
    pub fn supports_skip(&self) -> (supported: bool)
        ensures
            supported == Trait::ZeroizeOnDrop.skippable(),
    {
        true
    }

    /// Writes the method `drop` around the arms of its `match`.
    pub fn build_signature(&self, item: &Item, trait_: &DeriveTrait, body: &str) -> (code: String)
        ensures
            code@ == ZeroizeOnDrop::signature(item@, trait_@, body@),
    {
        let content = Zeroize::write_content(item, trait_, body);
        let mut code = String::from_str("fn drop(&mut self) ");
        code.append(content.as_str());
        code
    }

    /// Writes the arm of the `match` for one body. A union has no such arm.
    pub fn build_body(&self, trait_: &DeriveTrait, data: &Data) -> (code: String)
        requires
            !(data@.simple_type() is Union),
        ensures
            code@ == Zeroize::body(trait_@, data@),
    {
        Zeroize.build_body(trait_, data)
    }

    /// Writes the second `impl` block: the path of the marker trait, and its
    /// empty content.
    pub fn additional_impl(&self, trait_: &DeriveTrait) -> (block: (String, String))
        ensures
            (block.0@, block.1@) == ZeroizeOnDrop::additional(trait_@),
    {
        (trait_.path(), String::new())
    }
}

} // verus!
