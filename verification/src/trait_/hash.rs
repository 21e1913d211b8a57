//! The implementation of `Hash`.

use crate::data::{Data, DataType, DataView};
use crate::input::Item;
use crate::trait_::{DeriveTrait, DeriveTraitView, Trait};
use vstd::prelude::*;
use vstd::string::StringExecFns;

verus! {

/// Writes implementations of `Hash`: the tag of a variant is fed first, then
/// the fields that take part, in the order of their declaration.
pub struct Hash;

impl Hash {
    /// The method `hash` around the arms of its `match`.
    pub open spec fn signature(body: Seq<char>) -> Seq<char> {
        "fn hash<__H: ::core::hash::Hasher>(&self, __state: &mut __H) { match self { "@ + body
            + "} }"@
    }

    /// The statement that feeds the tag of a variant; nothing for a struct.
    pub open spec fn discriminant(trait_: DeriveTraitView, data: DataView) -> Seq<char> {
        if data.type_ is Variant {
            trait_.path() + "::hash(&::core::mem::discriminant(self), __state); "@
        } else {
            Seq::empty()
        }
    }

    /// The statements that feed those of the first `count` fields that take
    /// part.
    pub open spec fn calls(trait_: DeriveTraitView, data: DataView, count: int) -> Seq<char>
        decreases count,
    {
        if count <= 0 {
            Seq::empty()
        } else if data.skips(count - 1, trait_.trait_) {
            Hash::calls(trait_, data, count - 1)
        } else {
            Hash::calls(trait_, data, count - 1) + trait_.path() + "::hash("@ + data.fields[count
                - 1].binding("__"@) + ", __state); "@
        }
    }

    /// The arm of the `match` for one body.
    pub open spec fn body(trait_: DeriveTraitView, data: DataView) -> Seq<char> {
        data.self_pattern() + " => { "@ + Hash::discriminant(trait_, data) + Hash::calls(
            trait_,
            data,
            data.fields.len() as int,
        ) + "} "@
    }

    /// The name of the trait.
    pub fn as_str(&self) -> (name: &'static str)
        ensures
            name@ == Trait::Hash.name(),
    {
        "Hash"
    }

    /// The trait as it is requested without options.
    pub fn default_derive_trait(&self) -> (derive: DeriveTrait)
        ensures
            derive@ == DeriveTraitView::plain(Trait::Hash),
    {
        DeriveTrait::new(Trait::Hash)
    }

    /// Whether fields can be left out.
    pub fn supports_skip(&self) -> (supported: bool)
        ensures
            supported == Trait::Hash.skippable(),
    {
        true
    }

    /// Writes the method `hash` around the arms of its `match`.
    pub fn build_signature(&self, _item: &Item, _trait_: &DeriveTrait, body: &str) -> (code: String)
        ensures
            code@ == Hash::signature(body@),
    {
        let mut code = String::from_str(
            "fn hash<__H: ::core::hash::Hasher>(&self, __state: &mut __H) { match self { ",
        );
        code.append(body);
        code.append("} }");
        code
    }

    /// Writes the arm of the `match` for one body. A union has no such arm.
    pub fn build_body(&self, trait_: &DeriveTrait, data: &Data) -> (code: String)
        requires
            !(data@.simple_type() is Union),
        ensures
            code@ == Hash::body(trait_@, data@),
    {
        let path = trait_.path();
        let mut code = data.self_pattern();
        code.append(" => { ");
        let mut discriminant = String::new();
        if let DataType::Variant { .. } = data.type_ {
            discriminant.append(path.as_str());
            discriminant.append("::hash(&::core::mem::discriminant(self), __state); ");
        }
        code.append(discriminant.as_str());
        let mut calls = String::new();
        let mut i: usize = 0;
        while i < data.fields.len()
            invariant
                i <= data.fields@.len(),
                path@ == trait_@.path(),
                calls@ == Hash::calls(trait_@, data@, i as int),
            decreases data.fields@.len() - i,
        {
            if !data.skip(i, trait_.trait_) {
                let binding = data.fields[i].binding("__");
                calls.append(path.as_str());
                calls.append("::hash(");
                calls.append(binding.as_str());
                calls.append(", __state); ");
            }
            i += 1;
        }
        code.append(calls.as_str());
        code.append("} ");
        code
    }
}

} // verus!
