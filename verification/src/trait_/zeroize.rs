//! The implementation of `Zeroize`.

use crate::data::{Data, DataView};
use crate::input::{Item, ItemView};
use crate::trait_::{DeriveTrait, DeriveTraitView, Trait};
use vstd::prelude::*;
use vstd::string::StringExecFns;

verus! {

/// Writes implementations of `Zeroize`: every field that takes part is zeroed
/// in place, by its method or, where the field asks for it, by the trait's
/// function under its full path.
pub struct Zeroize;

impl Zeroize {
    /// The path of the trait `Zeroize` in the crate that a trait of the family
    /// names.
    pub open spec fn zeroize_path(trait_: DeriveTraitView) -> Seq<char> {
        trait_.crate_path() + "::Zeroize"@
    }

    /// The calls that zero those of the first `count` fields that take part in
    /// the implementation of the trait.
    pub open spec fn calls(trait_: DeriveTraitView, data: DataView, count: int) -> Seq<char>
        decreases count,
    {
        if count <= 0 {
            Seq::empty()
        } else if data.skips(count - 1, trait_.trait_) {
            Zeroize::calls(trait_, data, count - 1)
        } else if data.fields[count - 1].attr.zeroize_fqs.set {
            Zeroize::calls(trait_, data, count - 1) + Zeroize::zeroize_path(trait_)
                + "::zeroize("@ + data.fields[count - 1].binding("__"@) + "); "@
        } else {
            Zeroize::calls(trait_, data, count - 1) + data.fields[count - 1].binding("__"@)
                + ".zeroize(); "@
        }
    }

    /// The arm of the `match` for one body.
    pub open spec fn body(trait_: DeriveTraitView, data: DataView) -> Seq<char> {
        data.self_pattern_mut() + " => { "@ + Zeroize::calls(
            trait_,
            data,
            data.fields.len() as int,
        ) + "} "@
    }

    /// The content of a method that zeroes `self`, around the arms of its
    /// `match`; nothing where no field takes part.
    pub open spec fn content(item: ItemView, trait_: DeriveTraitView, body: Seq<char>) -> Seq<
        char,
    > {
        if item.is_empty(trait_.trait_) {
            "{ }"@
        } else {
            "{ use "@ + Zeroize::zeroize_path(trait_) + "; match self { "@ + body + "} }"@
        }
    }

    /// The method `zeroize` around the arms of its `match`.
    pub open spec fn signature(item: ItemView, trait_: DeriveTraitView, body: Seq<char>) -> Seq<
        char,
    > {
        "fn zeroize(&mut self) "@ + Zeroize::content(item, trait_, body)
    }

    /// The name of the trait.
    pub fn as_str(&self) -> (name: &'static str)
        ensures
            name@ == Trait::Zeroize.name(),
    {
        "Zeroize"
    }

    /// The trait as it is requested without options.
    pub fn default_derive_trait(&self) -> (derive: DeriveTrait)
        ensures
            derive@ == DeriveTraitView::plain(Trait::Zeroize),
    {
        DeriveTrait::new(Trait::Zeroize)
    }

    /// Whether fields can be left out.
    pub fn supports_skip(&self) -> (supported: bool)
        ensures
            supported == Trait::Zeroize.skippable(),
    {
        true
    }

    /// Writes the path of the trait `Zeroize` in the crate that a trait of the
    /// family names.
    pub fn write_zeroize_path(trait_: &DeriveTrait) -> (code: String)
        ensures
            code@ == Zeroize::zeroize_path(trait_@),
    {
        let mut code = trait_.crate_();
        code.append("::Zeroize");
        code
    }

    /// Writes the content of a method that zeroes `self`.
    pub fn write_content(item: &Item, trait_: &DeriveTrait, body: &str) -> (code: String)
        ensures
            code@ == Zeroize::content(item@, trait_@, body@),
    {
        if item.is_empty(trait_.trait_) {
            String::from_str("{ }")
        } else {
            let path = Zeroize::write_zeroize_path(trait_);
            let mut code = String::from_str("{ use ");
            code.append(path.as_str());
            code.append("; match self { ");
            code.append(body);
            code.append("} }");
            code
        }
    }

    /// Writes the method `zeroize` around the arms of its `match`.
    pub fn build_signature(&self, item: &Item, trait_: &DeriveTrait, body: &str) -> (code: String)
        ensures
            code@ == Zeroize::signature(item@, trait_@, body@),
    {
        let content = Zeroize::write_content(item, trait_, body);
        let mut code = String::from_str("fn zeroize(&mut self) ");
        code.append(content.as_str());
        code
    }

    /// Writes the arm of the `match` for one body. A union has no such arm.
    pub fn build_body(&self, trait_: &DeriveTrait, data: &Data) -> (code: String)
        requires
            !(data@.simple_type() is Union),
        ensures
            code@ == Zeroize::body(trait_@, data@),
    {
        let path = Zeroize::write_zeroize_path(trait_);
        let mut calls = String::new();
        let mut i: usize = 0;
        while i < data.fields.len()
            invariant
                i <= data.fields@.len(),
                path@ == Zeroize::zeroize_path(trait_@),
                calls@ == Zeroize::calls(trait_@, data@, i as int),
            decreases data.fields@.len() - i,
        {
            if !data.skip(i, trait_.trait_) {
                let binding = data.fields[i].binding("__");
                if data.fields[i].attr.zeroize_fqs.set {
                    calls.append(path.as_str());
                    calls.append("::zeroize(");
                    calls.append(binding.as_str());
                    calls.append("); ");
                } else {
                    calls.append(binding.as_str());
                    calls.append(".zeroize(); ");
                }
            }
            i += 1;
        }
        let mut code = data.self_pattern_mut();
        code.append(" => { ");
        code.append(calls.as_str());
        code.append("} ");
        code
    }
}

} // verus!
