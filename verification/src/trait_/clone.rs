//! The implementation of `Clone`.

use crate::code::separator;
use crate::data::{Data, DataView, SimpleType};
use crate::input::{Item, ItemView};
use crate::trait_::{DeriveTrait, DeriveTraitView, Trait};
use vstd::prelude::*;
use vstd::string::StringExecFns;

verus! {

/// Writes implementations of `Clone`: every field is cloned, and a union is
/// copied as a whole.
pub struct Clone;

impl Clone {
    /// The method `clone` around the arms of its `match`; for a union, a copy
    /// of the whole behind a proof to the compiler that the union is `Copy`.
    pub open spec fn signature(item: ItemView, body: Seq<char>) -> Seq<char> {
        if item.is_union() {
            "#[inline] fn clone(&self) -> Self { struct __AssertCopy<__T: ::core::marker::Copy + ?::core::marker::Sized>(::core::marker::PhantomData<__T>); let _: __AssertCopy<Self>; *self }"@
        } else {
            "#[inline] fn clone(&self) -> Self { match self { "@ + body + "} }"@
        }
    }

    /// The clones of the first `count` fields, separated by commas.
    pub open spec fn clones(trait_: DeriveTraitView, data: DataView, named: bool, count: int)
        -> Seq<char>
        decreases count,
    {
        if count <= 0 {
            Seq::empty()
        } else {
            Clone::clones(
                trait_,
                data,
                named,
                count - 1,
            ) + separator(count - 1) + data.fields[count - 1].label(named) + trait_.path() + "::clone("@ + data.fields[count - 1].binding("__"@) + ")"@
        }
    }

    /// The arm of the `match` for one body; nothing for a union.
    pub open spec fn body(trait_: DeriveTraitView, data: DataView) -> Seq<char> {
        let count = data.fields.len() as int;
        match data.simple_type() {
            SimpleType::Struct => data.self_pattern() + " => "@ + data.path + " { "@
                + Clone::clones(trait_, data, true, count) + " }, "@,
            SimpleType::Tuple => data.self_pattern() + " => "@ + data.path + "("@ + Clone::clones(
                trait_,
                data,
                false,
                count,
            ) + "), "@,
            SimpleType::Unit => data.self_pattern() + " => "@ + data.path + ", "@,
            SimpleType::Union => Seq::empty(),
        }
    }

    /// The name of the trait.
    pub fn as_str(&self) -> (name: &'static str)
        ensures
            name@ == Trait::Clone.name(),
    {
        "Clone"
    }

    /// The trait as it is requested without options.
    pub fn default_derive_trait(&self) -> (derive: DeriveTrait)
        ensures
            derive@ == DeriveTraitView::plain(Trait::Clone),
    {
        DeriveTrait::new(Trait::Clone)
    }

    /// Whether fields can be left out.
    pub fn supports_skip(&self) -> (supported: bool)
        ensures
            supported == Trait::Clone.skippable(),
    {
        false
    }

    /// Writes the method `clone` around the arms of its `match`.
    pub fn build_signature(&self, item: &Item, _trait_: &DeriveTrait, body: &str) -> (code: String)
        ensures
            code@ == Clone::signature(item@, body@),
    {
        if item.is_union() {
            String::from_str(
                "#[inline] fn clone(&self) -> Self { struct __AssertCopy<__T: ::core::marker::Copy + ?::core::marker::Sized>(::core::marker::PhantomData<__T>); let _: __AssertCopy<Self>; *self }",
            )
        } else {
            let mut code = String::from_str("#[inline] fn clone(&self) -> Self { match self { ");
            code.append(body);
            code.append("} }");
            code
        }
    }

    fn write_clones(trait_: &DeriveTrait, data: &Data, named: bool) -> (code: String)
        ensures
            code@ == Clone::clones(trait_@, data@, named, data@.fields.len() as int),
    {
        let path = trait_.path();
        let mut code = String::new();
        let mut i: usize = 0;
        while i < data.fields.len()
            invariant
                i <= data.fields@.len(),
                path@ == trait_@.path(),
                code@ == Clone::clones(trait_@, data@, named, i as int),
            decreases data.fields@.len() - i,
        {
            if i > 0 {
                code.append(", ");
            }
            if named {
                let member = data.fields[i].member_text();
                code.append(member.as_str());
                code.append(": ");
            }
            let binding = data.fields[i].binding("__");
            code.append(path.as_str());
            code.append("::clone(");
            code.append(binding.as_str());
            code.append(")");
            i += 1;
        }
        code
    }

    /// Writes the arm of the `match` for one body.
    pub fn build_body(&self, trait_: &DeriveTrait, data: &Data) -> (code: String)
        ensures
            code@ == Clone::body(trait_@, data@),
    {
        match data.simple_type() {
            SimpleType::Struct => {
                let clones = Clone::write_clones(trait_, data, true);
                let mut code = data.self_pattern();
                code.append(" => ");
                code.append(data.path.as_str());
                code.append(" { ");
                code.append(clones.as_str());
                code.append(" }, ");
                code
            },
            SimpleType::Tuple => {
                let clones = Clone::write_clones(trait_, data, false);
                let mut code = data.self_pattern();
                code.append(" => ");
                code.append(data.path.as_str());
                code.append("(");
                code.append(clones.as_str());
                code.append("), ");
                code
            },
            SimpleType::Unit => {
                let mut code = data.self_pattern();
                code.append(" => ");
                code.append(data.path.as_str());
                code.append(", ");
                code
            },
            SimpleType::Union => String::new(),
        }
    }
}

} // verus!
