//! The implementation of `PartialEq`.

use crate::data::{Data, DataView};
use crate::input::{Item, ItemView};
use crate::trait_::{DeriveTrait, DeriveTraitView, Policy, Trait};
use vstd::prelude::*;
use vstd::string::StringExecFns;

verus! {

/// Writes implementations of `PartialEq`: values of different variants are
/// never equal; values of one variant are equal where all the fields that take
/// part are.
pub struct PartialEq;

impl PartialEq {
    /// What the fall-through arm returns: `true` where some body has no field
    /// that takes part, else the arm cannot be reached.
    pub open spec fn rest(item: ItemView, trait_: DeriveTraitView, policy: Policy) -> Seq<char> {
        if item.any_empty(trait_.trait_) {
            "true"@
        } else {
            policy.unreachable()
        }
    }

    /// The method `eq` around the arms of its `match`. Where values can differ
    /// in their variant, the tags are compared first, whatever is skipped.
    pub open spec fn signature(
        item: ItemView,
        trait_: DeriveTraitView,
        body: Seq<char>,
        policy: Policy,
    ) -> Seq<char> {
        if item.has_tags() {
            "#[inline] fn eq(&self, __other: &Self) -> bool { if ::core::mem::discriminant(self) == ::core::mem::discriminant(__other) { match (self, __other) { "@
                + body + "_ => "@ + PartialEq::rest(item, trait_, policy)
                + ", } } else { false } }"@
        } else if item.is_empty(trait_.trait_) {
            "#[inline] fn eq(&self, __other: &Self) -> bool { true }"@
        } else {
            "#[inline] fn eq(&self, __other: &Self) -> bool { match (self, __other) { "@ + body
                + "} }"@
        }
    }

    /// The comparisons of those of the first `count` fields that take part, each
    /// behind `&&`.
    pub open spec fn tests(trait_: DeriveTraitView, data: DataView, count: int) -> Seq<char>
        decreases count,
    {
        if count <= 0 {
            Seq::empty()
        } else if data.skips(count - 1, trait_.trait_) {
            PartialEq::tests(trait_, data, count - 1)
        } else {
            PartialEq::tests(trait_, data, count - 1) + " && "@ + trait_.path() + "::eq("@
                + data.fields[count - 1].binding("__"@) + ", "@ + data.fields[count - 1].binding(
                "__other_"@,
            ) + ")"@
        }
    }

    /// The arm of the `match` for two values of one body; nothing where no field
    /// takes part.
    pub open spec fn body(trait_: DeriveTraitView, data: DataView) -> Seq<char> {
        if data.is_empty(trait_.trait_) {
            Seq::empty()
        } else {
            "("@ + data.self_pattern() + ", "@ + data.other_pattern() + ") => true"@
                + PartialEq::tests(trait_, data, data.fields.len() as int) + ", "@
        }
    }

    /// The name of the trait.
    pub fn as_str(&self) -> (name: &'static str)
        ensures
            name@ == Trait::PartialEq.name(),
    {
        "PartialEq"
    }

    /// The trait as it is requested without options.
    pub fn default_derive_trait(&self) -> (derive: DeriveTrait)
        ensures
            derive@ == DeriveTraitView::plain(Trait::PartialEq),
    {
        DeriveTrait::new(Trait::PartialEq)
    }

    /// Whether fields can be left out.
    pub fn supports_skip(&self) -> (supported: bool)
        ensures
            supported == Trait::PartialEq.skippable(),
    {
        true
    }

    /// Writes the method `eq` around the arms of its `match`.
    pub fn build_signature(&self, item: &Item, trait_: &DeriveTrait, body: &str, policy: Policy)
        -> (code: String)
        ensures
            code@ == PartialEq::signature(item@, trait_@, body@, policy),
    {
        if item.has_tags() {
            let mut code = String::from_str(
                "#[inline] fn eq(&self, __other: &Self) -> bool { if ::core::mem::discriminant(self) == ::core::mem::discriminant(__other) { match (self, __other) { ",
            );
            code.append(body);
            code.append("_ => ");
            if item.any_empty(trait_.trait_) {
                code.append("true");
            } else {
                code.append(policy.unreachable_code());
            }
            code.append(", } } else { false } }");
            code
        } else if item.is_empty(trait_.trait_) {
            String::from_str("#[inline] fn eq(&self, __other: &Self) -> bool { true }")
        } else {
            let mut code = String::from_str(
                "#[inline] fn eq(&self, __other: &Self) -> bool { match (self, __other) { ",
            );
            code.append(body);
            code.append("} }");
            code
        }
    }

    /// Writes the arm of the `match` for two values of one body. A union has no
    /// such arm.
    pub fn build_body(&self, trait_: &DeriveTrait, data: &Data) -> (code: String)
        requires
            !(data@.simple_type() is Union),
        ensures
            code@ == PartialEq::body(trait_@, data@),
    {
        if data.is_empty(trait_.trait_) {
            return String::new();
        }
        let path = trait_.path();
        let mut tests = String::new();
        let mut i: usize = 0;
        while i < data.fields.len()
            invariant
                i <= data.fields@.len(),
                path@ == trait_@.path(),
                tests@ == PartialEq::tests(trait_@, data@, i as int),
            decreases data.fields@.len() - i,
        {
            if !data.skip(i, trait_.trait_) {
                let own = data.fields[i].binding("__");
                let other = data.fields[i].binding("__other_");
                tests.append(" && ");
                tests.append(path.as_str());
                tests.append("::eq(");
                tests.append(own.as_str());
                tests.append(", ");
                tests.append(other.as_str());
                tests.append(")");
            }
            i += 1;
        }
        let own = data.self_pattern();
        let other = data.other_pattern();
        let mut code = String::from_str("(");
        code.append(own.as_str());
        code.append(", ");
        code.append(other.as_str());
        code.append(") => true");
        code.append(tests.as_str());
        code.append(", ");
        code
    }
}

} // verus!
