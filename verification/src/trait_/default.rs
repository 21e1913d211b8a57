//! The implementation of `Default`.

use crate::code::separator;
use crate::data::{Data, DataView, SimpleType};
use crate::input::Item;
use crate::trait_::{DeriveTrait, DeriveTraitView, Trait};
use vstd::prelude::*;
use vstd::string::StringExecFns;

verus! {

/// Writes implementations of `Default`: the struct, or the variant marked
/// `default`, with the default of every field.
pub struct Default;

impl Default {
    /// The function `default` around the expression that it returns.
    pub open spec fn signature(body: Seq<char>) -> Seq<char> {
        "fn default() -> Self { "@ + body + "}"@
    }

    /// The defaults of the first `count` fields, separated by commas.
    pub open spec fn defaults(trait_: DeriveTraitView, data: DataView, named: bool, count: int)
        -> Seq<char>
        decreases count,
    {
        if count <= 0 {
            Seq::empty()
        } else {
            Default::defaults(trait_, data, named, count - 1) + separator(count - 1)
                + data.fields[count - 1].label(named) + trait_.path() + "::default()"@
        }
    }

    /// The expression that constructs the body, where `Default` constructs it;
    /// else nothing.
    pub open spec fn body(trait_: DeriveTraitView, data: DataView) -> Seq<char> {
        let count = data.fields.len() as int;
        if data.is_default() {
            match data.simple_type() {
                SimpleType::Struct | SimpleType::Union => data.path + " { "@ + Default::defaults(
                    trait_,
                    data,
                    true,
                    count,
                ) + " } "@,
                SimpleType::Tuple => data.path + "("@ + Default::defaults(
                    trait_,
                    data,
                    false,
                    count,
                ) + ") "@,
                SimpleType::Unit => data.path + " "@,
            }
        } else {
            Seq::empty()
        }
    }

    /// The name of the trait.
    pub fn as_str(&self) -> (name: &'static str)
        ensures
            name@ == Trait::Default.name(),
    {
        "Default"
    }

    /// The trait as it is requested without options.
    pub fn default_derive_trait(&self) -> (derive: DeriveTrait)
        ensures
            derive@ == DeriveTraitView::plain(Trait::Default),
    {
        DeriveTrait::new(Trait::Default)
    }

    /// Whether fields can be left out.
    pub fn supports_skip(&self) -> (supported: bool)
        ensures
            supported == Trait::Default.skippable(),
    {
        false
    }

    /// Writes the function `default` around the expression that it returns.
    pub fn build_signature(&self, _item: &Item, _trait_: &DeriveTrait, body: &str) -> (code: String)
        ensures
            code@ == Default::signature(body@),
    {
        let mut code = String::from_str("fn default() -> Self { ");
        code.append(body);
        code.append("}");
        code
    }

    fn write_defaults(trait_: &DeriveTrait, data: &Data, named: bool) -> (code: String)
        ensures
            code@ == Default::defaults(trait_@, data@, named, data@.fields.len() as int),
    {
        let path = trait_.path();
        let mut code = String::new();
        let mut i: usize = 0;
        while i < data.fields.len()
            invariant
                i <= data.fields@.len(),
                path@ == trait_@.path(),
                code@ == Default::defaults(trait_@, data@, named, i as int),
            decreases data.fields@.len() - i,
        {
            if i > 0 {
                code.append(", ");
            }
            if named {
                let member = data.fields[i].member_text();
                code.append(member.as_str());
                code.append(": ");
            }
            code.append(path.as_str());
            code.append("::default()");
            i += 1;
        }
        code
    }

    /// Writes the expression that constructs the body, where `Default`
    /// constructs it. A union has no such expression.
    pub fn build_body(&self, trait_: &DeriveTrait, data: &Data) -> (code: String)
        requires
            !(data@.simple_type() is Union),
        ensures
            code@ == Default::body(trait_@, data@),
    {
        if !data.is_default() {
            return String::new();
        }
        let mut code = data.path.clone();
        match data.simple_type() {
            SimpleType::Struct | SimpleType::Union => {
                let defaults = Default::write_defaults(trait_, data, true);
                code.append(" { ");
                code.append(defaults.as_str());
                code.append(" } ");
            },
            SimpleType::Tuple => {
                let defaults = Default::write_defaults(trait_, data, false);
                code.append("(");
                code.append(defaults.as_str());
                code.append(") ");
            },
            SimpleType::Unit => {
                code.append(" ");
            },
        }
        code
    }
}

} // verus!
