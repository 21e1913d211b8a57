//! The implementation of `Debug`.

use crate::code::{unraw, unraw_str};
use crate::data::{Data, DataView, SimpleType};
use crate::input::Item;
use crate::trait_::{DeriveTrait, DeriveTraitView, Trait};
use vstd::prelude::*;
use vstd::string::StringExecFns;

verus! {

/// Writes implementations of `Debug`: the name of the struct or variant, with
/// the fields that take part; a field that is left out does not appear at all.
/// Names are shown without the prefix `r#`.
pub struct Debug;

impl Debug {
    /// The method `fmt` around the arms of its `match`.
    pub open spec fn signature(body: Seq<char>) -> Seq<char> {
        "fn fmt(&self, __f: &mut ::core::fmt::Formatter<'_>) -> ::core::fmt::Result { match self { "@
            + body + "} }"@
    }

    /// The statements that show those of the first `count` fields that take
    /// part, by name or by position.
    pub open spec fn shown(trait_: DeriveTraitView, data: DataView, named: bool, count: int) -> Seq<
        char,
    >
        decreases count,
    {
        if count <= 0 {
            Seq::empty()
        } else if data.skips(count - 1, trait_.trait_) {
            Debug::shown(trait_, data, named, count - 1)
        } else if named {
            Debug::shown(trait_, data, named, count - 1)
                + "::core::fmt::DebugStruct::field(&mut __builder, \""@ + unraw(
                data.fields[count - 1].member_text(),
            ) + "\", "@ + data.fields[count - 1].binding("__"@) + "); "@
        } else {
            Debug::shown(trait_, data, named, count - 1)
                + "::core::fmt::DebugTuple::field(&mut __builder, "@ + data.fields[count
                - 1].binding("__"@) + "); "@
        }
    }

    /// The arm of the `match` for one body.
    pub open spec fn body(trait_: DeriveTraitView, data: DataView) -> Seq<char> {
        let count = data.fields.len() as int;
        match data.simple_type() {
            SimpleType::Struct | SimpleType::Union => data.self_pattern()
                + " => { let mut __builder = ::core::fmt::Formatter::debug_struct(__f, \""@
                + unraw(data.ident) + "\"); "@ + Debug::shown(trait_, data, true, count)
                + "::core::fmt::DebugStruct::finish(&mut __builder) } "@,
            SimpleType::Tuple => data.self_pattern()
                + " => { let mut __builder = ::core::fmt::Formatter::debug_tuple(__f, \""@
                + unraw(data.ident) + "\"); "@ + Debug::shown(trait_, data, false, count)
                + "::core::fmt::DebugTuple::finish(&mut __builder) } "@,
            SimpleType::Unit => data.self_pattern() + " => ::core::fmt::Formatter::write_str(__f, \""@
                + unraw(data.ident) + "\"), "@,
        }
    }

    /// The name of the trait.
    pub fn as_str(&self) -> (name: &'static str)
        ensures
            name@ == Trait::Debug.name(),
    {
        "Debug"
    }

    /// The trait as it is requested without options.
    pub fn default_derive_trait(&self) -> (derive: DeriveTrait)
        ensures
            derive@ == DeriveTraitView::plain(Trait::Debug),
    {
        DeriveTrait::new(Trait::Debug)
    }

    /// Whether fields can be left out.
    pub fn supports_skip(&self) -> (supported: bool)
        ensures
            supported == Trait::Debug.skippable(),
    {
        true
    }

    /// Writes the method `fmt` around the arms of its `match`.
    pub fn build_signature(&self, _item: &Item, _trait_: &DeriveTrait, body: &str) -> (code: String)
        ensures
            code@ == Debug::signature(body@),
    {
        let mut code = String::from_str(
            "fn fmt(&self, __f: &mut ::core::fmt::Formatter<'_>) -> ::core::fmt::Result { match self { ",
        );
        code.append(body);
        code.append("} }");
        code
    }

    fn write_shown(trait_: &DeriveTrait, data: &Data, named: bool) -> (code: String)
        ensures
            code@ == Debug::shown(trait_@, data@, named, data@.fields.len() as int),
    {
        let mut code = String::new();
        let mut i: usize = 0;
        while i < data.fields.len()
            invariant
                i <= data.fields@.len(),
                code@ == Debug::shown(trait_@, data@, named, i as int),
            decreases data.fields@.len() - i,
        {
            if !data.skip(i, trait_.trait_) {
                let binding = data.fields[i].binding("__");
                if named {
                    let member = data.fields[i].member_text();
                    code.append("::core::fmt::DebugStruct::field(&mut __builder, \"");
                    code.append(unraw_str(member.as_str()));
                    code.append("\", ");
                    code.append(binding.as_str());
                    code.append("); ");
                } else {
                    code.append("::core::fmt::DebugTuple::field(&mut __builder, ");
                    code.append(binding.as_str());
                    code.append("); ");
                }
            }
            i += 1;
        }
        code
    }

    /// Writes the arm of the `match` for one body. A union has no such arm.
    pub fn build_body(&self, trait_: &DeriveTrait, data: &Data) -> (code: String)
        requires
            !(data@.simple_type() is Union),
        ensures
            code@ == Debug::body(trait_@, data@),
    {
        let mut code = data.self_pattern();
        match data.simple_type() {
            SimpleType::Struct | SimpleType::Union => {
                let shown = Debug::write_shown(trait_, data, true);
                code.append(
                    " => { let mut __builder = ::core::fmt::Formatter::debug_struct(__f, \"",
                );
                code.append(unraw_str(data.ident.as_str()));
                code.append("\"); ");
                code.append(shown.as_str());
                code.append("::core::fmt::DebugStruct::finish(&mut __builder) } ");
            },
            SimpleType::Tuple => {
                let shown = Debug::write_shown(trait_, data, false);
                code.append(
                    " => { let mut __builder = ::core::fmt::Formatter::debug_tuple(__f, \"",
                );
                code.append(unraw_str(data.ident.as_str()));
                code.append("\"); ");
                code.append(shown.as_str());
                code.append("::core::fmt::DebugTuple::finish(&mut __builder) } ");
            },
            SimpleType::Unit => {
                code.append(" => ::core::fmt::Formatter::write_str(__f, \"");
                code.append(unraw_str(data.ident.as_str()));
                code.append("\"), ");
            },
        }
        code
    }
}

} // verus!
