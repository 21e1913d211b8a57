//! What the implementations of `Ord` and `PartialOrd` share.

use crate::data::{Data, DataView};
use crate::input::{Item, ItemView};
use crate::trait_::{DeriveTrait, DeriveTraitView, Policy, Trait};
use vstd::prelude::*;
use vstd::string::StringExecFns;

verus! {

/// The outcome of a comparison.
#[derive(Clone, Copy, Debug, PartialEq, Eq, Structural)]
pub enum Order {
    Less,
    Equal,
    Greater,
}

impl Order {
    /// How a value of the variant at position `own` stands to a value of the
    /// variant at position `other`: the variant declared first is less.
    pub open spec fn of_positions(own: int, other: int) -> Order {
        if own < other {
            Order::Less
        } else if own == other {
            Order::Equal
        } else {
            Order::Greater
        }
    }

    /// The entry of the table of variant pairs for a value of the variant at
    /// position `own` against one of the variant at position `other`, which is
    /// another: greater than the variants declared before its own, less than the
    /// others.
    pub open spec fn in_table(own: int, other: int) -> Order {
        if other < own {
            Order::Greater
        } else {
            Order::Less
        }
    }

    /// The outcome with the two sides exchanged.
    pub open spec fn reversed(self) -> Order {
        match self {
            Order::Less => Order::Greater,
            Order::Equal => Order::Equal,
            Order::Greater => Order::Less,
        }
    }

    /// The table of variant pairs orders two different variants as their
    /// positions do.
    pub proof fn lemma_table_follows_positions(own: int, other: int)
        requires
            own != other,
        ensures
            Order::in_table(own, other) == Order::of_positions(own, other),
    {
    }

    /// The name of the outcome.
    pub open spec fn name(self) -> Seq<char> {
        match self {
            Order::Less => "Less"@,
            Order::Equal => "Equal"@,
            Order::Greater => "Greater"@,
        }
    }

    /// The expression for the outcome as the trait's method returns it.
    pub open spec fn expression(self, trait_: Trait) -> Seq<char> {
        if trait_ == Trait::PartialOrd {
            "::core::option::Option::Some(::core::cmp::Ordering::"@ + self.name() + ")"@
        } else {
            "::core::cmp::Ordering::"@ + self.name()
        }
    }

    /// The entry of the table of variant pairs for a value of the variant at
    /// position `own` against one of the variant at position `other`.
    pub fn table_entry(own: usize, other: usize) -> (order: Order)
        ensures
            order == Order::in_table(own as int, other as int),
    {
        if other < own {
            Order::Greater
        } else {
            Order::Less
        }
    }

    /// How a value of the variant at position `own` stands to a value of the
    /// variant at position `other`.
    pub fn from_positions(own: usize, other: usize) -> (order: Order)
        ensures
            order == Order::of_positions(own as int, other as int),
    {
        if own < other {
            Order::Less
        } else if own == other {
            Order::Equal
        } else {
            Order::Greater
        }
    }

    /// Writes the expression for the outcome as the trait's method returns it.
    pub fn write(&self, trait_: Trait) -> (code: String)
        ensures
            code@ == self.expression(trait_),
    {
        let name = match self {
            Order::Less => "Less",
            Order::Equal => "Equal",
            Order::Greater => "Greater",
        };
        match trait_ {
            Trait::PartialOrd => {
                let mut code = String::from_str(
                    "::core::option::Option::Some(::core::cmp::Ordering::",
                );
                code.append(name);
                code.append(")");
                code
            },
            _ => {
                let mut code = String::from_str("::core::cmp::Ordering::");
                code.append(name);
                code
            },
        }
    }
}

/// The name of the method that compares.
pub open spec fn method(trait_: Trait) -> Seq<char> {
    if trait_ == Trait::PartialOrd {
        "partial_cmp"@
    } else {
        "cmp"@
    }
}

/// The head of the method that compares.
pub open spec fn head(trait_: Trait) -> Seq<char> {
    if trait_ == Trait::PartialOrd {
        "#[inline] fn partial_cmp(&self, __other: &Self) -> ::core::option::Option<::core::cmp::Ordering> { "@
    } else {
        "#[inline] fn cmp(&self, __other: &Self) -> ::core::cmp::Ordering { "@
    }
}

/// The arms that order a value of the variant at position `own` against those
/// of the first `count` variants that are not its own.
pub open spec fn row(bodies: Seq<DataView>, trait_: Trait, own: int, count: int) -> Seq<char>
    decreases count,
{
    if count <= 0 {
        Seq::empty()
    } else if count - 1 == own {
        row(bodies, trait_, own, count - 1)
    } else {
        row(bodies, trait_, own, count - 1) + bodies[count - 1].other_pattern() + " => "@
            + Order::in_table(own, count - 1).expression(trait_) + ", "@
    }
}

/// The table that orders values of different variants, pair by pair: the arms
/// for the first `count` variants.
pub open spec fn table(bodies: Seq<DataView>, trait_: Trait, count: int) -> Seq<char>
    decreases count,
{
    if count <= 0 {
        Seq::empty()
    } else {
        table(bodies, trait_, count - 1) + bodies[count - 1].self_pattern()
            + " => match __other { "@ + row(bodies, trait_, count - 1, bodies.len() as int)
            + "_ => ::core::unreachable!(\"comparing variants yielded unexpected results\"), }, "@
    }
}

/// The expression that orders two values of different variants: by the tags
/// as integers, or by the table.
pub open spec fn tag_order(item: ItemView, trait_: DeriveTraitView, policy: Policy) -> Seq<char> {
    match policy {
        Policy::Fast => trait_.path() + "::"@ + method(trait_.trait_)
            + "(&unsafe { ::core::mem::transmute::<_, isize>(__self_disc) }, &unsafe { ::core::mem::transmute::<_, isize>(__other_disc) }, ) "@,
        Policy::Nightly => trait_.path() + "::"@ + method(trait_.trait_)
            + "(&__self_disc, &__other_disc) "@,
        Policy::Safe => "match self { "@ + table(
            item.bodies(),
            trait_.trait_,
            item.bodies().len() as int,
        ) + "} "@,
    }
}

/// What the fall-through arm returns: equality where some body has no field
/// that takes part, else the arm cannot be reached.
pub open spec fn rest(item: ItemView, trait_: DeriveTraitView, policy: Policy) -> Seq<char> {
    if item.any_empty(trait_.trait_) {
        Order::Equal.expression(trait_.trait_)
    } else {
        policy.unreachable()
    }
}

/// The method that compares, around the arms of its `match`. Where values can
/// differ in their variant, the tags decide first.
pub open spec fn signature(item: ItemView, trait_: DeriveTraitView, body: Seq<char>, policy: Policy)
    -> Seq<char> {
    if item.has_tags() {
        head(trait_.trait_) + policy.discriminants()
            + "if __self_disc == __other_disc { match (self, __other) { "@ + body + "_ => "@
            + rest(item, trait_, policy) + ", } } else { "@ + tag_order(item, trait_, policy)
            + "} }"@
    } else if item.is_empty(trait_.trait_) {
        head(trait_.trait_) + Order::Equal.expression(trait_.trait_) + " }"@
    } else {
        head(trait_.trait_) + "match (self, __other) { "@ + body + "} }"@
    }
}

/// The comparison of the fields from position `from` on that take part: the
/// first one that is not equal decides.
pub open spec fn chain(trait_: DeriveTraitView, data: DataView, from: int) -> Seq<char>
    decreases data.fields.len() - from,
{
    if from >= data.fields.len() || from < 0 {
        Order::Equal.expression(trait_.trait_)
    } else if data.skips(from, trait_.trait_) {
        chain(trait_, data, from + 1)
    } else {
        "match "@ + trait_.path() + "::"@ + method(trait_.trait_) + "("@ + data.fields[from].binding(
            "__"@,
        ) + ", "@ + data.fields[from].binding("__other_"@) + ") { "@ + Order::Equal.expression(
            trait_.trait_,
        ) + " => "@ + chain(trait_, data, from + 1) + ", __cmp => __cmp, }"@
    }
}

/// The arm of the `match` for two values of one body; nothing where no field
/// takes part.
pub open spec fn body(trait_: DeriveTraitView, data: DataView) -> Seq<char> {
    if data.is_empty(trait_.trait_) {
        Seq::empty()
    } else {
        "("@ + data.self_pattern() + ", "@ + data.other_pattern() + ") => "@ + chain(
            trait_,
            data,
            0,
        ) + ", "@
    }
}

fn write_method(trait_: Trait) -> (name: &'static str)
    ensures
        name@ == method(trait_),
{
    match trait_ {
        Trait::PartialOrd => "partial_cmp",
        _ => "cmp",
    }
}

fn write_head(trait_: Trait) -> (code: String)
    ensures
        code@ == head(trait_),
{
    match trait_ {
        Trait::PartialOrd => String::from_str(
            "#[inline] fn partial_cmp(&self, __other: &Self) -> ::core::option::Option<::core::cmp::Ordering> { ",
        ),
        _ => String::from_str(
            "#[inline] fn cmp(&self, __other: &Self) -> ::core::cmp::Ordering { ",
        ),
    }
}

fn write_row(item: &Item, trait_: Trait, own: usize) -> (code: String)
    ensures
        code@ == row(item@.bodies(), trait_, own as int, item@.bodies().len() as int),
{
    let mut code = String::new();
    let mut j: usize = 0;
    while j < item.count()
        invariant
            j <= item@.bodies().len(),
            code@ == row(item@.bodies(), trait_, own as int, j as int),
        decreases item@.bodies().len() - j,
    {
        if j != own {
            let pattern = item.body(j).other_pattern();
            let order = Order::table_entry(own, j).write(trait_);
            code.append(pattern.as_str());
            code.append(" => ");
            code.append(order.as_str());
            code.append(", ");
        }
        j += 1;
    }
    code
}

fn write_table(item: &Item, trait_: Trait) -> (code: String)
    ensures
        code@ == table(item@.bodies(), trait_, item@.bodies().len() as int),
{
    let mut code = String::new();
    let mut i: usize = 0;
    while i < item.count()
        invariant
            i <= item@.bodies().len(),
            code@ == table(item@.bodies(), trait_, i as int),
        decreases item@.bodies().len() - i,
    {
        let pattern = item.body(i).self_pattern();
        let arms = write_row(item, trait_, i);
        code.append(pattern.as_str());
        code.append(" => match __other { ");
        code.append(arms.as_str());
        code.append(
            "_ => ::core::unreachable!(\"comparing variants yielded unexpected results\"), }, ",
        );
        i += 1;
    }
    code
}

fn write_tag_order(item: &Item, trait_: &DeriveTrait, policy: Policy) -> (code: String)
    ensures
        code@ == tag_order(item@, trait_@, policy),
{
    match policy {
        Policy::Fast => {
            let mut code = trait_.path();
            code.append("::");
            code.append(write_method(trait_.trait_));
            code.append(
                "(&unsafe { ::core::mem::transmute::<_, isize>(__self_disc) }, &unsafe { ::core::mem::transmute::<_, isize>(__other_disc) }, ) ",
            );
            code
        },
        Policy::Nightly => {
            let mut code = trait_.path();
            code.append("::");
            code.append(write_method(trait_.trait_));
            code.append("(&__self_disc, &__other_disc) ");
            code
        },
        Policy::Safe => {
            let arms = write_table(item, trait_.trait_);
            let mut code = String::from_str("match self { ");
            code.append(arms.as_str());
            code.append("} ");
            code
        },
    }
}

/// Writes the method that compares, around the arms of its `match`.
pub fn build_ord_signature(item: &Item, trait_: &DeriveTrait, body: &str, policy: Policy) -> (code:
    String)
    ensures
        code@ == signature(item@, trait_@, body@, policy),
{
    let mut code = write_head(trait_.trait_);
    if item.has_tags() {
        let rest = if item.any_empty(trait_.trait_) {
            Order::Equal.write(trait_.trait_)
        } else {
            String::from_str(policy.unreachable_code())
        };
        let tags = write_tag_order(item, trait_, policy);
        code.append(policy.discriminants_code());
        code.append("if __self_disc == __other_disc { match (self, __other) { ");
        code.append(body);
        code.append("_ => ");
        code.append(rest.as_str());
        code.append(", } } else { ");
        code.append(tags.as_str());
        code.append("} }");
    } else if item.is_empty(trait_.trait_) {
        let equal = Order::Equal.write(trait_.trait_);
        code.append(equal.as_str());
        code.append(" }");
    } else {
        code.append("match (self, __other) { ");
        code.append(body);
        code.append("} }");
    }
    code
}

/// Writes the arm of the `match` for two values of one body. A union has no
/// such arm.
pub fn build_ord_body(trait_: &DeriveTrait, data: &Data) -> (code: String)
    requires
        !(data@.simple_type() is Union),
    ensures
        code@ == body(trait_@, data@),
{
    if data.is_empty(trait_.trait_) {
        return String::new();
    }
    let path = trait_.path();
    let equal = Order::Equal.write(trait_.trait_);
    let mut inner = Order::Equal.write(trait_.trait_);
    let mut i: usize = data.fields.len();
    while i > 0
        invariant
            i <= data.fields@.len(),
            path@ == trait_@.path(),
            equal@ == Order::Equal.expression(trait_@.trait_),
            inner@ == chain(trait_@, data@, i as int),
        decreases i,
    {
        i -= 1;
        if !data.skip(i, trait_.trait_) {
            let own = data.fields[i].binding("__");
            let other = data.fields[i].binding("__other_");
            let mut outer = String::from_str("match ");
            outer.append(path.as_str());
            outer.append("::");
            outer.append(write_method(trait_.trait_));
            outer.append("(");
            outer.append(own.as_str());
            outer.append(", ");
            outer.append(other.as_str());
            outer.append(") { ");
            outer.append(equal.as_str());
            outer.append(" => ");
            outer.append(inner.as_str());
            outer.append(", __cmp => __cmp, }");
            inner = outer;
        }
    }
    let own = data.self_pattern();
    let other = data.other_pattern();
    let mut code = String::from_str("(");
    code.append(own.as_str());
    code.append(", ");
    code.append(other.as_str());
    code.append(") => ");
    code.append(inner.as_str());
    code.append(", ");
    code
}

} // verus!
