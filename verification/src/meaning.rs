//! What the written implementations compute. The meaning is given for values
//! whose fields are integers: a field stands for whatever its own type's
//! implementation makes of it. The tests compile code that the library has
//! written and hold what it computes against this module.

use crate::code::{decimal, decimal_string, unraw, unraw_str};
use crate::data::{Data, DataType, DataView, SimpleType};
use crate::attr::derive_where::any_implements;
use crate::input::{InputView, Item, ItemView};
use crate::span::Span;
use crate::syntax;
use crate::trait_::common_ord::Order;
use crate::trait_::{Catalogue, Policy, Trait, Verdict};
use vstd::prelude::*;
use vstd::string::StringExecFns;

verus! {

/// A value of an item: the position of its variant, which is 0 for a struct,
/// and its fields in the order of their declaration.
#[derive(Debug)]
pub struct Value {
    pub variant: usize,
    pub fields: Vec<i64>,
}

/// A value as a mathematical value.
pub struct ValueView {
    pub variant: int,
    pub fields: Seq<i64>,
}

impl View for Value {
    type V = ValueView;

    open spec fn view(&self) -> ValueView {
        ValueView { variant: self.variant as int, fields: self.fields@ }
    }
}

/// What `hash` feeds into the hasher in one step.
#[derive(Clone, Copy, Debug, PartialEq, Eq, Structural)]
pub enum Fed {
    /// The tag of the variant at the given position.
    Tag(usize),
    /// A field.
    Field(i64),
}

/// Whether the value is one of the item: its variant exists and it has the
/// fields of that variant.
pub open spec fn inhabits(item: ItemView, value: ValueView) -> bool {
    0 <= value.variant < item.bodies().len() && value.fields.len()
        == item.bodies()[value.variant].fields.len()
}

/// Whether two values of one body agree in those of their first `count` fields
/// that take part in the implementation of the trait.
pub open spec fn fields_equal(data: DataView, trait_: Trait, a: Seq<i64>, b: Seq<i64>, count: int)
    -> bool
    decreases count,
{
    count <= 0 || (fields_equal(data, trait_, a, b, count - 1) && (data.skips(count - 1, trait_)
        || a[count - 1] == b[count - 1]))
}

/// What `eq` returns: whether the values are of one variant and agree in the
/// fields that take part.
pub open spec fn equal(item: ItemView, a: ValueView, b: ValueView) -> bool {
    a.variant == b.variant && fields_equal(
        item.bodies()[a.variant],
        Trait::PartialEq,
        a.fields,
        b.fields,
        a.fields.len() as int,
    )
}

/// What `hash` feeds for those of the first `count` fields that take part.
pub open spec fn fed_fields(data: DataView, a: Seq<i64>, count: int) -> Seq<Fed>
    decreases count,
{
    if count <= 0 {
        Seq::empty()
    } else if data.skips(count - 1, Trait::Hash) {
        fed_fields(data, a, count - 1)
    } else {
        fed_fields(data, a, count - 1).push(Fed::Field(a[count - 1]))
    }
}

/// What `hash` feeds first: the tag of a variant; nothing for a struct.
pub open spec fn fed_tag(data: DataView, variant: int) -> Seq<Fed> {
    if data.type_ is Variant {
        seq![Fed::Tag(variant as usize)]
    } else {
        Seq::empty()
    }
}

/// What `hash` feeds into the hasher, in order.
pub open spec fn fed(item: ItemView, a: ValueView) -> Seq<Fed> {
    let data = item.bodies()[a.variant];
    fed_tag(data, a.variant) + fed_fields(data, a.fields, a.fields.len() as int)
}

/// How two values of one body are ordered by their fields from position `from`
/// on: the first field that takes part and differs decides.
pub open spec fn fields_order(data: DataView, trait_: Trait, a: Seq<i64>, b: Seq<i64>, from: int)
    -> Order
    decreases a.len() - from,
{
    if from >= a.len() || from < 0 {
        Order::Equal
    } else if data.skips(from, trait_) {
        fields_order(data, trait_, a, b, from + 1)
    } else if a[from] < b[from] {
        Order::Less
    } else if a[from] > b[from] {
        Order::Greater
    } else {
        fields_order(data, trait_, a, b, from + 1)
    }
}

/// How values of the variants at two different positions are ordered.
pub open spec fn tags_order(policy: Policy, own: int, other: int) -> Order {
    match policy {
        Policy::Fast | Policy::Nightly => Order::of_positions(own, other),
        Policy::Safe => Order::in_table(own, other),
    }
}

/// What `cmp` returns, and `partial_cmp` inside `Some`: the variants decide
/// first, then the fields that take part in the implementation of the trait.
pub open spec fn ordered(item: ItemView, trait_: Trait, policy: Policy, a: ValueView, b: ValueView)
    -> Order {
    if a.variant != b.variant {
        tags_order(policy, a.variant, b.variant)
    } else {
        fields_order(item.bodies()[a.variant], trait_, a.fields, b.fields, 0)
    }
}

/// The position of the first among the first `count` bodies that `Default`
/// constructs, if there is one.
pub open spec fn default_position(bodies: Seq<DataView>, count: int) -> Option<int>
    decreases count,
{
    if count <= 0 {
        None
    } else {
        match default_position(bodies, count - 1) {
            Some(position) => Some(position),
            None => if bodies[count - 1].is_default() {
                Some(count - 1)
            } else {
                None
            },
        }
    }
}

/// What `default` returns: the body that `Default` constructs, with the
/// default of every field, which is 0 for an integer.
pub open spec fn default_value(item: ItemView) -> Option<ValueView> {
    match default_position(item.bodies(), item.bodies().len() as int) {
        Some(position) => Some(
            ValueView {
                variant: position,
                fields: Seq::new(item.bodies()[position].fields.len(), |index: int| 0i64),
            },
        ),
        None => None,
    }
}

/// What `clone` returns: the value itself, field for field.
pub open spec fn cloned(a: ValueView) -> ValueView {
    a
}

/// What is left of a value once `zeroize`, or the `drop` of `ZeroizeOnDrop`,
/// has run: the fields that take part in the implementation of the trait are
/// zero, the others as they were.
pub open spec fn cleared(item: ItemView, trait_: Trait, a: ValueView) -> ValueView {
    ValueView {
        variant: a.variant,
        fields: Seq::new(
            a.fields.len(),
            |index: int|
                if item.bodies()[a.variant].skips(index, trait_) {
                    a.fields[index]
                } else {
                    0i64
                },
        ),
    }
}

/// The numeral of an integer.
pub open spec fn numeral(value: int) -> Seq<char> {
    if value < 0 {
        "-"@ + decimal((-value) as nat)
    } else {
        decimal(value as nat)
    }
}

/// What `fmt` writes for those of the first `count` fields that take part:
/// each with its name where fields are named, with a comma between neighbours.
pub open spec fn shown_fields(data: DataView, a: Seq<i64>, named: bool, count: int) -> Seq<char>
    decreases count,
{
    if count <= 0 {
        Seq::empty()
    } else if data.skips(count - 1, Trait::Debug) {
        shown_fields(data, a, named, count - 1)
    } else {
        let comma = if data.included(Trait::Debug, count - 1).len() > 0 {
            ", "@
        } else {
            Seq::empty()
        };
        let label = if named {
            unraw(data.fields[count - 1].member_text()) + ": "@
        } else {
            Seq::empty()
        };
        shown_fields(data, a, named, count - 1) + comma + label + numeral(a[count - 1] as int)
    }
}

/// What `fmt` writes: the name of the struct or variant, and behind it the
/// fields that take part, in braces or in parentheses; the name alone where no
/// field takes part.
pub open spec fn shown(item: ItemView, a: ValueView) -> Seq<char> {
    let data = item.bodies()[a.variant];
    let named = !(data.simple_type() is Tuple);
    let fields = shown_fields(data, a.fields, named, a.fields.len() as int);
    let name = unraw(data.ident);
    if data.included(Trait::Debug, a.fields.len() as int).len() == 0 {
        name
    } else if named {
        name + " { "@ + fields + " }"@
    } else {
        name + "("@ + fields + ")"@
    }
}

/// `eq` looks at the fields that take part in `PartialEq`, as its code does, and
/// at no others.
pub proof fn lemma_equal_looks_at_included(
    data: DataView,
    trait_: Trait,
    a: Seq<i64>,
    b: Seq<i64>,
    count: int,
)
    ensures
        fields_equal(data, trait_, a, b, count) <==> forall|place: int|
            0 <= place < data.included(trait_, count).len() ==> a[#[trigger] data.included(
                trait_,
                count,
            )[place]] == b[data.included(trait_, count)[place]],
    decreases count,
{
    if count > 0 {
        lemma_equal_looks_at_included(data, trait_, a, b, count - 1);
        let before = data.included(trait_, count - 1);
        let now = data.included(trait_, count);
        if !data.skips(count - 1, trait_) {
            assert(now[now.len() - 1] == count - 1);
            assert forall|place: int| 0 <= place < before.len() implies now[place]
                == before[place] by {}
            if fields_equal(data, trait_, a, b, count) {
                assert forall|place: int| 0 <= place < now.len() implies a[#[trigger] now[place]]
                    == b[now[place]] by {
                    if place < before.len() {
                        assert(now[place] == before[place]);
                    }
                }
            }
            if forall|place: int| 0 <= place < now.len() ==> a[#[trigger] now[place]] == b[now[place]] {
                assert forall|place: int| 0 <= place < before.len() implies a[
                #[trigger] before[place]] == b[before[place]] by {
                    assert(now[place] == before[place]);
                }
            }
        }
    }
}

/// `hash` feeds the fields that take part in `Hash`, as its code does, in the
/// order of their declaration.
pub proof fn lemma_fed_are_included(data: DataView, a: Seq<i64>, count: int)
    ensures
        fed_fields(data, a, count).len() == data.included(Trait::Hash, count).len(),
        forall|place: int|
            0 <= place < data.included(Trait::Hash, count).len() ==> #[trigger] fed_fields(
                data,
                a,
                count,
            )[place] == Fed::Field(a[data.included(Trait::Hash, count)[place]]),
    decreases count,
{
    if count > 0 {
        lemma_fed_are_included(data, a, count - 1);
    }
}

/// Values that `eq` calls equal are fed to the hasher alike, where `Hash` skips
/// every field that `PartialEq` skips.
pub proof fn lemma_equal_values_feed_alike(item: ItemView, a: ValueView, b: ValueView)
    requires
        inhabits(item, a),
        inhabits(item, b),
        forall|index: int|
            0 <= index < item.bodies()[a.variant].fields.len()
                && #[trigger] item.bodies()[a.variant].skips(index, Trait::PartialEq)
                ==> item.bodies()[a.variant].skips(index, Trait::Hash),
        equal(item, a, b),
    ensures
        fed(item, a) == fed(item, b),
{
    lemma_equal_fields_feed_alike(
        item.bodies()[a.variant],
        a.fields,
        b.fields,
        a.fields.len() as int,
    );
}

/// Fields that agree where `PartialEq` looks are fed alike, where `Hash` skips
/// every field that `PartialEq` skips.
pub proof fn lemma_equal_fields_feed_alike(data: DataView, a: Seq<i64>, b: Seq<i64>, count: int)
    requires
        count <= data.fields.len(),
        forall|index: int|
            0 <= index < data.fields.len() && #[trigger] data.skips(index, Trait::PartialEq)
                ==> data.skips(index, Trait::Hash),
        fields_equal(data, Trait::PartialEq, a, b, count),
    ensures
        fed_fields(data, a, count) == fed_fields(data, b, count),
    decreases count,
{
    if count > 0 {
        lemma_equal_fields_feed_alike(data, a, b, count - 1);
        if !data.skips(count - 1, Trait::Hash) {
            assert(!data.skips(count - 1, Trait::PartialEq));
        }
    }
}

/// Values of different variants are never equal, whatever is skipped.
pub proof fn lemma_tags_dominate(item: ItemView, a: ValueView, b: ValueView)
    requires
        a.variant != b.variant,
    ensures
        !equal(item, a, b),
{
}

/// A value is equal to itself, in the order of either trait and under either
/// policy.
pub proof fn lemma_ordered_reflexive(item: ItemView, trait_: Trait, policy: Policy, a: ValueView)
    ensures
        ordered(item, trait_, policy, a, a) == Order::Equal,
{
    lemma_fields_order_reflexive(item.bodies()[a.variant], trait_, a.fields, 0);
}

/// A sequence of fields is equal to itself.
pub proof fn lemma_fields_order_reflexive(data: DataView, trait_: Trait, a: Seq<i64>, from: int)
    ensures
        fields_order(data, trait_, a, a, from) == Order::Equal,
    decreases a.len() - from,
{
    if 0 <= from < a.len() {
        lemma_fields_order_reflexive(data, trait_, a, from + 1);
    }
}

/// Exchanging the two values reverses the outcome.
pub proof fn lemma_ordered_antisymmetric(
    item: ItemView,
    trait_: Trait,
    policy: Policy,
    a: ValueView,
    b: ValueView,
)
    requires
        a.variant == b.variant ==> a.fields.len() == b.fields.len(),
    ensures
        ordered(item, trait_, policy, b, a) == ordered(item, trait_, policy, a, b).reversed(),
{
    if a.variant == b.variant {
        lemma_fields_order_antisymmetric(item.bodies()[a.variant], trait_, a.fields, b.fields, 0);
    }
}

/// Exchanging two sequences of fields reverses the outcome.
pub proof fn lemma_fields_order_antisymmetric(
    data: DataView,
    trait_: Trait,
    a: Seq<i64>,
    b: Seq<i64>,
    from: int,
)
    requires
        a.len() == b.len(),
    ensures
        fields_order(data, trait_, b, a, from) == fields_order(data, trait_, a, b, from).reversed(),
    decreases a.len() - from,
{
    if 0 <= from < a.len() {
        lemma_fields_order_antisymmetric(data, trait_, a, b, from + 1);
    }
}

/// The order is transitive: from `a` not above `b` and `b` not above `c`
/// follows `a` not above `c`, and `a` is below `c` where one of the two steps
/// is strict.
pub proof fn lemma_ordered_transitive(
    item: ItemView,
    trait_: Trait,
    policy: Policy,
    a: ValueView,
    b: ValueView,
    c: ValueView,
)
    requires
        a.variant == b.variant ==> a.fields.len() == b.fields.len(),
        b.variant == c.variant ==> b.fields.len() == c.fields.len(),
        ordered(item, trait_, policy, a, b) != Order::Greater,
        ordered(item, trait_, policy, b, c) != Order::Greater,
    ensures
        ordered(item, trait_, policy, a, c) != Order::Greater,
        ordered(item, trait_, policy, a, b) == Order::Less || ordered(item, trait_, policy, b, c)
            == Order::Less ==> ordered(item, trait_, policy, a, c) == Order::Less,
{
    if a.variant == b.variant && b.variant == c.variant {
        lemma_fields_order_transitive(
            item.bodies()[a.variant],
            trait_,
            a.fields,
            b.fields,
            c.fields,
            0,
        );
    }
}

/// The order of sequences of fields is transitive.
pub proof fn lemma_fields_order_transitive(
    data: DataView,
    trait_: Trait,
    a: Seq<i64>,
    b: Seq<i64>,
    c: Seq<i64>,
    from: int,
)
    requires
        a.len() == b.len(),
        b.len() == c.len(),
        fields_order(data, trait_, a, b, from) != Order::Greater,
        fields_order(data, trait_, b, c, from) != Order::Greater,
    ensures
        fields_order(data, trait_, a, c, from) != Order::Greater,
        fields_order(data, trait_, a, b, from) == Order::Less || fields_order(
            data,
            trait_,
            b,
            c,
            from,
        ) == Order::Less ==> fields_order(data, trait_, a, c, from) == Order::Less,
    decreases a.len() - from,
{
    if 0 <= from < a.len() {
        if data.skips(from, trait_) || (a[from] == b[from] && b[from] == c[from]) {
            lemma_fields_order_transitive(data, trait_, a, b, c, from + 1);
        }
    }
}

/// The first fields agree where each of them is skipped or the same in both
/// values.
pub proof fn lemma_fields_equal_each(
    data: DataView,
    trait_: Trait,
    a: Seq<i64>,
    b: Seq<i64>,
    count: int,
)
    ensures
        fields_equal(data, trait_, a, b, count) <==> forall|index: int|
            0 <= index < count ==> #[trigger] data.skips(index, trait_) || a[index] == b[index],
    decreases count,
{
    if count > 0 {
        lemma_fields_equal_each(data, trait_, a, b, count - 1);
    }
}

/// The fields from a position on are ordered as equal where each of them is
/// skipped or the same in both values.
pub proof fn lemma_fields_order_equal_each(
    data: DataView,
    trait_: Trait,
    a: Seq<i64>,
    b: Seq<i64>,
    from: int,
)
    requires
        0 <= from,
    ensures
        fields_order(data, trait_, a, b, from) == Order::Equal <==> forall|index: int|
            from <= index < a.len() ==> #[trigger] data.skips(index, trait_) || a[index]
                == b[index],
    decreases a.len() - from,
{
    if from < a.len() {
        lemma_fields_order_equal_each(data, trait_, a, b, from + 1);
    }
}

/// Two values are ordered as equal exactly where they are of one variant and
/// agree in the fields that take part in the order: under the same exclusions,
/// `cmp` gives `Equal` where `eq` gives `true`.
pub proof fn lemma_ordered_equal_where_fields_agree(
    item: ItemView,
    trait_: Trait,
    policy: Policy,
    a: ValueView,
    b: ValueView,
)
    ensures
        ordered(item, trait_, policy, a, b) == Order::Equal <==> a.variant == b.variant
            && fields_equal(
            item.bodies()[a.variant],
            trait_,
            a.fields,
            b.fields,
            a.fields.len() as int,
        ),
{
    let data = item.bodies()[a.variant];
    lemma_fields_equal_each(data, trait_, a.fields, b.fields, a.fields.len() as int);
    lemma_fields_order_equal_each(data, trait_, a.fields, b.fields, 0);
}

/// All ways of ordering variants give the same order: the table of pairs
/// agrees with the tags read as integers.
pub proof fn lemma_policies_agree(
    item: ItemView,
    trait_: Trait,
    policy: Policy,
    other: Policy,
    a: ValueView,
    b: ValueView,
)
    ensures
        ordered(item, trait_, policy, a, b) == ordered(item, trait_, other, a, b),
{
}

/// Whether the value is one of the item.
pub fn is_value_of(item: &Item, value: &Value) -> (fits: bool)
    ensures
        fits == inhabits(item@, value@),
{
    value.variant < item.count() && value.fields.len() == item.body(value.variant).fields.len()
}

/// Computes what `eq` returns for two values of the item.
#[verifier::loop_isolation(false)]
pub fn eq(item: &Item, a: &Value, b: &Value) -> (same: bool)
    requires
        inhabits(item@, a@),
        inhabits(item@, b@),
    ensures
        same == equal(item@, a@, b@),
{
    if a.variant != b.variant {
        return false;
    }
    let data = item.body(a.variant);
    let mut i: usize = 0;
    while i < a.fields.len()
        invariant
            i <= a.fields@.len(),
            a.fields@.len() == data@.fields.len(),
            b.fields@.len() == data@.fields.len(),
            fields_equal(data@, Trait::PartialEq, a.fields@, b.fields@, i as int),
        decreases a.fields@.len() - i,
    {
        if !data.skip(i, Trait::PartialEq) && a.fields[i] != b.fields[i] {
            assert(!fields_equal(data@, Trait::PartialEq, a.fields@, b.fields@, i as int + 1));
            proof {
                lemma_fields_differ(
                    data@,
                    Trait::PartialEq,
                    a.fields@,
                    b.fields@,
                    i as int + 1,
                    a.fields@.len() as int,
                );
            }
            return false;
        }
        i += 1;
    }
    true
}

/// Fields that differ among the first ones differ among all.
pub proof fn lemma_fields_differ(
    data: DataView,
    trait_: Trait,
    a: Seq<i64>,
    b: Seq<i64>,
    count: int,
    more: int,
)
    requires
        count <= more,
        !fields_equal(data, trait_, a, b, count),
    ensures
        !fields_equal(data, trait_, a, b, more),
    decreases more - count,
{
    if count < more {
        lemma_fields_differ(data, trait_, a, b, count, more - 1);
    }
}

/// Computes what `hash` feeds into the hasher for a value of the item.
pub fn hash(item: &Item, a: &Value) -> (feed: Vec<Fed>)
    requires
        inhabits(item@, a@),
    ensures
        feed@ == fed(item@, a@),
{
    let data = item.body(a.variant);
    let mut feed: Vec<Fed> = Vec::new();
    if let DataType::Variant { .. } = data.type_ {
        feed.push(Fed::Tag(a.variant));
    }
    assert(feed@ =~= fed_tag(data@, a.variant as int));
    let mut i: usize = 0;
    while i < a.fields.len()
        invariant
            i <= a.fields@.len(),
            a.fields@.len() == data@.fields.len(),
            feed@ == fed_tag(data@, a.variant as int) + fed_fields(data@, a.fields@, i as int),
        decreases a.fields@.len() - i,
    {
        if !data.skip(i, Trait::Hash) {
            feed.push(Fed::Field(a.fields[i]));
        }
        i += 1;
    }
    feed
}

fn order_fields(data: &Data, trait_: Trait, a: &Vec<i64>, b: &Vec<i64>) -> (order:
    Order)
    requires
        a@.len() == data@.fields.len(),
        b@.len() == data@.fields.len(),
    ensures
        order == fields_order(data@, trait_, a@, b@, 0),
{
    let mut order = Order::Equal;
    let mut i: usize = a.len();
    while i > 0
        invariant
            i <= a@.len(),
            a@.len() == data@.fields.len(),
            b@.len() == data@.fields.len(),
            order == fields_order(data@, trait_, a@, b@, i as int),
        decreases i,
    {
        i -= 1;
        if !data.skip(i, trait_) {
            if a[i] < b[i] {
                order = Order::Less;
            } else if a[i] > b[i] {
                order = Order::Greater;
            }
        }
    }
    order
}

fn order_values(item: &Item, trait_: Trait, policy: Policy, a: &Value, b: &Value) -> (order: Order)
    requires
        inhabits(item@, a@),
        inhabits(item@, b@),
    ensures
        order == ordered(item@, trait_, policy, a@, b@),
{
    if a.variant != b.variant {
        match policy {
            Policy::Fast | Policy::Nightly => Order::from_positions(a.variant, b.variant),
            Policy::Safe => Order::table_entry(a.variant, b.variant),
        }
    } else {
        order_fields(item.body(a.variant), trait_, &a.fields, &b.fields)
    }
}

/// Computes what the method of `Ord` returns for two values of the item.
pub fn compare(item: &Item, policy: Policy, a: &Value, b: &Value) -> (order: Order)
    requires
        inhabits(item@, a@),
        inhabits(item@, b@),
    ensures
        order == ordered(item@, Trait::Ord, policy, a@, b@),
{
    order_values(item, Trait::Ord, policy, a, b)
}

/// Computes what the method of `PartialOrd` returns for two values of the
/// item. Integers are always comparable.
pub fn partial_compare(item: &Item, policy: Policy, a: &Value, b: &Value) -> (order: Option<
    Order,
>)
    requires
        inhabits(item@, a@),
        inhabits(item@, b@),
    ensures
        order == Some(ordered(item@, Trait::PartialOrd, policy, a@, b@)),
{
    Some(order_values(item, Trait::PartialOrd, policy, a, b))
}

/// Computes what `default` returns for the item, where `Default` constructs
/// one of its bodies.
pub fn default(item: &Item) -> (value: Option<Value>)
    ensures
        match value {
            Some(value) => default_value(item@) == Some(value@),
            None => default_value(item@) is None,
        },
{
    let mut i: usize = 0;
    while i < item.count()
        invariant
            i <= item@.bodies().len(),
            default_position(item@.bodies(), i as int) is None,
        decreases item@.bodies().len() - i,
    {
        let data = item.body(i);
        if data.is_default() {
            let mut fields: Vec<i64> = Vec::new();
            let mut j: usize = 0;
            while j < data.fields.len()
                invariant
                    j <= data.fields@.len(),
                    fields@ == Seq::new(j as nat, |index: int| 0i64),
                decreases data.fields@.len() - j,
            {
                fields.push(0);
                assert(fields@ =~= Seq::new((j + 1) as nat, |index: int| 0i64));
                j += 1;
            }
            proof {
                assert(default_position(item@.bodies(), i as int + 1) == Some(i as int));
                lemma_default_position_stays(
                    item@.bodies(),
                    i as int + 1,
                    item@.bodies().len() as int,
                );
            }
            return Some(Value { variant: i, fields });
        }
        i += 1;
    }
    None
}

/// No body is found among bodies of which `Default` constructs none.
pub proof fn lemma_default_position_none(bodies: Seq<DataView>, count: int)
    requires
        forall|other: int| 0 <= other < count ==> !(#[trigger] bodies[other]).is_default(),
    ensures
        default_position(bodies, count) is None,
    decreases count,
{
    if count > 0 {
        lemma_default_position_none(bodies, count - 1);
    }
}

/// `default` returns the first body that `Default` constructs, with every
/// field at its default.
pub proof fn lemma_default_value(item: ItemView, position: int)
    requires
        0 <= position < item.bodies().len(),
        item.bodies()[position].is_default(),
        forall|other: int| 0 <= other < position ==> !(#[trigger] item.bodies()[other]).is_default(),
    ensures
        default_value(item) == Some(
            ValueView {
                variant: position,
                fields: Seq::new(item.bodies()[position].fields.len(), |index: int| 0i64),
            },
        ),
{
    lemma_default_position_none(item.bodies(), position);
    assert(default_position(item.bodies(), position + 1) == Some(position));
    lemma_default_position_stays(item.bodies(), position + 1, item.bodies().len() as int);
}

/// For an enum that is accepted and for which `Default` is asked for,
/// `default` returns the one variant that is marked `default`, with every field
/// at its default.
pub proof fn lemma_default_of_accepted_enum(
    span: Span,
    input: syntax::DeriveInput,
    verdicts: Seq<Seq<Verdict>>,
    catalogue: Catalogue,
)
    ensures
        InputView::read(
            span,
            input,
            verdicts,
            catalogue,
        ) matches Ok(parsed) ==> (parsed.item matches ItemView::Enum {
            variants,
            ..
        } ==> any_implements(parsed.derive_wheres, Trait::Default) ==> exists|position: int|
            0 <= position < variants.len() && #[trigger] ItemView::marked(variants, position)
                && default_value(parsed.item) == Some(
                ValueView {
                    variant: position,
                    fields: Seq::new(variants[position].fields.len(), |index: int| 0i64),
                },
            )),
{
    match InputView::read(span, input, verdicts, catalogue) {
        Ok(parsed) => {
            match parsed.item {
                ItemView::Enum { variants, .. } => {
                    if any_implements(parsed.derive_wheres, Trait::Default) {
                        InputView::lemma_read_one_default(span, input, verdicts, catalogue);
                        let position = choose|position: int|
                            0 <= position < variants.len() && #[trigger] ItemView::marked(
                                variants,
                                position,
                            ) && forall|other: int|
                                0 <= other < variants.len() && other != position
                                    ==> !#[trigger] ItemView::marked(variants, other);
                        assert forall|other: int| 0 <= other < position implies !(
                        #[trigger] parsed.item.bodies()[other]).is_default() by {
                            assert(!ItemView::marked(variants, other));
                            InputView::lemma_read_variants(span, input, verdicts, catalogue);
                        }
                        lemma_default_value(parsed.item, position);
                    }
                },
                _ => {},
            }
        },
        Err(_) => {},
    }
}

/// The first body that `Default` constructs among some of the bodies is the
/// first among all.
pub proof fn lemma_default_position_stays(bodies: Seq<DataView>, count: int, more: int)
    requires
        count <= more,
        default_position(bodies, count) is Some,
    ensures
        default_position(bodies, more) == default_position(bodies, count),
    decreases more - count,
{
    if count < more {
        lemma_default_position_stays(bodies, count, more - 1);
    }
}

/// Computes what `clone` returns for a value.
pub fn clone(a: &Value) -> (copy: Value)
    ensures
        copy@ == cloned(a@),
{
    let mut fields: Vec<i64> = Vec::new();
    let mut i: usize = 0;
    while i < a.fields.len()
        invariant
            i <= a.fields@.len(),
            fields@ == a.fields@.take(i as int),
        decreases a.fields@.len() - i,
    {
        fields.push(a.fields[i]);
        assert(fields@ =~= a.fields@.take(i as int + 1));
        i += 1;
    }
    assert(fields@ =~= a.fields@);
    Value { variant: a.variant, fields }
}

/// Computes what `zeroize`, or the `drop` of `ZeroizeOnDrop`, leaves of a
/// value of the item.
pub fn clear(item: &Item, trait_: Trait, a: &Value) -> (left: Value)
    requires
        inhabits(item@, a@),
    ensures
        left@ == cleared(item@, trait_, a@),
{
    let data = item.body(a.variant);
    let mut fields: Vec<i64> = Vec::new();
    let mut i: usize = 0;
    while i < a.fields.len()
        invariant
            i <= a.fields@.len(),
            a.fields@.len() == data@.fields.len(),
            fields@ == cleared(item@, trait_, a@).fields.take(i as int),
            data@ == item@.bodies()[a@.variant],
        decreases a.fields@.len() - i,
    {
        if data.skip(i, trait_) {
            fields.push(a.fields[i]);
        } else {
            fields.push(0);
        }
        assert(fields@ =~= cleared(item@, trait_, a@).fields.take(i as int + 1));
        i += 1;
    }
    assert(fields@ =~= cleared(item@, trait_, a@).fields);
    Value { variant: a.variant, fields }
}

fn numeral_string(value: i64) -> (text: String)
    ensures
        text@ == numeral(value as int),
{
    if value < 0 {
        let magnitude: u64 = ((-(value + 1)) as u64) + 1;
        let digits = decimal_string(magnitude);
        let mut text = String::from_str("-");
        text.append(digits.as_str());
        text
    } else {
        decimal_string(value as u64)
    }
}

/// Computes what `fmt` writes for a value of the item.
pub fn debug(item: &Item, a: &Value) -> (text: String)
    requires
        inhabits(item@, a@),
    ensures
        text@ == shown(item@, a@),
{
    let data = item.body(a.variant);
    let named = match data.simple_type() {
        SimpleType::Tuple => false,
        _ => true,
    };
    let mut fields = String::new();
    let mut any = false;
    let mut i: usize = 0;
    while i < a.fields.len()
        invariant
            i <= a.fields@.len(),
            a.fields@.len() == data@.fields.len(),
            any == (data@.included(Trait::Debug, i as int).len() > 0),
            fields@ == shown_fields(data@, a.fields@, named, i as int),
        decreases a.fields@.len() - i,
    {
        if !data.skip(i, Trait::Debug) {
            if any {
                fields.append(", ");
            }
            if named {
                let member = data.fields[i].member_text();
                fields.append(unraw_str(member.as_str()));
                fields.append(": ");
            }
            let value = numeral_string(a.fields[i]);
            fields.append(value.as_str());
            any = true;
        }
        i += 1;
    }
    let mut text = String::from_str(unraw_str(data.ident.as_str()));
    if any {
        if named {
            text.append(" { ");
            text.append(fields.as_str());
            text.append(" }");
        } else {
            text.append("(");
            text.append(fields.as_str());
            text.append(")");
        }
    }
    text
}

} // verus!
