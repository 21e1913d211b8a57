//! Synthesis of implementations of the standard traits for a user's type, with
//! generic bounds that the user chooses: none unless a bound clause names them.
//!
//! The standard `derive` binds every generic parameter of a type by the trait
//! that it implements. Here an attribute lists the traits and, behind a
//! semicolon, the bounds: `#[derive_where(Clone, Debug; T)]` implements both
//! traits for every `T: Clone` or `T: Debug`, and `#[derive_where(Clone)]` for
//! every `T` whatsoever. Further options leave fields out of a trait
//! (`skip`, `skip_inner`), choose the variant that `Default` constructs
//! (`default`), and steer the traits of the crate `zeroize`, which belong to
//! the catalogue only where the build asks for them
//! ([`trait_::Catalogue`]).
//!
//! The work is done in three steps, each a function of values:
//!
//! - [`syntax`] is the item as its reader hands it over, with the attributes
//!   in structured form and a [`span::Span`] for every place that a complaint
//!   may point at;
//! - [`input::Input::parse`] accepts the item or refuses it with the first
//!   [`error::Error`], and describes what is to be written ([`attr`],
//!   [`data`]);
//! - [`derive_where_internal`] writes the `impl` blocks as text, one trait of
//!   the catalogue in [`trait_`] after the other.
//!
//! [`meaning`] says what the written methods compute, and holds the laws that
//! they obey: equal values are hashed alike, values of different variants are
//! never equal, and the order is total whichever way the variants are compared.

pub mod attr;
pub mod code;
pub mod data;
pub mod error;
pub mod input;
pub mod meaning;
pub mod span;
pub mod syntax;
pub mod trait_;
pub mod views;

use crate::attr::derive_where::{DeriveWhere, DeriveWhereView};
use crate::data::DataView;
use crate::error::{outcome_view, Error, ErrorView};
use crate::input::{Input, InputView, Item, ItemView};
use crate::span::Span;
use crate::syntax::{DeriveInput, Generics};
use crate::trait_::{Catalogue, DeriveTrait, DeriveTraitView, Policy, Verdict};
use vstd::prelude::*;
use vstd::string::StringExecFns;

verus! {

/// What the first `count` bodies add to the method of the trait.
pub open spec fn bodies_code(trait_: DeriveTraitView, bodies: Seq<DataView>, count: int) -> Seq<
    char,
>
    decreases count,
{
    if count <= 0 {
        Seq::empty()
    } else {
        bodies_code(trait_, bodies, count - 1) + trait_.body(bodies[count - 1])
    }
}

/// The content of the `impl` block of the trait for the item.
pub open spec fn body_code(trait_: DeriveTraitView, item: ItemView, policy: Policy) -> Seq<char> {
    trait_.signature(
        item,
        bodies_code(trait_, item.bodies(), item.bodies().len() as int),
        policy,
    )
}

/// An `impl` block of the trait at `path` for the type named `ident`.
pub open spec fn impl_block(
    generics: Generics,
    path: Seq<char>,
    ident: Seq<char>,
    where_clause: Seq<char>,
    content: Seq<char>,
) -> Seq<char> {
    "impl"@ + generics.impl_generics@ + " "@ + path + " for "@ + ident + generics.type_generics@
        + " "@ + where_clause + "{ "@ + content + " } "@
}

/// The `impl` blocks of one trait of one attribute: the trait's own, and the
/// second one where the trait brings one. Both carry the `where` clause of the
/// attribute.
pub open spec fn impl_code(
    derive_where: DeriveWhereView,
    trait_: DeriveTraitView,
    item: ItemView,
    generics: Generics,
    policy: Policy,
) -> Seq<char> {
    let where_clause = derive_where.where_clause(trait_, generics);
    impl_block(
        generics,
        trait_.impl_path(),
        item.ident(),
        where_clause,
        body_code(trait_, item, policy),
    ) + match trait_.additional() {
        Some((path, content)) => impl_block(generics, path, item.ident(), where_clause, content),
        None => Seq::empty(),
    }
}

/// The `impl` blocks of the first `count` traits of one attribute.
pub open spec fn entry_code(
    derive_where: DeriveWhereView,
    item: ItemView,
    generics: Generics,
    policy: Policy,
    count: int,
) -> Seq<char>
    decreases count,
{
    if count <= 0 {
        Seq::empty()
    } else {
        entry_code(derive_where, item, generics, policy, count - 1) + impl_code(
            derive_where,
            derive_where.traits[count - 1],
            item,
            generics,
            policy,
        )
    }
}

/// The `impl` blocks of the first `count` attributes of an item.
pub open spec fn entries_code(input: InputView, policy: Policy, count: int) -> Seq<char>
    decreases count,
{
    if count <= 0 {
        Seq::empty()
    } else {
        entries_code(input, policy, count - 1) + entry_code(
            input.derive_wheres[count - 1],
            input.item,
            input.generics,
            policy,
            input.derive_wheres[count - 1].traits.len() as int,
        )
    }
}

/// Everything that is written for an item: for each attribute that lists
/// traits, in the order of the source, the `impl` blocks of its traits in the
/// order in which it lists them.
pub open spec fn expansion(input: InputView, policy: Policy) -> Seq<char> {
    entries_code(input, policy, input.derive_wheres.len() as int)
}

/// Writes the content of the `impl` block of the trait for the item.
pub fn generate_body(trait_: &DeriveTrait, item: &Item, policy: Policy) -> (code: String)
    requires
        item@.fits(trait_@.trait_),
    ensures
        code@ == body_code(trait_@, item@, policy),
{
    let mut bodies = String::new();
    let mut i: usize = 0;
    while i < item.count()
        invariant
            i <= item@.bodies().len(),
            item@.fits(trait_@.trait_),
            bodies@ == bodies_code(trait_@, item@.bodies(), i as int),
        decreases item@.bodies().len() - i,
    {
        let data = item.body(i);
        assert(item@.bodies()[i as int].simple_type() is Union ==> trait_@.trait_.for_unions());
        let body = trait_.build_body(data);
        bodies.append(body.as_str());
        i += 1;
    }
    trait_.build_signature(item, bodies.as_str(), policy)
}

fn write_impl_block(
    generics: &Generics,
    path: &str,
    ident: &str,
    where_clause: &str,
    content: &str,
) -> (code: String)
    ensures
        code@ == impl_block(*generics, path@, ident@, where_clause@, content@),
{
    let mut code = String::from_str("impl");
    code.append(generics.impl_generics.as_str());
    code.append(" ");
    code.append(path);
    code.append(" for ");
    code.append(ident);
    code.append(generics.type_generics.as_str());
    code.append(" ");
    code.append(where_clause);
    code.append("{ ");
    code.append(content);
    code.append(" } ");
    code
}

/// Writes the `impl` blocks of one trait of one attribute.
pub fn generate_impl(
    derive_where: &DeriveWhere,
    trait_: &DeriveTrait,
    item: &Item,
    generics: &Generics,
    policy: Policy,
) -> (code: String)
    requires
        item@.fits(trait_@.trait_),
    ensures
        code@ == impl_code(derive_where@, trait_@, item@, *generics, policy),
{
    let where_clause = derive_where.where_clause(trait_, generics);
    let body = generate_body(trait_, item, policy);
    let ident = item.ident();
    let path = trait_.impl_path();
    let mut code = write_impl_block(
        generics,
        path.as_str(),
        ident.as_str(),
        where_clause.as_str(),
        body.as_str(),
    );
    let mut second = String::new();
    if let Some((path, content)) = trait_.additional_impl() {
        second =
        write_impl_block(
            generics,
            path.as_str(),
            ident.as_str(),
            where_clause.as_str(),
            content.as_str(),
        );
    }
    code.append(second.as_str());
    code
}

/// Writes everything for an accepted item.
#[verifier::loop_isolation(false)]
pub fn generate(input: &Input, policy: Policy) -> (code: String)
    requires
        input@.fits(),
    ensures
        code@ == expansion(input@, policy),
{
    let mut code = String::new();
    let mut i: usize = 0;
    while i < input.derive_wheres.len()
        invariant
            i <= input.derive_wheres@.len(),
            code@ == entries_code(input@, policy, i as int),
        decreases input.derive_wheres@.len() - i,
    {
        let derive_where = &input.derive_wheres[i];
        assert(derive_where@ == input@.derive_wheres[i as int]);
        let mut entry = String::new();
        let mut j: usize = 0;
        while j < derive_where.traits.len()
            invariant
                j <= derive_where.traits@.len(),
                entry@ == entry_code(derive_where@, input@.item, *input.generics, policy, j as int),
            decreases derive_where.traits@.len() - j,
        {
            let trait_ = &derive_where.traits[j];
            assert(trait_@ == input@.derive_wheres[i as int].traits[j as int]);
            let block = generate_impl(derive_where, trait_, &input.item, input.generics, policy);
            entry.append(block.as_str());
            j += 1;
        }
        code.append(entry.as_str());
        i += 1;
    }
    code
}

/// What is written for the item at `span`, or the first complaint about the
/// item. `verdicts` holds what the reader of paths said.
pub open spec fn expanded(
    span: Span,
    input: DeriveInput,
    policy: Policy,
    verdicts: Seq<Seq<Verdict>>,
    catalogue: Catalogue,
) -> Result<Seq<char>, ErrorView> {
    match InputView::read(span, input, verdicts, catalogue) {
        Ok(parsed) => Ok(expansion(parsed, policy)),
        Err(error) => Err(error),
    }
}

/// Reads the item at `span` and writes the `impl` blocks that its attributes
/// ask for. The first complaint ends the work, and nothing is written then.
/// The reader of paths is asked about the value of each first `crate` option;
/// where no attribute of the item has such an option, the item alone decides
/// what is written.
pub fn derive_where_internal(
    span: Span,
    input: &DeriveInput,
    policy: Policy,
    catalogue: Catalogue,
) -> (outcome: Result<
    String,
    Error,
>)
    ensures
        ({
            let seen = outcome_view(outcome);
            &&& exists|verdicts: Seq<Seq<Verdict>>| #[trigger]
                expanded(span, *input, policy, verdicts, catalogue) == seen
            &&& !InputView::asks(
                *input,
                catalogue,
            ) ==> expanded(span, *input, policy, Seq::empty(), catalogue) == seen
        }),
{
    let read = Input::parse_asking(span, input, catalogue);
    let outcome = match read.0 {
        Ok(parsed) => {
            proof {
                InputView::lemma_read_fits(span, *input, read.1@, catalogue);
            }
            Ok(generate(&parsed, policy))
        },
        Err(error) => Err(error),
    };
    proof {
        let seen = outcome_view(outcome);
        assert(expanded(span, *input, policy, read.1@, catalogue) == seen);
        if !InputView::asks(*input, catalogue) {
            InputView::lemma_read_unasked(span, *input, read.1@, Seq::empty(), catalogue);
        }
    }
    outcome
}

} // verus!
