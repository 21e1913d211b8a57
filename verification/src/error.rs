//! The diagnostics that end a derivation.

use crate::code::{join, joined, texts};
use crate::span::Span;
use crate::trait_::{Catalogue, Trait};
use vstd::prelude::*;
use vstd::string::StringExecFns;

verus! {

/// What a diagnostic complains about.
#[derive(Clone, Copy, Debug, PartialEq, Eq, Structural)]
pub enum ErrorKind {
    /// The item could as well use the standard `derive`.
    UnsupportedItem,
    /// A struct without a body.
    UnitStruct,
    /// A union asks for a trait other than `Clone` and `Copy`.
    UnionTrait,
    /// An attribute that could not be read; the detail is the reader's message.
    AttributeSyntax,
    /// A trait was given an option that it does not know; the detail names the trait.
    UnsupportedTraitOption,
    /// An option that is not known at this place.
    UnknownOption,
    /// A trait without options was given some; the detail names the trait.
    NoOptions,
    /// An option of the wrong form.
    OptionSyntax,
    /// A trait was named at a place where it needs an option; the detail names it.
    OptionRequired,
    /// An option was given twice; the detail names the option.
    OptionDuplicate,
    /// A constrained `skip` where an unconstrained one is already in force.
    OptionSkipAll,
    /// A `skip` names a trait twice; the detail names the trait.
    OptionSkipDuplicate,
    /// A `skip` names a trait that cannot skip fields; the detail names the trait.
    OptionSkipSupport,
    /// The value of a `crate` option is no path; the detail is the reader's message.
    PathSyntax,
    /// A trait that the catalogue does not have; the detail lists the catalogue.
    UnsupportedTrait,
    /// Something other than a trait where one is expected; the detail lists the
    /// catalogue.
    TraitSyntax,
    /// Something other than `;` or `,` after a trait.
    Delimiter,
    /// A bound that is not a bound on a type.
    UnsupportedPredicate,
    /// A bound that could not be read; the detail is the reader's message.
    GenericSyntax,
    /// A `default` marker although `Default` is not implemented.
    UnexpectedDefault,
    /// `Default` for an enum of which no variant is marked `default`.
    DefaultMissing,
    /// A second variant marked `default`.
    DefaultDuplicate,
}

/// A diagnostic: what it complains about, where, and the text it quotes.
#[derive(Debug)]
pub struct Error {
    pub kind: ErrorKind,
    pub span: Span,
    pub detail: String,
}

/// A diagnostic as a mathematical value.
pub struct ErrorView {
    pub kind: ErrorKind,
    pub span: Span,
    pub detail: Seq<char>,
}

impl View for Error {
    type V = ErrorView;

    open spec fn view(&self) -> ErrorView {
        ErrorView { kind: self.kind, span: self.span, detail: self.detail@ }
    }
}

/// The outcome of a step that yields a value or a diagnostic, as a
/// mathematical value.
pub open spec fn outcome_view<T: View>(outcome: Result<T, Error>) -> Result<T::V, ErrorView> {
    match outcome {
        Ok(value) => Ok(value@),
        Err(error) => Err(error@),
    }
}

/// The outcome of a step that changes a value in place or yields a diagnostic,
/// as a mathematical value: `after` is the value once the step succeeded.
pub open spec fn step_view<V>(outcome: Result<(), Error>, after: V) -> Result<V, ErrorView> {
    match outcome {
        Ok(()) => Ok(after),
        Err(error) => Err(error@),
    }
}

impl ErrorView {
    /// A diagnostic that quotes nothing.
    pub open spec fn plain(kind: ErrorKind, span: Span) -> ErrorView {
        ErrorView { kind, span, detail: Seq::empty() }
    }

    /// A diagnostic that quotes `detail`.
    pub open spec fn quoting(kind: ErrorKind, span: Span, detail: Seq<char>) -> ErrorView {
        ErrorView { kind, span, detail }
    }

    /// A diagnostic on a trait that quotes the list of the catalogue.
    pub open spec fn listing(kind: ErrorKind, span: Span, catalogue: Catalogue) -> ErrorView {
        ErrorView { kind, span, detail: ErrorView::trait_list(catalogue) }
    }

    /// The names of the nine traits of the standard library.
    pub open spec fn standard_traits() -> Seq<Seq<char>> {
        seq![
            Trait::Clone.name(),
            Trait::Copy.name(),
            Trait::Debug.name(),
            Trait::Default.name(),
            Trait::Eq.name(),
            Trait::Hash.name(),
            Trait::Ord.name(),
            Trait::PartialEq.name(),
            Trait::PartialOrd.name(),
        ]
    }

    /// The names listed by the diagnostics on unknown traits: the nine traits
    /// of the standard library and, where the catalogue holds it, `Zeroize`.
    pub open spec fn listed_traits(catalogue: Catalogue) -> Seq<Seq<char>> {
        match catalogue {
            Catalogue::Standard => ErrorView::standard_traits(),
            Catalogue::WithZeroize => ErrorView::standard_traits().push(Trait::Zeroize.name()),
        }
    }

    /// The list of traits as the diagnostics show it.
    pub open spec fn trait_list(catalogue: Catalogue) -> Seq<char> {
        joined(ErrorView::listed_traits(catalogue), ", "@)
    }

    /// The message shown to the user.
    pub open spec fn message(self) -> Seq<char> {
        match self.kind {
            ErrorKind::UnsupportedItem =>
                "derive-where doesn't support items without generics, `skip` attributes or `enum`s implementing `Default`, as this can already be handled by standard `#[derive(..)]`"@,
            ErrorKind::UnitStruct =>
                "derive-where doesn't support unit structs, as this can already be handled by standard `#[derive(..)]`"@,
            ErrorKind::UnionTrait => "traits other then `Clone` and `Copy` aren't supported by unions"@,
            ErrorKind::AttributeSyntax => "unexpected attribute syntax, "@ + self.detail,
            ErrorKind::UnsupportedTraitOption => "`"@ + self.detail + "` doesn't support this option"@,
            ErrorKind::UnknownOption => "unknown option"@,
            ErrorKind::NoOptions => "`"@ + self.detail + "` doesn't support any options"@,
            ErrorKind::OptionSyntax => "unexpected option syntax"@,
            ErrorKind::OptionRequired => "`"@ + self.detail + "` requires an option"@,
            ErrorKind::OptionDuplicate => "duplicate `"@ + self.detail + "` option"@,
            ErrorKind::OptionSkipAll =>
                "unexpected constraint on `skip` when unconstrained `skip` already used"@,
            ErrorKind::OptionSkipDuplicate => "duplicate `"@ + self.detail + "` constraint on `skip`"@,
            ErrorKind::OptionSkipSupport => "unsupported `"@ + self.detail + "` constraint on `skip`"@,
            ErrorKind::PathSyntax => "expected path, "@ + self.detail,
            ErrorKind::UnsupportedTrait =>
                "unsupported trait, expected one of expected one of "@ + self.detail,
            ErrorKind::TraitSyntax =>
                "unsupported trait syntax, expected one of expected one of "@ + self.detail,
            ErrorKind::Delimiter => "expected `;` or `,"@,
            ErrorKind::UnsupportedPredicate => "only type predicates are supported"@,
            ErrorKind::GenericSyntax => "expected type to bind to, "@ + self.detail,
            ErrorKind::UnexpectedDefault =>
                "`default` is only supported if `Default` is being implemented"@,
            ErrorKind::DefaultMissing =>
                "required `default` option on a variant if `Default` is being implemented"@,
            ErrorKind::DefaultDuplicate => "multiple `default` options in enum"@,
        }
    }
}

impl Error {
    fn plain(kind: ErrorKind, span: Span) -> (error: Error)
        ensures
            error@ == ErrorView::plain(kind, span),
    {
        Error { kind, span, detail: String::new() }
    }

    fn quoting(kind: ErrorKind, span: Span, detail: &str) -> (error: Error)
        ensures
            error@ == ErrorView::quoting(kind, span, detail@),
    {
        Error { kind, span, detail: String::from_str(detail) }
    }

    /// Unsupported item.
    pub fn item(span: Span) -> (error: Error)
        ensures
            error@ == ErrorView::plain(ErrorKind::UnsupportedItem, span),
    {
        Error::plain(ErrorKind::UnsupportedItem, span)
    }

    /// Unsupported unit struct.
    pub fn unit_struct(span: Span) -> (error: Error)
        ensures
            error@ == ErrorView::plain(ErrorKind::UnitStruct, span),
    {
        Error::plain(ErrorKind::UnitStruct, span)
    }

    /// Unsupported trait for a union.
    pub fn union(span: Span) -> (error: Error)
        ensures
            error@ == ErrorView::plain(ErrorKind::UnionTrait, span),
    {
        Error::plain(ErrorKind::UnionTrait, span)
    }

    /// Invalid syntax of an attribute; `parse_error` is what its reader said.
    pub fn attribute_syntax(span: Span, parse_error: &str) -> (error: Error)
        ensures
            error@ == ErrorView::quoting(ErrorKind::AttributeSyntax, span, parse_error@),
    {
        Error::quoting(ErrorKind::AttributeSyntax, span, parse_error)
    }

    /// An option that the trait `attribute` does not have.
    pub fn option_trait(span: Span, attribute: &str) -> (error: Error)
        ensures
            error@ == ErrorView::quoting(ErrorKind::UnsupportedTraitOption, span, attribute@),
    {
        Error::quoting(ErrorKind::UnsupportedTraitOption, span, attribute)
    }

    /// Unknown option.
    pub fn option(span: Span) -> (error: Error)
        ensures
            error@ == ErrorView::plain(ErrorKind::UnknownOption, span),
    {
        Error::plain(ErrorKind::UnknownOption, span)
    }

    /// Options on a trait that has none.
    pub fn options(span: Span, trait_: &str) -> (error: Error)
        ensures
            error@ == ErrorView::quoting(ErrorKind::NoOptions, span, trait_@),
    {
        Error::quoting(ErrorKind::NoOptions, span, trait_)
    }

    /// Invalid syntax of an option.
    pub fn option_syntax(span: Span) -> (error: Error)
        ensures
            error@ == ErrorView::plain(ErrorKind::OptionSyntax, span),
    {
        Error::plain(ErrorKind::OptionSyntax, span)
    }

    /// `option` needs an option of its own.
    pub fn option_required(span: Span, option: &str) -> (error: Error)
        ensures
            error@ == ErrorView::quoting(ErrorKind::OptionRequired, span, option@),
    {
        Error::quoting(ErrorKind::OptionRequired, span, option)
    }

    /// `option` was given twice.
    pub fn option_duplicate(span: Span, option: &str) -> (error: Error)
        ensures
            error@ == ErrorView::quoting(ErrorKind::OptionDuplicate, span, option@),
    {
        Error::quoting(ErrorKind::OptionDuplicate, span, option)
    }

    /// A constrained `skip` where all traits are skipped already.
    pub fn option_skip_all(span: Span) -> (error: Error)
        ensures
            error@ == ErrorView::plain(ErrorKind::OptionSkipAll, span),
    {
        Error::plain(ErrorKind::OptionSkipAll, span)
    }

    /// `trait_` constrains a `skip` twice.
    pub fn option_skip_duplicate(span: Span, trait_: &str) -> (error: Error)
        ensures
            error@ == ErrorView::quoting(ErrorKind::OptionSkipDuplicate, span, trait_@),
    {
        Error::quoting(ErrorKind::OptionSkipDuplicate, span, trait_)
    }

    /// `trait_` constrains a `skip` although it cannot skip fields.
    pub fn option_skip_support(span: Span, trait_: &str) -> (error: Error)
        ensures
            error@ == ErrorView::quoting(ErrorKind::OptionSkipSupport, span, trait_@),
    {
        Error::quoting(ErrorKind::OptionSkipSupport, span, trait_)
    }

    /// The value of a `crate` option is no path; `parse_error` is what its reader said.
    pub fn path(span: Span, parse_error: &str) -> (error: Error)
        ensures
            error@ == ErrorView::quoting(ErrorKind::PathSyntax, span, parse_error@),
    {
        Error::quoting(ErrorKind::PathSyntax, span, parse_error)
    }

    /// Unsupported trait; the message lists the traits of the catalogue.
    pub fn trait_(span: Span, catalogue: Catalogue) -> (error: Error)
        ensures
            error@ == ErrorView::listing(ErrorKind::UnsupportedTrait, span, catalogue),
    {
        let list = Error::trait_list(catalogue);
        Error::quoting(ErrorKind::UnsupportedTrait, span, list.as_str())
    }

    /// Invalid syntax where a trait is expected; the message lists the traits of
    /// the catalogue.
    pub fn trait_syntax(span: Span, catalogue: Catalogue) -> (error: Error)
        ensures
            error@ == ErrorView::listing(ErrorKind::TraitSyntax, span, catalogue),
    {
        let list = Error::trait_list(catalogue);
        Error::quoting(ErrorKind::TraitSyntax, span, list.as_str())
    }

    /// Invalid delimiter after the traits of an attribute.
    pub fn derive_where_delimiter(span: Span) -> (error: Error)
        ensures
            error@ == ErrorView::plain(ErrorKind::Delimiter, span),
    {
        Error::plain(ErrorKind::Delimiter, span)
    }

    /// A bound that is not on a type.
    pub fn generic(span: Span) -> (error: Error)
        ensures
            error@ == ErrorView::plain(ErrorKind::UnsupportedPredicate, span),
    {
        Error::plain(ErrorKind::UnsupportedPredicate, span)
    }

    /// Invalid syntax of a bound; `parse_error` is what its reader said.
    pub fn generic_syntax(span: Span, parse_error: &str) -> (error: Error)
        ensures
            error@ == ErrorView::quoting(ErrorKind::GenericSyntax, span, parse_error@),
    {
        Error::quoting(ErrorKind::GenericSyntax, span, parse_error)
    }

    /// A `default` marker although `Default` is not implemented.
    pub fn default(span: Span) -> (error: Error)
        ensures
            error@ == ErrorView::plain(ErrorKind::UnexpectedDefault, span),
    {
        Error::plain(ErrorKind::UnexpectedDefault, span)
    }

    /// No variant is marked `default` although `Default` is implemented for an enum.
    pub fn default_missing(span: Span) -> (error: Error)
        ensures
            error@ == ErrorView::plain(ErrorKind::DefaultMissing, span),
    {
        Error::plain(ErrorKind::DefaultMissing, span)
    }

    /// A second variant is marked `default`.
    pub fn default_duplicate(span: Span) -> (error: Error)
        ensures
            error@ == ErrorView::plain(ErrorKind::DefaultDuplicate, span),
    {
        Error::plain(ErrorKind::DefaultDuplicate, span)
    }

    /// The traits that the diagnostics on unknown traits list.
    pub fn trait_list(catalogue: Catalogue) -> (list: String)
        ensures
            list@ == ErrorView::trait_list(catalogue),
    {
        let mut names: Vec<String> = Vec::new();
        names.push(String::from_str(Trait::Clone.as_str()));
        names.push(String::from_str(Trait::Copy.as_str()));
        names.push(String::from_str(Trait::Debug.as_str()));
        names.push(String::from_str(Trait::Default.as_str()));
        names.push(String::from_str(Trait::Eq.as_str()));
        names.push(String::from_str(Trait::Hash.as_str()));
        names.push(String::from_str(Trait::Ord.as_str()));
        names.push(String::from_str(Trait::PartialEq.as_str()));
        names.push(String::from_str(Trait::PartialOrd.as_str()));
        assert(texts(names@) =~= ErrorView::standard_traits());
        if let Catalogue::WithZeroize = catalogue {
            names.push(String::from_str(Trait::Zeroize.as_str()));
            assert(texts(names@) =~= ErrorView::standard_traits().push(Trait::Zeroize.name()));
        }
        join(&names, ", ")
    }

    fn around(before: &str, detail: &str, after: &str) -> (text: String)
        ensures
            text@ == before@ + detail@ + after@,
    {
        let mut text = String::from_str(before);
        text.append(detail);
        text.append(after);
        text
    }

    /// The message shown to the user.
    pub fn message(&self) -> (text: String)
        ensures
            text@ == self@.message(),
    {
        let detail = self.detail.as_str();
        match self.kind {
            ErrorKind::UnsupportedItem => String::from_str(
                "derive-where doesn't support items without generics, `skip` attributes or `enum`s implementing `Default`, as this can already be handled by standard `#[derive(..)]`",
            ),
            ErrorKind::UnitStruct => String::from_str(
                "derive-where doesn't support unit structs, as this can already be handled by standard `#[derive(..)]`",
            ),
            ErrorKind::UnionTrait => String::from_str(
                "traits other then `Clone` and `Copy` aren't supported by unions",
            ),
            ErrorKind::AttributeSyntax => String::from_str("unexpected attribute syntax, ").concat(
                detail,
            ),
            ErrorKind::UnsupportedTraitOption => Error::around(
                "`",
                detail,
                "` doesn't support this option",
            ),
            ErrorKind::UnknownOption => String::from_str("unknown option"),
            ErrorKind::NoOptions => Error::around("`", detail, "` doesn't support any options"),
            ErrorKind::OptionSyntax => String::from_str("unexpected option syntax"),
            ErrorKind::OptionRequired => Error::around("`", detail, "` requires an option"),
            ErrorKind::OptionDuplicate => Error::around("duplicate `", detail, "` option"),
            ErrorKind::OptionSkipAll => String::from_str(
                "unexpected constraint on `skip` when unconstrained `skip` already used",
            ),
            ErrorKind::OptionSkipDuplicate => Error::around(
                "duplicate `",
                detail,
                "` constraint on `skip`",
            ),
            ErrorKind::OptionSkipSupport => Error::around(
                "unsupported `",
                detail,
                "` constraint on `skip`",
            ),
            ErrorKind::PathSyntax => String::from_str("expected path, ").concat(detail),
            ErrorKind::UnsupportedTrait => String::from_str(
                "unsupported trait, expected one of expected one of ",
            ).concat(detail),
            ErrorKind::TraitSyntax => String::from_str(
                "unsupported trait syntax, expected one of expected one of ",
            ).concat(detail),
            ErrorKind::Delimiter => String::from_str("expected `;` or `,"),
            ErrorKind::UnsupportedPredicate => String::from_str(
                "only type predicates are supported",
            ),
            ErrorKind::GenericSyntax => String::from_str("expected type to bind to, ").concat(
                detail,
            ),
            ErrorKind::UnexpectedDefault => String::from_str(
                "`default` is only supported if `Default` is being implemented",
            ),
            ErrorKind::DefaultMissing => String::from_str(
                "required `default` option on a variant if `Default` is being implemented",
            ),
            ErrorKind::DefaultDuplicate => String::from_str("multiple `default` options in enum"),
        }
    }
}

} // verus!
