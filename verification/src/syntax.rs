//! The item to derive for, as its reader hands it over: names, shapes and the
//! attributes in structured form. Nothing here is known to be valid yet.

use crate::span::Span;
use vstd::prelude::*;

verus! {

/// One argument of a directive, as in `skip(Debug)` or `Zeroize(crate = "path")`.
#[derive(Debug)]
pub struct Argument {
    pub span: Span,
    /// The argument's name; empty where it has none.
    pub name: String,
    pub form: ArgumentForm,
}

/// The form of an argument.
#[derive(Debug)]
pub enum ArgumentForm {
    /// A name alone.
    Word,
    /// A name and the text of a string literal: `name = "text"`.
    Value(String),
    /// Anything else.
    Other,
}

/// One directive of an attribute: a trait to implement or an option.
#[derive(Debug)]
pub struct Meta {
    pub span: Span,
    /// The directive's name; empty where it has none.
    pub name: String,
    pub form: MetaForm,
}

/// The form of a directive.
#[derive(Debug)]
pub enum MetaForm {
    /// A name alone: `Clone`, `skip`.
    Word,
    /// A name with arguments: `skip(Debug)`.
    List(Vec<Argument>),
    /// A name and the text of a literal: `name = "text"`.
    Value(String),
    /// Anything else.
    Other,
}

/// What stands between the directives of an attribute and its bounds.
#[derive(Clone, Copy, Debug, PartialEq, Eq, Structural)]
pub enum Delimiter {
    /// Nothing: the attribute ends after the directives.
    End,
    /// A semicolon; bounds may follow.
    Semicolon,
    /// Something else, at the given place.
    Unexpected(Span),
}

/// What kind of bound an element of a bound clause is.
#[derive(Clone, Copy, Debug, PartialEq, Eq, Structural)]
pub enum BoundKind {
    /// A type alone, to be bound by the trait that is implemented: `T`.
    Type,
    /// A predicate on a type: `T: Bound`.
    TypePredicate,
    /// A predicate on something else, such as a lifetime.
    OtherPredicate,
    /// Not readable as either.
    Unreadable,
}

/// One element of a bound clause.
#[derive(Debug)]
pub struct Bound {
    pub span: Span,
    pub kind: BoundKind,
    /// The element's text; for an unreadable one what its reader said.
    pub text: String,
}

/// The directives of an attribute and the bound clause behind them:
/// `(directive, ..; bound, ..)`.
#[derive(Debug)]
pub struct MetaList {
    pub items: Vec<Meta>,
    pub delimiter: Delimiter,
    pub bounds: Vec<Bound>,
}

/// What an attribute holds.
#[derive(Debug)]
pub enum Content {
    /// Not readable; what the reader said.
    Unreadable(String),
    /// No list: the attribute's name alone, or a name with a value.
    Bare,
    /// A list of directives.
    List(MetaList),
}

/// An attribute.
#[derive(Debug)]
pub struct Attribute {
    pub span: Span,
    /// The attribute's name; empty where it is not a single word.
    pub path: String,
    pub content: Content,
}

/// A field.
#[derive(Debug)]
pub struct Field {
    pub attrs: Vec<Attribute>,
    /// The field's name; empty for a field of a tuple.
    pub ident: String,
    /// The field's type, as it is written.
    pub ty: String,
}

/// The fields of a struct or of a variant.
#[derive(Debug)]
pub enum Fields {
    /// `{ name: type, .. }`
    Named(Vec<Field>),
    /// `(type, ..)`
    Unnamed(Vec<Field>),
    /// No body.
    Unit,
}

/// A variant of an enum.
#[derive(Debug)]
pub struct Variant {
    pub attrs: Vec<Attribute>,
    pub ident: String,
    pub fields: Fields,
}

/// The body of an item.
#[derive(Debug)]
pub enum Data {
    Struct(Fields),
    Enum(Vec<Variant>),
    Union(Vec<Field>),
}

/// The generic parameters of an item, in the forms an `impl` needs.
#[derive(Debug)]
pub struct Generics {
    /// Whether the item declares any generic parameter.
    pub has_params: bool,
    /// The parameters as they follow `impl`, with their brackets; empty without parameters.
    pub impl_generics: String,
    /// The parameters as they follow the type's name, with their brackets.
    pub type_generics: String,
    /// The predicates of the item's own `where` clause.
    pub where_predicates: Vec<String>,
}

/// An item to derive for.
#[derive(Debug)]
pub struct DeriveInput {
    pub attrs: Vec<Attribute>,
    pub ident: String,
    pub generics: Generics,
    pub data: Data,
}

} // verus!
