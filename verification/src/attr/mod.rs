//! What the attributes of an item, a variant or a field ask for.

pub mod default;
pub mod derive_where;
pub mod field;
pub mod item;
pub mod skip;
pub mod variant;
pub mod zeroize_fqs;

use crate::code::is_word;
use crate::error::{Error, ErrorKind, ErrorView};
use crate::syntax::{Attribute, Content, Delimiter, Meta};
use vstd::prelude::*;

verus! {

/// The options that an attribute on a variant or a field gives: none where the
/// attribute is not `derive_where`, a complaint where it holds no list of
/// options.
pub open spec fn options_of(attribute: Attribute) -> Result<Option<Seq<Meta>>, ErrorView> {
    if attribute.path@ != "derive_where"@ {
        Ok(None)
    } else {
        match attribute.content {
            Content::Unreadable(message) => Err(
                ErrorView::quoting(ErrorKind::AttributeSyntax, attribute.span, message@),
            ),
            Content::Bare => Err(ErrorView::plain(ErrorKind::OptionSyntax, attribute.span)),
            Content::List(list) => if list.items@.len() == 0 || !(list.delimiter is End) {
                Err(ErrorView::plain(ErrorKind::OptionSyntax, attribute.span))
            } else {
                Ok(Some(list.items@))
            },
        }
    }
}

/// Reads the options that an attribute on a variant or a field gives.
pub fn options(attribute: &Attribute) -> (outcome: Result<Option<&Vec<Meta>>, Error>)
    ensures
        match outcome {
            Ok(Some(directives)) => options_of(*attribute) == Ok::<Option<Seq<Meta>>, ErrorView>(
                Some(directives@),
            ),
            Ok(None) => options_of(*attribute) == Ok::<Option<Seq<Meta>>, ErrorView>(None),
            Err(error) => options_of(*attribute) == Err::<Option<Seq<Meta>>, ErrorView>(error@),
        },
{
    if !is_word(&attribute.path, "derive_where") {
        return Ok(None);
    }
    match &attribute.content {
        Content::Unreadable(message) => Err(
            Error::attribute_syntax(attribute.span, message.as_str()),
        ),
        Content::Bare => Err(Error::option_syntax(attribute.span)),
        Content::List(list) => {
            if list.items.len() == 0 {
                return Err(Error::option_syntax(attribute.span));
            }
            match list.delimiter {
                Delimiter::End => Ok(Some(&list.items)),
                _ => Err(Error::option_syntax(attribute.span)),
            }
        },
    }
}

} // verus!
