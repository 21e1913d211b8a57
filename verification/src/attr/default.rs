//! The marker of the variant that `Default` constructs.

use crate::error::{Error, ErrorKind, ErrorView};
use crate::span::Span;
use crate::syntax::{Meta, MetaForm};
use vstd::prelude::*;

verus! {

/// Where a `default` marker was seen, if one was.
#[derive(Clone, Copy, Debug, PartialEq, Eq, Structural)]
pub struct DefaultMarker {
    pub span: Option<Span>,
}

impl DefaultMarker {
    /// No marker.
    pub open spec fn unmarked() -> DefaultMarker {
        DefaultMarker { span: None }
    }

    /// A marker at `span`.
    pub open spec fn at(span: Span) -> DefaultMarker {
        DefaultMarker { span: Some(span) }
    }

    /// Whether a marker was seen.
    pub open spec fn marked(self) -> bool {
        self.span is Some
    }

    /// The marker of a variant after a `default` directive, or why the directive
    /// is refused. `self` is the marker of the variant so far, `accumulated` that
    /// of all variants so far, and `implemented` says whether `Default` is asked
    /// for.
    pub open spec fn after(self, accumulated: DefaultMarker, directive: Meta, implemented: bool)
        -> Result<DefaultMarker, ErrorView> {
        if !(directive.form is Word) {
            Err(ErrorView::plain(ErrorKind::OptionSyntax, directive.span))
        } else if self.marked() {
            Err(ErrorView::quoting(ErrorKind::OptionDuplicate, directive.span, "default"@))
        } else if !implemented {
            Err(ErrorView::plain(ErrorKind::UnexpectedDefault, directive.span))
        } else if accumulated.marked() {
            Err(ErrorView::plain(ErrorKind::DefaultDuplicate, directive.span))
        } else {
            Ok(DefaultMarker::at(directive.span))
        }
    }

    /// A marker on a second variant is refused.
    pub proof fn lemma_second_marker_refused(
        self,
        accumulated: DefaultMarker,
        directive: Meta,
        implemented: bool,
    )
        requires
            directive.form is Word,
            implemented,
            !self.marked(),
            accumulated.marked(),
        ensures
            self.after(accumulated, directive, implemented) == Err::<DefaultMarker, ErrorView>(
                ErrorView::plain(ErrorKind::DefaultDuplicate, directive.span),
            ),
    {
    }

    /// No marker.
    pub fn new() -> (marker: DefaultMarker)
        ensures
            marker == DefaultMarker::unmarked(),
    {
        DefaultMarker { span: None }
    }

    /// Whether a marker was seen.
    pub fn is_marked(&self) -> (marked: bool)
        ensures
            marked == self.marked(),
    {
        self.span.is_some()
    }

    /// Takes a `default` directive on a variant into account. On success the
    /// variant's marker and the accumulated one both point at the directive.
    pub fn add_attribute(
        &mut self,
        directive: &Meta,
        implemented: bool,
        accumulated: &mut DefaultMarker,
    ) -> (outcome: Result<(), Error>)
        ensures
            match outcome {
                Ok(()) => old(self).after(*old(accumulated), *directive, implemented) == Ok::<
                    DefaultMarker,
                    ErrorView,
                >(*final(self)) && *final(accumulated) == *final(self),
                Err(error) => old(self).after(*old(accumulated), *directive, implemented) == Err::<
                    DefaultMarker,
                    ErrorView,
                >(error@) && *final(accumulated) == *old(accumulated),
            },
    {
        match directive.form {
            MetaForm::Word => {},
            _ => {
                return Err(Error::option_syntax(directive.span));
            },
        }
        if self.is_marked() {
            Err(Error::option_duplicate(directive.span, "default"))
        } else if !implemented {
            Err(Error::default(directive.span))
        } else if accumulated.is_marked() {
            Err(Error::default_duplicate(directive.span))
        } else {
            *self = DefaultMarker { span: Some(directive.span) };
            *accumulated = DefaultMarker { span: Some(directive.span) };
            Ok(())
        }
    }
}

} // verus!
