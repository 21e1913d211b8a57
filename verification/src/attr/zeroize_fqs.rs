//! The option that makes `Zeroize` call a field's `zeroize` by its full path.

use crate::code::is_word;
use crate::error::{Error, ErrorKind, ErrorView};
use crate::syntax::{Argument, ArgumentForm, Meta, MetaForm};
use crate::trait_::Trait;
use vstd::prelude::*;

verus! {

/// Whether a field asks for the call by full path.
#[derive(Clone, Copy, Debug, PartialEq, Eq, Structural)]
pub struct ZeroizeFqs {
    pub set: bool,
}

impl ZeroizeFqs {
    /// The option after one more argument of a `Zeroize` directive on a field, or
    /// why the argument is refused.
    pub open spec fn with_argument(self, argument: Argument) -> Result<ZeroizeFqs, ErrorView> {
        if !(argument.form is Word) {
            Err(ErrorView::plain(ErrorKind::OptionSyntax, argument.span))
        } else if argument.name@ != "fqs"@ {
            Err(
                ErrorView::quoting(
                    ErrorKind::UnsupportedTraitOption,
                    argument.span,
                    Trait::Zeroize.name(),
                ),
            )
        } else if self.set {
            Err(ErrorView::quoting(ErrorKind::OptionDuplicate, argument.span, "fqs"@))
        } else {
            Ok(ZeroizeFqs { set: true })
        }
    }

    /// The option after the first `count` arguments, or the first complaint about
    /// one of them.
    pub open spec fn with_arguments(self, arguments: Seq<Argument>, count: int) -> Result<
        ZeroizeFqs,
        ErrorView,
    >
        decreases count,
    {
        if count <= 0 {
            Ok(self)
        } else {
            match self.with_arguments(arguments, count - 1) {
                Err(error) => Err(error),
                Ok(before) => before.with_argument(arguments[count - 1]),
            }
        }
    }

    /// The option after a `Zeroize` directive on a field, or why the directive
    /// is refused.
    pub open spec fn after(self, directive: Meta) -> Result<ZeroizeFqs, ErrorView> {
        match directive.form {
            MetaForm::List(arguments) => if arguments@.len() == 0 {
                Err(
                    ErrorView::quoting(
                        ErrorKind::OptionRequired,
                        directive.span,
                        Trait::Zeroize.name(),
                    ),
                )
            } else {
                self.with_arguments(arguments@, arguments@.len() as int)
            },
            MetaForm::Word => Err(
                ErrorView::quoting(
                    ErrorKind::OptionRequired,
                    directive.span,
                    Trait::Zeroize.name(),
                ),
            ),
            _ => Err(ErrorView::plain(ErrorKind::OptionSyntax, directive.span)),
        }
    }

    /// A complaint about one of the first arguments stays the complaint about all.
    pub proof fn lemma_with_arguments_fails(self, arguments: Seq<Argument>, count: int, more: int)
        requires
            count <= more,
            self.with_arguments(arguments, count) is Err,
        ensures
            self.with_arguments(arguments, more) == self.with_arguments(arguments, count),
        decreases more - count,
    {
        if count < more {
            self.lemma_with_arguments_fails(arguments, count, more - 1);
        }
    }

    fn add_argument(&mut self, argument: &Argument) -> (outcome: Result<(), Error>)
        ensures
            match outcome {
                Ok(()) => old(self).with_argument(*argument) == Ok::<ZeroizeFqs, ErrorView>(
                    *final(self),
                ),
                Err(error) => old(self).with_argument(*argument) == Err::<ZeroizeFqs, ErrorView>(
                    error@,
                ),
            },
    {
        match argument.form {
            ArgumentForm::Word => {},
            _ => {
                return Err(Error::option_syntax(argument.span));
            },
        }
        if !is_word(&argument.name, "fqs") {
            Err(Error::option_trait(argument.span, Trait::Zeroize.as_str()))
        } else if self.set {
            Err(Error::option_duplicate(argument.span, "fqs"))
        } else {
            self.set = true;
            Ok(())
        }
    }

    /// Takes a `Zeroize` directive on a field into account.
    #[verifier::loop_isolation(false)]
    pub fn add_attribute(&mut self, directive: &Meta) -> (outcome: Result<(), Error>)
        ensures
            match outcome {
                Ok(()) => old(self).after(*directive) == Ok::<ZeroizeFqs, ErrorView>(*final(self)),
                Err(error) => old(self).after(*directive) == Err::<ZeroizeFqs, ErrorView>(error@),
            },
    {
        match &directive.form {
            MetaForm::List(arguments) => {
                if arguments.len() == 0 {
                    return Err(Error::option_required(directive.span, Trait::Zeroize.as_str()));
                }
                let mut i: usize = 0;
                while i < arguments.len()
                    invariant
                        i <= arguments@.len(),
                        old(self).with_arguments(arguments@, i as int) == Ok::<
                            ZeroizeFqs,
                            ErrorView,
                        >(*self),
                    decreases arguments@.len() - i,
                {
                    match self.add_argument(&arguments[i]) {
                        Ok(()) => {},
                        Err(error) => {
                            proof {
                                assert(old(self).with_arguments(arguments@, i as int + 1) == Err::<
                                    ZeroizeFqs,
                                    ErrorView,
                                >(error@));
                                old(self).lemma_with_arguments_fails(
                                    arguments@,
                                    i as int + 1,
                                    arguments@.len() as int,
                                );
                            }
                            return Err(error);
                        },
                    }
                    i += 1;
                }
                Ok(())
            },
            MetaForm::Word => Err(
                Error::option_required(directive.span, Trait::Zeroize.as_str()),
            ),
            _ => Err(Error::option_syntax(directive.span)),
        }
    }
}

} // verus!
