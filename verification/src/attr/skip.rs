//! Leaving fields out of a trait's implementation.

use crate::error::{Error, ErrorKind, ErrorView};
use crate::syntax::{Argument, ArgumentForm, Meta, MetaForm};
use crate::trait_::{Catalogue, Trait};
use vstd::prelude::*;

verus! {

/// A set of traits.
#[derive(Clone, Copy, Debug, PartialEq, Eq, Structural)]
pub struct TraitSet {
    pub clone: bool,
    pub copy: bool,
    pub debug: bool,
    pub default: bool,
    pub eq: bool,
    pub hash: bool,
    pub ord: bool,
    pub partial_eq: bool,
    pub partial_ord: bool,
    pub zeroize: bool,
    pub zeroize_on_drop: bool,
}

impl TraitSet {
    /// Whether the trait is in the set.
    pub open spec fn has(self, trait_: Trait) -> bool {
        match trait_ {
            Trait::Clone => self.clone,
            Trait::Copy => self.copy,
            Trait::Debug => self.debug,
            Trait::Default => self.default,
            Trait::Eq => self.eq,
            Trait::Hash => self.hash,
            Trait::Ord => self.ord,
            Trait::PartialEq => self.partial_eq,
            Trait::PartialOrd => self.partial_ord,
            Trait::Zeroize => self.zeroize,
            Trait::ZeroizeOnDrop => self.zeroize_on_drop,
        }
    }

    /// The set without any trait.
    pub open spec fn none() -> TraitSet {
        TraitSet {
            clone: false,
            copy: false,
            debug: false,
            default: false,
            eq: false,
            hash: false,
            ord: false,
            partial_eq: false,
            partial_ord: false,
            zeroize: false,
            zeroize_on_drop: false,
        }
    }

    /// The set with the trait added.
    pub open spec fn with(self, trait_: Trait) -> TraitSet {
        match trait_ {
            Trait::Clone => TraitSet { clone: true, ..self },
            Trait::Copy => TraitSet { copy: true, ..self },
            Trait::Debug => TraitSet { debug: true, ..self },
            Trait::Default => TraitSet { default: true, ..self },
            Trait::Eq => TraitSet { eq: true, ..self },
            Trait::Hash => TraitSet { hash: true, ..self },
            Trait::Ord => TraitSet { ord: true, ..self },
            Trait::PartialEq => TraitSet { partial_eq: true, ..self },
            Trait::PartialOrd => TraitSet { partial_ord: true, ..self },
            Trait::Zeroize => TraitSet { zeroize: true, ..self },
            Trait::ZeroizeOnDrop => TraitSet { zeroize_on_drop: true, ..self },
        }
    }

    /// A set holds exactly what was added to it.
    pub proof fn lemma_with(self, added: Trait, asked: Trait)
        ensures
            self.with(added).has(asked) == (asked == added || self.has(asked)),
            !TraitSet::none().has(asked),
    {
    }

    /// The set without any trait.
    pub fn empty() -> (set: TraitSet)
        ensures
            set == TraitSet::none(),
    {
        TraitSet {
            clone: false,
            copy: false,
            debug: false,
            default: false,
            eq: false,
            hash: false,
            ord: false,
            partial_eq: false,
            partial_ord: false,
            zeroize: false,
            zeroize_on_drop: false,
        }
    }

    /// Whether the trait is in the set.
    pub fn contains(&self, trait_: Trait) -> (found: bool)
        ensures
            found == self.has(trait_),
    {
        match trait_ {
            Trait::Clone => self.clone,
            Trait::Copy => self.copy,
            Trait::Debug => self.debug,
            Trait::Default => self.default,
            Trait::Eq => self.eq,
            Trait::Hash => self.hash,
            Trait::Ord => self.ord,
            Trait::PartialEq => self.partial_eq,
            Trait::PartialOrd => self.partial_ord,
            Trait::Zeroize => self.zeroize,
            Trait::ZeroizeOnDrop => self.zeroize_on_drop,
        }
    }

    /// Adds the trait to the set.
    pub fn insert(&mut self, trait_: Trait)
        ensures
            *final(self) == old(self).with(trait_),
    {
        let before = *self;
        *self = match trait_ {
            Trait::Clone => TraitSet { clone: true, ..before },
            Trait::Copy => TraitSet { copy: true, ..before },
            Trait::Debug => TraitSet { debug: true, ..before },
            Trait::Default => TraitSet { default: true, ..before },
            Trait::Eq => TraitSet { eq: true, ..before },
            Trait::Hash => TraitSet { hash: true, ..before },
            Trait::Ord => TraitSet { ord: true, ..before },
            Trait::PartialEq => TraitSet { partial_eq: true, ..before },
            Trait::PartialOrd => TraitSet { partial_ord: true, ..before },
            Trait::Zeroize => TraitSet { zeroize: true, ..before },
            Trait::ZeroizeOnDrop => TraitSet { zeroize_on_drop: true, ..before },
        };
    }
}

/// For which traits the fields of an item or a variant, or one field, are left out.
#[derive(Clone, Copy, Debug, PartialEq, Eq, Structural)]
pub enum Skip {
    /// For none.
    Nothing,
    /// For every trait that can skip fields.
    All,
    /// For the traits of the set.
    Traits(TraitSet),
}

impl Skip {
    /// Whether the fields are left out of the implementation of `trait_`.
    pub open spec fn skips(self, trait_: Trait) -> bool {
        match self {
            Skip::Nothing => false,
            Skip::All => trait_.skippable(),
            Skip::Traits(traits) => traits.has(trait_),
        }
    }

    /// The traits named so far by constrained directives.
    pub open spec fn named_traits(self) -> TraitSet {
        match self {
            Skip::Traits(traits) => traits,
            _ => TraitSet::none(),
        }
    }

    /// The set after one more trait of a constrained directive, or why the trait
    /// cannot be added.
    pub open spec fn constrained_by(
        traits: TraitSet,
        argument: Argument,
        catalogue: Catalogue,
    ) -> Result<
        TraitSet,
        ErrorView,
    > {
        if !(argument.form is Word) {
            Err(ErrorView::plain(ErrorKind::OptionSyntax, argument.span))
        } else {
            match Trait::named(argument.name@, catalogue) {
                None => Err(ErrorView::listing(
                    ErrorKind::UnsupportedTrait,
                    argument.span,
                    catalogue,
                )),
                Some(trait_) => if !trait_.skippable() {
                    Err(
                        ErrorView::quoting(
                            ErrorKind::OptionSkipSupport,
                            argument.span,
                            trait_.name(),
                        ),
                    )
                } else if traits.has(trait_) {
                    Err(
                        ErrorView::quoting(
                            ErrorKind::OptionSkipDuplicate,
                            argument.span,
                            trait_.name(),
                        ),
                    )
                } else {
                    Ok(traits.with(trait_))
                },
            }
        }
    }

    /// The set after the first `count` traits of a constrained directive, or the
    /// first complaint about one of them.
    pub open spec fn constrained(
        traits: TraitSet,
        arguments: Seq<Argument>,
        count: int,
        catalogue: Catalogue,
    ) -> Result<
        TraitSet,
        ErrorView,
    >
        decreases count,
    {
        if count <= 0 {
            Ok(traits)
        } else {
            match Skip::constrained(traits, arguments, count - 1, catalogue) {
                Err(error) => Err(error),
                Ok(before) => Skip::constrained_by(before, arguments[count - 1], catalogue),
            }
        }
    }

    /// What is skipped after one more `skip` or `skip_inner` directive, or why the
    /// directive is refused. `parent` is what the enclosing item or variant skips.
    pub open spec fn after(
        self,
        parent: Skip,
        directive: Meta,
        catalogue: Catalogue,
    ) -> Result<Skip, ErrorView> {
        match directive.form {
            MetaForm::Word => if self is Nothing {
                Ok(Skip::All)
            } else {
                Err(ErrorView::quoting(ErrorKind::OptionDuplicate, directive.span, directive.name@))
            },
            MetaForm::List(arguments) => if self is All || parent is All {
                Err(ErrorView::plain(ErrorKind::OptionSkipAll, directive.span))
            } else {
                match Skip::constrained(
                    self.named_traits(),
                    arguments@,
                    arguments@.len() as int,
                    catalogue,
                ) {
                    Err(error) => Err(error),
                    Ok(traits) => Ok(Skip::Traits(traits)),
                }
            },
            _ => Err(ErrorView::plain(ErrorKind::OptionSyntax, directive.span)),
        }
    }

    /// A constrained directive is refused wherever an unconstrained one is in
    /// force already, on the same place or on the enclosing one.
    pub proof fn lemma_constraint_under_skip_all(
        self,
        parent: Skip,
        directive: Meta,
        catalogue: Catalogue,
    )
        requires
            directive.form is List,
            self is All || parent is All,
        ensures
            self.after(parent, directive, catalogue) == Err::<Skip, ErrorView>(
                ErrorView::plain(ErrorKind::OptionSkipAll, directive.span),
            ),
    {
    }

    /// Whether nothing is skipped.
    pub fn is_none(&self) -> (none: bool)
        ensures
            none == (self is Nothing),
    {
        match self {
            Skip::Nothing => true,
            _ => false,
        }
    }

    /// Whether the fields are left out of the implementation of `trait_`.
    pub fn skip(&self, trait_: Trait) -> (skipped: bool)
        ensures
            skipped == self.skips(trait_),
    {
        match self {
            Skip::Nothing => false,
            Skip::All => trait_.supports_skip(),
            Skip::Traits(traits) => traits.contains(trait_),
        }
    }

    fn constrain(
        traits: &mut TraitSet,
        argument: &Argument,
        catalogue: Catalogue,
    ) -> (outcome: Result<(), Error>)
        ensures
            match outcome {
                Ok(()) => Skip::constrained_by(*old(traits), *argument, catalogue) == Ok::<
                    TraitSet,
                    ErrorView,
                >(*final(traits)),
                Err(error) => Skip::constrained_by(*old(traits), *argument, catalogue) == Err::<
                    TraitSet,
                    ErrorView,
                >(error@),
            },
    {
        match argument.form {
            ArgumentForm::Word => {},
            _ => {
                return Err(Error::option_syntax(argument.span));
            },
        }
        match Trait::from_name(argument.name.as_str(), catalogue) {
            None => Err(Error::trait_(argument.span, catalogue)),
            Some(trait_) => {
                if !trait_.supports_skip() {
                    Err(Error::option_skip_support(argument.span, trait_.as_str()))
                } else if traits.contains(trait_) {
                    Err(Error::option_skip_duplicate(argument.span, trait_.as_str()))
                } else {
                    traits.insert(trait_);
                    Ok(())
                }
            },
        }
    }

    /// Takes one more `skip` or `skip_inner` directive into account. `parent` is
    /// what the enclosing item or variant skips.
    #[verifier::loop_isolation(false)]
    pub fn add_attribute(
        &mut self,
        parent: &Skip,
        directive: &Meta,
        catalogue: Catalogue,
    ) -> (outcome: Result<
        (),
        Error,
    >)
        ensures
            match outcome {
                Ok(()) => old(self).after(*parent, *directive, catalogue) == Ok::<Skip, ErrorView>(
                    *final(self),
                ),
                Err(error) => old(self).after(
                    *parent,
                    *directive,
                    catalogue,
                ) == Err::<Skip, ErrorView>(
                    error@,
                ),
            },
    {
        match &directive.form {
            MetaForm::Word => {
                if self.is_none() {
                    *self = Skip::All;
                    Ok(())
                } else {
                    Err(Error::option_duplicate(directive.span, directive.name.as_str()))
                }
            },
            MetaForm::List(arguments) => {
                let mut traits = match self {
                    Skip::Nothing => TraitSet::empty(),
                    Skip::All => {
                        return Err(Error::option_skip_all(directive.span));
                    },
                    Skip::Traits(traits) => *traits,
                };
                if let Skip::All = parent {
                    return Err(Error::option_skip_all(directive.span));
                }
                let mut i: usize = 0;
                while i < arguments.len()
                    invariant
                        i <= arguments@.len(),
                        Skip::constrained(
                            old(self).named_traits(),
                            arguments@,
                            i as int,
                            catalogue,
                        ) == Ok::<
                            TraitSet,
                            ErrorView,
                        >(traits),
                    decreases arguments@.len() - i,
                {
                    match Skip::constrain(&mut traits, &arguments[i], catalogue) {
                        Ok(()) => {},
                        Err(error) => {
                            proof {
                                assert(Skip::constrained(
                                    old(self).named_traits(),
                                    arguments@,
                                    i as int + 1,
                                    catalogue,
                                ) == Err::<TraitSet, ErrorView>(error@));
                                Skip::lemma_constrained_fails(
                                    old(self).named_traits(),
                                    arguments@,
                                    i as int + 1,
                                    arguments@.len() as int,
                                    catalogue,
                                );
                            }
                            return Err(error);
                        },
                    }
                    i += 1;
                }
                *self = Skip::Traits(traits);
                Ok(())
            },
            _ => Err(Error::option_syntax(directive.span)),
        }
    }

    /// A complaint about one of the first traits stays the complaint about the
    /// whole directive.
    pub proof fn lemma_constrained_fails(
        traits: TraitSet,
        arguments: Seq<Argument>,
        count: int,
        more: int,
        catalogue: Catalogue,
    )
        requires
            count <= more,
            Skip::constrained(traits, arguments, count, catalogue) is Err,
        ensures
            Skip::constrained(traits, arguments, more, catalogue) == Skip::constrained(
                traits,
                arguments,
                count,
                catalogue,
            ),
        decreases more - count,
    {
        if count < more {
            Skip::lemma_constrained_fails(traits, arguments, count, more - 1, catalogue);
        }
    }
}

} // verus!
