//! The options on a field.

use crate::attr::skip::Skip;
use crate::attr::zeroize_fqs::ZeroizeFqs;
use crate::attr::{options, options_of};
use crate::code::is_word;
use crate::error::{Error, ErrorKind, ErrorView};
use crate::syntax::{Attribute, Meta};
use crate::trait_::{Catalogue, Trait};
use vstd::prelude::*;

verus! {

/// What the attributes of a field ask for.
#[derive(Clone, Copy, Debug, PartialEq, Eq, Structural)]
pub struct FieldAttr {
    /// For which traits the field itself is left out.
    pub skip: Skip,
    /// Whether `Zeroize` calls the field's `zeroize` by its full path.
    pub zeroize_fqs: ZeroizeFqs,
}

impl FieldAttr {
    /// A field without options.
    pub open spec fn plain() -> FieldAttr {
        FieldAttr { skip: Skip::Nothing, zeroize_fqs: ZeroizeFqs { set: false } }
    }

    /// The options after one more directive, or why the directive is refused.
    /// `parent` is what the field's item or variant skips.
    pub open spec fn with_directive(
        self,
        parent: Skip,
        directive: Meta,
        catalogue: Catalogue,
    ) -> Result<
        FieldAttr,
        ErrorView,
    > {
        if directive.name@ == "skip"@ {
            match self.skip.after(parent, directive, catalogue) {
                Ok(skip) => Ok(FieldAttr { skip, ..self }),
                Err(error) => Err(error),
            }
        } else if catalogue is WithZeroize && directive.name@ == "Zeroize"@ {
            match self.zeroize_fqs.after(directive) {
                Ok(zeroize_fqs) => Ok(FieldAttr { zeroize_fqs, ..self }),
                Err(error) => Err(error),
            }
        } else {
            Err(ErrorView::plain(ErrorKind::UnknownOption, directive.span))
        }
    }

    /// The options after the first `count` directives of an attribute, or the
    /// first complaint about one of them.
    pub open spec fn with_directives(
        self,
        parent: Skip,
        directives: Seq<Meta>,
        count: int,
        catalogue: Catalogue,
    )
        -> Result<FieldAttr, ErrorView>
        decreases count,
    {
        if count <= 0 {
            Ok(self)
        } else {
            match self.with_directives(parent, directives, count - 1, catalogue) {
                Err(error) => Err(error),
                Ok(before) => before.with_directive(parent, directives[count - 1], catalogue),
            }
        }
    }

    /// The options after one more attribute, or why the attribute is refused.
    pub open spec fn with_attribute(
        self,
        parent: Skip,
        attribute: Attribute,
        catalogue: Catalogue,
    ) -> Result<
        FieldAttr,
        ErrorView,
    > {
        match options_of(attribute) {
            Err(error) => Err(error),
            Ok(None) => Ok(self),
            Ok(Some(directives)) => self.with_directives(
                parent,
                directives,
                directives.len() as int,
                catalogue,
            ),
        }
    }

    /// The options after the first `count` attributes, or the first complaint
    /// about one of them.
    pub open spec fn with_attributes(
        self,
        parent: Skip,
        attributes: Seq<Attribute>,
        count: int,
        catalogue: Catalogue,
    )
        -> Result<FieldAttr, ErrorView>
        decreases count,
    {
        if count <= 0 {
            Ok(self)
        } else {
            match self.with_attributes(parent, attributes, count - 1, catalogue) {
                Err(error) => Err(error),
                Ok(before) => before.with_attribute(parent, attributes[count - 1], catalogue),
            }
        }
    }

    /// What the attributes of a field ask for, or the first complaint about them.
    pub open spec fn read(parent: Skip, attributes: Seq<Attribute>, catalogue: Catalogue) -> Result<
        FieldAttr,
        ErrorView,
    > {
        FieldAttr::plain().with_attributes(parent, attributes, attributes.len() as int, catalogue)
    }

    /// A complaint about one of the first directives stays the complaint about all.
    pub proof fn lemma_with_directives_fails(
        self,
        parent: Skip,
        directives: Seq<Meta>,
        count: int,
        more: int,
        catalogue: Catalogue,
    )
        requires
            count <= more,
            self.with_directives(parent, directives, count, catalogue) is Err,
        ensures
            self.with_directives(parent, directives, more, catalogue) == self.with_directives(
                parent,
                directives,
                count,
                catalogue,
            ),
        decreases more - count,
    {
        if count < more {
            self.lemma_with_directives_fails(parent, directives, count, more - 1, catalogue);
        }
    }

    /// A complaint about one of the first attributes stays the complaint about all.
    pub proof fn lemma_with_attributes_fails(
        self,
        parent: Skip,
        attributes: Seq<Attribute>,
        count: int,
        more: int,
        catalogue: Catalogue,
    )
        requires
            count <= more,
            self.with_attributes(parent, attributes, count, catalogue) is Err,
        ensures
            self.with_attributes(parent, attributes, more, catalogue) == self.with_attributes(
                parent,
                attributes,
                count,
                catalogue,
            ),
        decreases more - count,
    {
        if count < more {
            self.lemma_with_attributes_fails(parent, attributes, count, more - 1, catalogue);
        }
    }

    /// A constrained `skip` on a field is a scope conflict where the field's item
    /// or variant skips its fields without constraint.
    pub proof fn lemma_skip_scope_conflict(self, directive: Meta, catalogue: Catalogue)
        requires
            directive.name@ == "skip"@,
            directive.form is List,
        ensures
            self.with_directive(Skip::All, directive, catalogue) == Err::<FieldAttr, ErrorView>(
                ErrorView::plain(ErrorKind::OptionSkipAll, directive.span),
            ),
    {
    }

    /// Under an item or variant that skips its fields without constraint, the
    /// first constrained `skip` on a field is refused as a scope conflict: the
    /// attributes before its own and the directives before it are read without
    /// complaint.
    pub proof fn lemma_scoped_skip_refused(
        attributes: Seq<Attribute>,
        attribute: int,
        directive: int,
        catalogue: Catalogue,
    )
        requires
            0 <= attribute < attributes.len(),
            FieldAttr::plain().with_attributes(
                Skip::All,
                attributes,
                attribute,
                catalogue,
            ) matches Ok(so_far)
                && (options_of(attributes[attribute]) matches Ok(Some(directives)) && 0
                <= directive < directives.len() && so_far.with_directives(
                Skip::All,
                directives,
                directive,
                catalogue,
            ) is Ok && directives[directive].name@ == "skip"@ && directives[directive].form
                is List),
        ensures
            FieldAttr::read(Skip::All, attributes, catalogue) == Err::<FieldAttr, ErrorView>(
                ErrorView::plain(
                    ErrorKind::OptionSkipAll,
                    options_of(attributes[attribute])->Ok_0->Some_0[directive].span,
                ),
            ),
    {
        let so_far = FieldAttr::plain().with_attributes(
            Skip::All,
            attributes,
            attribute,
            catalogue,
        )->Ok_0;
        let directives = options_of(attributes[attribute])->Ok_0->Some_0;
        let then = so_far.with_directives(Skip::All, directives, directive, catalogue)->Ok_0;
        then.lemma_skip_scope_conflict(directives[directive], catalogue);
        assert(so_far.with_directives(Skip::All, directives, directive + 1, catalogue) is Err);
        so_far.lemma_with_directives_fails(
            Skip::All,
            directives,
            directive + 1,
            directives.len() as int,
            catalogue,
        );
        assert(FieldAttr::plain().with_attributes(
            Skip::All,
            attributes,
            attribute + 1,
            catalogue,
        ) is Err);
        FieldAttr::plain().lemma_with_attributes_fails(
            Skip::All,
            attributes,
            attribute + 1,
            attributes.len() as int,
            catalogue,
        );
    }

    fn add_directive(
        &mut self,
        parent: &Skip,
        directive: &Meta,
        catalogue: Catalogue,
    ) -> (outcome: Result<(), Error>)
        ensures
            match outcome {
                Ok(()) => old(self).with_directive(*parent, *directive, catalogue) == Ok::<
                    FieldAttr,
                    ErrorView,
                >(*final(self)),
                Err(error) => old(self).with_directive(*parent, *directive, catalogue) == Err::<
                    FieldAttr,
                    ErrorView,
                >(error@),
            },
    {
        if is_word(&directive.name, "skip") {
            let mut skip = self.skip;
            match skip.add_attribute(parent, directive, catalogue) {
                Ok(()) => {
                    self.skip = skip;
                    Ok(())
                },
                Err(error) => Err(error),
            }
        } else if catalogue.contains(Trait::Zeroize) && is_word(&directive.name, "Zeroize") {
            let mut zeroize_fqs = self.zeroize_fqs;
            match zeroize_fqs.add_attribute(directive) {
                Ok(()) => {
                    self.zeroize_fqs = zeroize_fqs;
                    Ok(())
                },
                Err(error) => Err(error),
            }
        } else {
            Err(Error::option(directive.span))
        }
    }

    #[verifier::loop_isolation(false)]
    fn add_attribute(
        &mut self,
        parent: &Skip,
        attribute: &Attribute,
        catalogue: Catalogue,
    ) -> (outcome: Result<
        (),
        Error,
    >)
        ensures
            match outcome {
                Ok(()) => old(self).with_attribute(*parent, *attribute, catalogue) == Ok::<
                    FieldAttr,
                    ErrorView,
                >(*final(self)),
                Err(error) => old(self).with_attribute(*parent, *attribute, catalogue) == Err::<
                    FieldAttr,
                    ErrorView,
                >(error@),
            },
    {
        let directives = match options(attribute) {
            Err(error) => {
                return Err(error);
            },
            Ok(None) => {
                return Ok(());
            },
            Ok(Some(directives)) => directives,
        };
        let mut attr = *self;
        let mut i: usize = 0;
        while i < directives.len()
            invariant
                i <= directives@.len(),
                old(self).with_directives(*parent, directives@, i as int, catalogue) == Ok::<
                    FieldAttr,
                    ErrorView,
                >(attr),
            decreases directives@.len() - i,
        {
            match attr.add_directive(parent, &directives[i], catalogue) {
                Ok(()) => {},
                Err(error) => {
                    proof {
                        assert(old(self).with_directives(
                            *parent,
                            directives@,
                            i as int + 1,
                            catalogue,
                        )
                            == Err::<FieldAttr, ErrorView>(error@));
                        old(self).lemma_with_directives_fails(
                            *parent,
                            directives@,
                            i as int + 1,
                            directives@.len() as int,
                            catalogue,
                        );
                    }
                    return Err(error);
                },
            }
            i += 1;
        }
        *self = attr;
        Ok(())
    }

    /// Reads the attributes of a field. `parent` is what the field's item or
    /// variant skips.
    #[verifier::loop_isolation(false)]
    pub fn from_attrs(
        parent: &Skip,
        attrs: &Vec<Attribute>,
        catalogue: Catalogue,
    ) -> (outcome: Result<
        FieldAttr,
        Error,
    >)
        ensures
            match outcome {
                Ok(attr) => FieldAttr::read(
                    *parent,
                    attrs@,
                    catalogue,
                ) == Ok::<FieldAttr, ErrorView>(attr),
                Err(error) => FieldAttr::read(
                    *parent,
                    attrs@,
                    catalogue,
                ) == Err::<FieldAttr, ErrorView>(
                    error@,
                ),
            },
    {
        let mut attr = FieldAttr { skip: Skip::Nothing, zeroize_fqs: ZeroizeFqs { set: false } };
        let mut i: usize = 0;
        while i < attrs.len()
            invariant
                i <= attrs@.len(),
                FieldAttr::plain().with_attributes(*parent, attrs@, i as int, catalogue) == Ok::<
                    FieldAttr,
                    ErrorView,
                >(attr),
            decreases attrs@.len() - i,
        {
            match attr.add_attribute(parent, &attrs[i], catalogue) {
                Ok(()) => {},
                Err(error) => {
                    proof {
                        assert(FieldAttr::plain().with_attributes(
                            *parent,
                            attrs@,
                            i as int + 1,
                            catalogue,
                        )
                            == Err::<FieldAttr, ErrorView>(error@));
                        FieldAttr::plain().lemma_with_attributes_fails(
                            *parent,
                            attrs@,
                            i as int + 1,
                            attrs@.len() as int,
                            catalogue,
                        );
                    }
                    return Err(error);
                },
            }
            i += 1;
        }
        Ok(attr)
    }
}

} // verus!
