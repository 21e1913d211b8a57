//! The options on a variant.

use crate::attr::default::DefaultMarker;
use crate::attr::skip::Skip;
use crate::attr::{options, options_of};
use crate::code::is_word;
use crate::error::{Error, ErrorKind, ErrorView};
use crate::syntax::{Attribute, Meta};
use crate::trait_::Catalogue;
use vstd::prelude::*;

verus! {

/// What the attributes of a variant ask for.
#[derive(Clone, Copy, Debug, PartialEq, Eq, Structural)]
pub struct VariantAttr {
    /// Whether `Default` constructs this variant.
    pub default: DefaultMarker,
    /// For which traits the fields of the variant are left out.
    pub skip_inner: Skip,
}

impl VariantAttr {
    /// A variant without options.
    pub open spec fn plain() -> VariantAttr {
        VariantAttr { default: DefaultMarker::unmarked(), skip_inner: Skip::Nothing }
    }

    /// The marker of all variants up to and with this one, where `before` is
    /// that of the variants before it.
    pub open spec fn accumulated(self, before: DefaultMarker) -> DefaultMarker {
        if self.default.marked() {
            self.default
        } else {
            before
        }
    }

    /// The options after one more directive, or why the directive is refused.
    /// `before` is the marker of the variants before this one, and `implemented`
    /// says whether `Default` is asked for.
    pub open spec fn with_directive(
        self,
        before: DefaultMarker,
        implemented: bool,
        directive: Meta,
        catalogue: Catalogue,
    )
        -> Result<VariantAttr, ErrorView> {
        if directive.name@ == "skip_inner"@ {
            match self.skip_inner.after(Skip::Nothing, directive, catalogue) {
                Ok(skip_inner) => Ok(VariantAttr { skip_inner, ..self }),
                Err(error) => Err(error),
            }
        } else if directive.name@ == "default"@ {
            match self.default.after(before, directive, implemented) {
                Ok(default) => Ok(VariantAttr { default, ..self }),
                Err(error) => Err(error),
            }
        } else {
            Err(ErrorView::plain(ErrorKind::UnknownOption, directive.span))
        }
    }

    /// The options after the first `count` directives of an attribute, or the
    /// first complaint about one of them.
    pub open spec fn with_directives(
        self,
        before: DefaultMarker,
        implemented: bool,
        directives: Seq<Meta>,
        count: int,
        catalogue: Catalogue,
    ) -> Result<VariantAttr, ErrorView>
        decreases count,
    {
        if count <= 0 {
            Ok(self)
        } else {
            match self.with_directives(before, implemented, directives, count - 1, catalogue) {
                Err(error) => Err(error),
                Ok(so_far) => so_far.with_directive(
                    before,
                    implemented,
                    directives[count - 1],
                    catalogue,
                ),
            }
        }
    }

    /// The options after one more attribute, or why the attribute is refused.
    pub open spec fn with_attribute(
        self,
        before: DefaultMarker,
        implemented: bool,
        attribute: Attribute,
        catalogue: Catalogue,
    ) -> Result<VariantAttr, ErrorView> {
        match options_of(attribute) {
            Err(error) => Err(error),
            Ok(None) => Ok(self),
            Ok(Some(directives)) => self.with_directives(
                before,
                implemented,
                directives,
                directives.len() as int,
                catalogue,
            ),
        }
    }

    /// The options after the first `count` attributes, or the first complaint
    /// about one of them.
    pub open spec fn with_attributes(
        self,
        before: DefaultMarker,
        implemented: bool,
        attributes: Seq<Attribute>,
        count: int,
        catalogue: Catalogue,
    ) -> Result<VariantAttr, ErrorView>
        decreases count,
    {
        if count <= 0 {
            Ok(self)
        } else {
            match self.with_attributes(before, implemented, attributes, count - 1, catalogue) {
                Err(error) => Err(error),
                Ok(so_far) => so_far.with_attribute(
                    before,
                    implemented,
                    attributes[count - 1],
                    catalogue,
                ),
            }
        }
    }

    /// What the attributes of a variant ask for, or the first complaint about
    /// them.
    pub open spec fn read(
        before: DefaultMarker,
        implemented: bool,
        attributes: Seq<Attribute>,
        catalogue: Catalogue,
    )
        -> Result<VariantAttr, ErrorView> {
        VariantAttr::plain().with_attributes(
            before,
            implemented,
            attributes,
            attributes.len() as int,
            catalogue,
        )
    }

    /// A complaint about one of the first directives stays the complaint about all.
    pub proof fn lemma_with_directives_fails(
        self,
        before: DefaultMarker,
        implemented: bool,
        directives: Seq<Meta>,
        count: int,
        more: int,
        catalogue: Catalogue,
    )
        requires
            count <= more,
            self.with_directives(before, implemented, directives, count, catalogue) is Err,
        ensures
            self.with_directives(
                before,
                implemented,
                directives,
                more,
                catalogue,
            ) == self.with_directives(
                before,
                implemented,
                directives,
                count,
                catalogue,
            ),
        decreases more - count,
    {
        if count < more {
            self.lemma_with_directives_fails(
                before,
                implemented,
                directives,
                count,
                more - 1,
                catalogue,
            );
        }
    }

    /// A complaint about one of the first attributes stays the complaint about all.
    pub proof fn lemma_with_attributes_fails(
        self,
        before: DefaultMarker,
        implemented: bool,
        attributes: Seq<Attribute>,
        count: int,
        more: int,
        catalogue: Catalogue,
    )
        requires
            count <= more,
            self.with_attributes(before, implemented, attributes, count, catalogue) is Err,
        ensures
            self.with_attributes(
                before,
                implemented,
                attributes,
                more,
                catalogue,
            ) == self.with_attributes(
                before,
                implemented,
                attributes,
                count,
                catalogue,
            ),
        decreases more - count,
    {
        if count < more {
            self.lemma_with_attributes_fails(
                before,
                implemented,
                attributes,
                count,
                more - 1,
                catalogue,
            );
        }
    }

    /// Without a marker before the variant, the options leave the variant marked
    /// only where `Default` is asked for.
    pub proof fn lemma_marked_only_if_implemented(
        self,
        before: DefaultMarker,
        implemented: bool,
        attributes: Seq<Attribute>,
        count: int,
        catalogue: Catalogue,
    )
        requires
            !self.default.marked(),
        ensures
            self.with_attributes(before, implemented, attributes, count, catalogue) matches Ok(attr)
                ==> attr.default.marked() ==> implemented && !before.marked(),
        decreases count,
    {
        if count > 0 {
            self.lemma_marked_only_if_implemented(
                before,
                implemented,
                attributes,
                count - 1,
                catalogue,
            );
            match self.with_attributes(before, implemented, attributes, count - 1, catalogue) {
                Ok(so_far) => {
                    if !so_far.default.marked() {
                        match options_of(attributes[count - 1]) {
                            Ok(Some(directives)) => {
                                so_far.lemma_directives_marked_only_if_implemented(
                                    before,
                                    implemented,
                                    directives,
                                    directives.len() as int,
                                    catalogue,
                                );
                            },
                            _ => {},
                        }
                    } else {
                        match options_of(attributes[count - 1]) {
                            Ok(Some(directives)) => {
                                so_far.lemma_directives_keep_marker(
                                    before,
                                    implemented,
                                    directives,
                                    directives.len() as int,
                                    catalogue,
                                );
                            },
                            _ => {},
                        }
                    }
                },
                _ => {},
            }
        }
    }

    /// Directives never move or remove the marker of a marked variant.
    pub proof fn lemma_directives_keep_marker(
        self,
        before: DefaultMarker,
        implemented: bool,
        directives: Seq<Meta>,
        count: int,
        catalogue: Catalogue,
    )
        requires
            self.default.marked(),
        ensures
            self.with_directives(before, implemented, directives, count, catalogue) matches Ok(attr)
                ==> attr.default == self.default,
        decreases count,
    {
        if count > 0 {
            self.lemma_directives_keep_marker(
                before,
                implemented,
                directives,
                count - 1,
                catalogue,
            );
        }
    }

    /// Without a marker before them, directives leave the variant marked only
    /// where `Default` is asked for and no earlier variant is marked.
    pub proof fn lemma_directives_marked_only_if_implemented(
        self,
        before: DefaultMarker,
        implemented: bool,
        directives: Seq<Meta>,
        count: int,
        catalogue: Catalogue,
    )
        requires
            !self.default.marked(),
        ensures
            self.with_directives(before, implemented, directives, count, catalogue) matches Ok(attr)
                ==> attr.default.marked() ==> implemented && !before.marked(),
        decreases count,
    {
        if count > 0 {
            self.lemma_directives_marked_only_if_implemented(
                before,
                implemented,
                directives,
                count - 1,
                catalogue,
            );
            match self.with_directives(before, implemented, directives, count - 1, catalogue) {
                Ok(so_far) => {
                    if so_far.default.marked() {
                        assert(so_far.with_directive(
                            before,
                            implemented,
                            directives[count - 1],
                            catalogue,
                        )
                            matches Ok(attr) ==> attr.default == so_far.default);
                    }
                },
                _ => {},
            }
        }
    }

    /// Where an earlier variant is marked `default`, the first `default` on a
    /// later variant is refused as a duplicate: the attributes before its own
    /// and the directives before it are read without complaint.
    pub proof fn lemma_second_default_refused(
        before: DefaultMarker,
        attributes: Seq<Attribute>,
        attribute: int,
        directive: int,
        catalogue: Catalogue,
    )
        requires
            before.marked(),
            0 <= attribute < attributes.len(),
            VariantAttr::plain().with_attributes(
                before,
                true,
                attributes,
                attribute,
                catalogue,
            ) matches Ok(
                so_far,
            ) && (options_of(attributes[attribute]) matches Ok(Some(directives)) && 0 <= directive
                < directives.len() && so_far.with_directives(
                    before,
                    true,
                    directives,
                    directive,
                    catalogue,
                )
                is Ok && directives[directive].name@ == "default"@ && directives[directive].form
                is Word),
        ensures
            VariantAttr::read(before, true, attributes, catalogue) == Err::<VariantAttr, ErrorView>(
                ErrorView::plain(
                    ErrorKind::DefaultDuplicate,
                    options_of(attributes[attribute])->Ok_0->Some_0[directive].span,
                ),
            ),
    {
        let so_far = VariantAttr::plain().with_attributes(
            before,
            true,
            attributes,
            attribute,
            catalogue,
        )->Ok_0;
        let directives = options_of(attributes[attribute])->Ok_0->Some_0;
        let then = so_far.with_directives(before, true, directives, directive, catalogue)->Ok_0;
        VariantAttr::plain().lemma_marked_only_if_implemented(
            before,
            true,
            attributes,
            attribute,
            catalogue,
        );
        so_far.lemma_directives_marked_only_if_implemented(
            before,
            true,
            directives,
            directive,
            catalogue,
        );
        assert(!then.default.marked());
        reveal_strlit("default");
        reveal_strlit("skip_inner");
        assert("default"@.len() == 7 && "skip_inner"@.len() == 10);
        then.default.lemma_second_marker_refused(before, directives[directive], true);
        assert(so_far.with_directives(before, true, directives, directive + 1, catalogue) is Err);
        so_far.lemma_with_directives_fails(
            before,
            true,
            directives,
            directive + 1,
            directives.len() as int,
            catalogue,
        );
        assert(VariantAttr::plain().with_attributes(
            before,
            true,
            attributes,
            attribute + 1,
            catalogue,
        )
            is Err);
        VariantAttr::plain().lemma_with_attributes_fails(
            before,
            true,
            attributes,
            attribute + 1,
            attributes.len() as int,
            catalogue,
        );
    }

    fn add_directive(
        &mut self,
        directive: &Meta,
        implemented: bool,
        accumulated: &mut DefaultMarker,
        Ghost(before): Ghost<DefaultMarker>,
        catalogue: Catalogue,
    ) -> (outcome: Result<(), Error>)
        requires
            *old(accumulated) == old(self).accumulated(before),
        ensures
            match outcome {
                Ok(()) => old(self).with_directive(
                    before,
                    implemented,
                    *directive,
                    catalogue,
                ) == Ok::<
                    VariantAttr,
                    ErrorView,
                >(*final(self)) && *final(accumulated) == final(self).accumulated(before),
                Err(error) => old(self).with_directive(
                    before,
                    implemented,
                    *directive,
                    catalogue,
                ) == Err::<
                    VariantAttr,
                    ErrorView,
                >(error@),
            },
    {
        if is_word(&directive.name, "skip_inner") {
            let mut skip_inner = self.skip_inner;
            match skip_inner.add_attribute(&Skip::Nothing, directive, catalogue) {
                Ok(()) => {
                    self.skip_inner = skip_inner;
                    Ok(())
                },
                Err(error) => Err(error),
            }
        } else if is_word(&directive.name, "default") {
            let mut default = self.default;
            match default.add_attribute(directive, implemented, accumulated) {
                Ok(()) => {
                    self.default = default;
                    Ok(())
                },
                Err(error) => Err(error),
            }
        } else {
            Err(Error::option(directive.span))
        }
    }

    #[verifier::loop_isolation(false)]
    fn add_attribute(
        &mut self,
        attribute: &Attribute,
        implemented: bool,
        accumulated: &mut DefaultMarker,
        Ghost(before): Ghost<DefaultMarker>,
        catalogue: Catalogue,
    ) -> (outcome: Result<(), Error>)
        requires
            *old(accumulated) == old(self).accumulated(before),
        ensures
            match outcome {
                Ok(()) => old(self).with_attribute(
                    before,
                    implemented,
                    *attribute,
                    catalogue,
                ) == Ok::<
                    VariantAttr,
                    ErrorView,
                >(*final(self)) && *final(accumulated) == final(self).accumulated(before),
                Err(error) => old(self).with_attribute(
                    before,
                    implemented,
                    *attribute,
                    catalogue,
                ) == Err::<
                    VariantAttr,
                    ErrorView,
                >(error@),
            },
    {
        let directives = match options(attribute) {
            Err(error) => {
                return Err(error);
            },
            Ok(None) => {
                return Ok(());
            },
            Ok(Some(directives)) => directives,
        };
        let mut attr = *self;
        let mut i: usize = 0;
        while i < directives.len()
            invariant
                i <= directives@.len(),
                old(self).with_directives(
                    before,
                    implemented,
                    directives@,
                    i as int,
                    catalogue,
                ) == Ok::<
                    VariantAttr,
                    ErrorView,
                >(attr),
                *accumulated == attr.accumulated(before),
            decreases directives@.len() - i,
        {
            match attr.add_directive(
                &directives[i],
                implemented,
                accumulated,
                Ghost(before),
                catalogue,
            ) {
                Ok(()) => {},
                Err(error) => {
                    proof {
                        assert(old(self).with_directives(
                            before,
                            implemented,
                            directives@,
                            i as int + 1,
                            catalogue,
                        ) == Err::<VariantAttr, ErrorView>(error@));
                        old(self).lemma_with_directives_fails(
                            before,
                            implemented,
                            directives@,
                            i as int + 1,
                            directives@.len() as int,
                            catalogue,
                        );
                    }
                    return Err(error);
                },
            }
            i += 1;
        }
        *self = attr;
        Ok(())
    }

    /// Reads the attributes of a variant. `implemented` says whether `Default` is
    /// asked for; `accumulated` is the marker of the variants before this one and
    /// becomes that of the variants up to and with it.
    #[verifier::loop_isolation(false)]
    pub fn from_attrs(
        attrs: &Vec<Attribute>,
        implemented: bool,
        accumulated: &mut DefaultMarker,
        catalogue: Catalogue,
    ) -> (outcome: Result<VariantAttr, Error>)
        ensures
            match outcome {
                Ok(attr) => VariantAttr::read(
                    *old(accumulated),
                    implemented,
                    attrs@,
                    catalogue,
                ) == Ok::<
                    VariantAttr,
                    ErrorView,
                >(attr) && *final(accumulated) == attr.accumulated(*old(accumulated)),
                Err(error) => VariantAttr::read(
                    *old(accumulated),
                    implemented,
                    attrs@,
                    catalogue,
                ) == Err::<
                    VariantAttr,
                    ErrorView,
                >(error@),
            },
    {
        let ghost before = *accumulated;
        let mut attr = VariantAttr { default: DefaultMarker::new(), skip_inner: Skip::Nothing };
        let mut i: usize = 0;
        while i < attrs.len()
            invariant
                i <= attrs@.len(),
                VariantAttr::plain().with_attributes(
                    before,
                    implemented,
                    attrs@,
                    i as int,
                    catalogue,
                ) == Ok::<
                    VariantAttr,
                    ErrorView,
                >(attr),
                *accumulated == attr.accumulated(before),
            decreases attrs@.len() - i,
        {
            match attr.add_attribute(
                &attrs[i],
                implemented,
                accumulated,
                Ghost(before),
                catalogue,
            ) {
                Ok(()) => {},
                Err(error) => {
                    proof {
                        assert(VariantAttr::plain().with_attributes(
                            before,
                            implemented,
                            attrs@,
                            i as int + 1,
                            catalogue,
                        ) == Err::<VariantAttr, ErrorView>(error@));
                        VariantAttr::plain().lemma_with_attributes_fails(
                            before,
                            implemented,
                            attrs@,
                            i as int + 1,
                            attrs@.len() as int,
                            catalogue,
                        );
                    }
                    return Err(error);
                },
            }
            i += 1;
        }
        Ok(attr)
    }
}

} // verus!
