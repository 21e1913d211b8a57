//! The attributes on the item itself.

use crate::attr::derive_where::{DeriveWhere, DeriveWhereView};
use crate::attr::skip::Skip;
use crate::code::is_word;
use crate::error::{outcome_view, step_view, Error, ErrorKind, ErrorView};
use crate::syntax::{Attribute, Content, Data, Delimiter, MetaList};
use crate::trait_::{Catalogue, Trait, Verdict};
use crate::views::{lemma_views_empty, lemma_views_push, views};
use vstd::prelude::*;

verus! {

/// What the attributes of an item ask for.
#[derive(Debug)]
pub struct ItemAttr {
    /// For which traits the fields of a struct or union are left out.
    pub skip_inner: Skip,
    /// The attributes that list traits, in the order of the source.
    pub derive_wheres: Vec<DeriveWhere>,
}

/// What the attributes of an item ask for, as a mathematical value.
pub struct ItemAttrView {
    pub skip_inner: Skip,
    pub derive_wheres: Seq<DeriveWhereView>,
}

impl View for ItemAttr {
    type V = ItemAttrView;

    open spec fn view(&self) -> ItemAttrView {
        ItemAttrView { skip_inner: self.skip_inner, derive_wheres: views(self.derive_wheres@) }
    }
}

impl ItemAttrView {
    /// An item without attributes.
    pub open spec fn plain() -> ItemAttrView {
        ItemAttrView { skip_inner: Skip::Nothing, derive_wheres: Seq::empty() }
    }

    /// Whether the list is a `skip_inner` option rather than a list of traits.
    pub open spec fn is_skip_inner(list: MetaList) -> bool {
        list.items@.len() == 1 && list.items@[0].name@ == "skip_inner"@ && list.delimiter is End
    }

    /// What is asked for after one more attribute, or why the attribute is
    /// refused. An enum takes `skip_inner` on its variants only. `problems`
    /// holds, for each directive of the attribute, what the reader of paths said
    /// about it.
    pub open spec fn with_attribute(
        self,
        attribute: Attribute,
        data: Data,
        problems: Seq<Verdict>,
        catalogue: Catalogue,
    )
        -> Result<ItemAttrView, ErrorView> {
        if attribute.path@ != "derive_where"@ {
            Ok(self)
        } else {
            match attribute.content {
                Content::Unreadable(message) => Err(
                    ErrorView::quoting(ErrorKind::AttributeSyntax, attribute.span, message@),
                ),
                Content::Bare => Err(ErrorView::plain(ErrorKind::OptionSyntax, attribute.span)),
                Content::List(list) => if ItemAttrView::is_skip_inner(list) {
                    if data is Enum {
                        Err(ErrorView::plain(ErrorKind::UnknownOption, list.items@[0].span))
                    } else {
                        match self.skip_inner.after(Skip::Nothing, list.items@[0], catalogue) {
                            Err(error) => Err(error),
                            Ok(skip_inner) => Ok(ItemAttrView { skip_inner, ..self }),
                        }
                    }
                } else {
                    match DeriveWhereView::read(
                        attribute.span,
                        list,
                        data is Union,
                        problems,
                        catalogue,
                    ) {
                        Err(error) => Err(error),
                        Ok(derive_where) => Ok(
                            ItemAttrView {
                                derive_wheres: self.derive_wheres.push(derive_where),
                                ..self
                            },
                        ),
                    }
                },
            }
        }
    }

    /// What is asked for after the first `count` attributes, or the first
    /// complaint about one of them. `verdicts` holds, for each attribute and
    /// each of its directives, what the reader of paths said about it.
    pub open spec fn with_attributes(
        self,
        attributes: Seq<Attribute>,
        count: int,
        data: Data,
        verdicts: Seq<Seq<Verdict>>,
        catalogue: Catalogue,
    ) -> Result<ItemAttrView, ErrorView>
        decreases count,
    {
        if count <= 0 {
            Ok(self)
        } else {
            match self.with_attributes(attributes, count - 1, data, verdicts, catalogue) {
                Err(error) => Err(error),
                Ok(before) => before.with_attribute(
                    attributes[count - 1],
                    data,
                    verdicts[count - 1],
                    catalogue,
                ),
            }
        }
    }

    /// What the attributes of an item with the given body ask for, or the first
    /// complaint about them.
    pub open spec fn read(
        data: Data,
        attributes: Seq<Attribute>,
        verdicts: Seq<Seq<Verdict>>,
        catalogue: Catalogue,
    )
        -> Result<ItemAttrView, ErrorView> {
        ItemAttrView::plain().with_attributes(
            attributes,
            attributes.len() as int,
            data,
            verdicts,
            catalogue,
        )
    }

    /// Whether the reader of paths is asked about some directive of the
    /// attribute.
    pub open spec fn asks_about(attribute: Attribute, data: Data, catalogue: Catalogue) -> bool {
        attribute.path@ == "derive_where"@ && (attribute.content matches Content::List(list)
            && !ItemAttrView::is_skip_inner(list) && DeriveWhereView::asks_about(
            list,
            data is Union,
            catalogue,
        ))
    }

    /// Whether the reader of paths is asked about some directive of some
    /// attribute: about the value of a `crate` option.
    pub open spec fn asks(data: Data, attributes: Seq<Attribute>, catalogue: Catalogue) -> bool {
        exists|index: int|
            0 <= index < attributes.len() && ItemAttrView::asks_about(
                #[trigger] attributes[index],
                data,
                catalogue,
            )
    }

    /// What is read of the first attributes depends on what the reader of paths
    /// said about these and about no others.
    pub proof fn lemma_with_attributes_same(
        self,
        attributes: Seq<Attribute>,
        count: int,
        data: Data,
        one: Seq<Seq<Verdict>>,
        other: Seq<Seq<Verdict>>,
        catalogue: Catalogue,
    )
        requires
            count <= attributes.len(),
            forall|index: int|
                0 <= index < count ==> one[index] == other[index] || !ItemAttrView::asks_about(
                    #[trigger] attributes[index],
                    data,
                    catalogue,
                ),
        ensures
            self.with_attributes(attributes, count, data, one, catalogue) == self.with_attributes(
                attributes,
                count,
                data,
                other,
                catalogue,
            ),
        decreases count,
    {
        if count > 0 {
            self.lemma_with_attributes_same(attributes, count - 1, data, one, other, catalogue);
            let attribute = attributes[count - 1];
            if !ItemAttrView::asks_about(attribute, data, catalogue) {
                match attribute.content {
                    Content::List(list) => {
                        if !ItemAttrView::is_skip_inner(list) && attribute.path@
                            == "derive_where"@ {
                            DeriveWhereView::lemma_read_unasked(
                                attribute.span,
                                list,
                                data is Union,
                                one[count - 1],
                                other[count - 1],
                                catalogue,
                            );
                        }
                    },
                    _ => {},
                }
            }
        }
    }

    /// Where the reader of paths is not asked at all, the attributes alone
    /// decide what is read.
    pub proof fn lemma_read_unasked(
        data: Data,
        attributes: Seq<Attribute>,
        one: Seq<Seq<Verdict>>,
        other: Seq<Seq<Verdict>>,
        catalogue: Catalogue,
    )
        requires
            !ItemAttrView::asks(data, attributes, catalogue),
        ensures
            ItemAttrView::read(data, attributes, one, catalogue) == ItemAttrView::read(
                data,
                attributes,
                other,
                catalogue,
            ),
    {
        ItemAttrView::plain().lemma_with_attributes_same(
            attributes,
            attributes.len() as int,
            data,
            one,
            other,
            catalogue,
        );
    }

    /// Whether a union can have every trait that is asked for.
    pub open spec fn for_unions(self) -> bool {
        forall|i: int|
            0 <= i < self.derive_wheres.len() ==> (#[trigger] self.derive_wheres[i]).for_unions()
    }

    /// For a union, the attributes ask only for traits that a union can have.
    pub proof fn lemma_with_attributes_for_union(
        self,
        attributes: Seq<Attribute>,
        count: int,
        data: Data,
        verdicts: Seq<Seq<Verdict>>,
        catalogue: Catalogue,
    )
        requires
            data is Union,
            self.for_unions(),
        ensures
            self.with_attributes(attributes, count, data, verdicts, catalogue) matches Ok(attr)
                ==> attr.for_unions(),
        decreases count,
    {
        if count > 0 {
            self.lemma_with_attributes_for_union(attributes, count - 1, data, verdicts, catalogue);
            match attributes[count - 1].content {
                Content::List(list) => {
                    DeriveWhereView::lemma_read_for_union(
                        attributes[count - 1].span,
                        list,
                        verdicts[count - 1],
                        catalogue,
                    );
                },
                _ => {},
            }
        }
    }

    /// For a union, the first directive that asks for a trait other than `Clone`
    /// and `Copy` is refused as such: the attributes before its own and the
    /// directives before it are read without complaint.
    pub proof fn lemma_union_trait_refused(
        data: Data,
        attributes: Seq<Attribute>,
        verdicts: Seq<Seq<Verdict>>,
        attribute: int,
        directive: int,
        catalogue: Catalogue,
    )
        requires
            data is Union,
            0 <= attribute < attributes.len(),
            ItemAttrView::plain().with_attributes(
                attributes,
                attribute,
                data,
                verdicts,
                catalogue,
            ) is Ok,
            attributes[attribute].path@ == "derive_where"@,
            attributes[attribute].content matches Content::List(list)
                && !ItemAttrView::is_skip_inner(list) && 0 <= directive < list.items@.len()
                && DeriveWhereView::traits_read(
                list.items@,
                directive,
                true,
                verdicts[attribute],
                catalogue,
            ) is Ok && (list.items@[directive].form is Word || list.items@[directive].form
                is List) && (Trait::named(
                    list.items@[directive].name@,
                    catalogue,
                ) matches Some(trait_)
                && !trait_.for_unions()),
        ensures
            ItemAttrView::read(
                data,
                attributes,
                verdicts,
                catalogue,
            ) == Err::<ItemAttrView, ErrorView>(
                ErrorView::plain(
                    ErrorKind::UnionTrait,
                    attributes[attribute].content->List_0.items@[directive].span,
                ),
            ),
    {
        let list = attributes[attribute].content->List_0;
        DeriveWhereView::lemma_read_refused_for_union(
            attributes[attribute].span,
            list,
            verdicts[attribute],
            directive,
            catalogue,
        );
        assert(ItemAttrView::plain().with_attributes(
            attributes,
            attribute + 1,
            data,
            verdicts,
            catalogue,
        )
            is Err);
        ItemAttrView::plain().lemma_with_attributes_fails(
            attributes,
            attribute + 1,
            attributes.len() as int,
            data,
            verdicts,
            catalogue,
        );
    }

    /// A complaint about one of the first attributes stays the complaint about all.
    pub proof fn lemma_with_attributes_fails(
        self,
        attributes: Seq<Attribute>,
        count: int,
        more: int,
        data: Data,
        verdicts: Seq<Seq<Verdict>>,
        catalogue: Catalogue,
    )
        requires
            count <= more,
            self.with_attributes(attributes, count, data, verdicts, catalogue) is Err,
        ensures
            self.with_attributes(
                attributes,
                more,
                data,
                verdicts,
                catalogue,
            ) == self.with_attributes(
                attributes,
                count,
                data,
                verdicts,
                catalogue,
            ),
        decreases more - count,
    {
        if count < more {
            self.lemma_with_attributes_fails(
                attributes,
                count,
                more - 1,
                data,
                verdicts,
                catalogue,
            );
        }
    }
}

impl ItemAttr {
    fn is_skip_inner(list: &MetaList) -> (found: bool)
        ensures
            found == ItemAttrView::is_skip_inner(*list),
    {
        if list.items.len() != 1 {
            return false;
        }
        if !is_word(&list.items[0].name, "skip_inner") {
            return false;
        }
        match list.delimiter {
            Delimiter::End => true,
            _ => false,
        }
    }

    fn add_attribute(
        &mut self,
        attribute: &Attribute,
        data: &Data,
        catalogue: Catalogue,
    ) -> (outcome: (
        Result<(), Error>,
        Ghost<Seq<Verdict>>,
    ))
        ensures
            old(self)@.with_attribute(*attribute, *data, outcome.1@, catalogue) == step_view(
                outcome.0,
                final(self)@,
            ),
    {
        let ghost unasked: Seq<Verdict> = Seq::empty();
        if !is_word(&attribute.path, "derive_where") {
            return (Ok(()), Ghost(unasked));
        }
        match &attribute.content {
            Content::Unreadable(message) => (
                Err(Error::attribute_syntax(attribute.span, message.as_str())),
                Ghost(unasked),
            ),
            Content::Bare => (Err(Error::option_syntax(attribute.span)), Ghost(unasked)),
            Content::List(list) => {
                if ItemAttr::is_skip_inner(list) {
                    if let Data::Enum(_) = data {
                        return (Err(Error::option(list.items[0].span)), Ghost(unasked));
                    }
                    let mut skip_inner = self.skip_inner;
                    match skip_inner.add_attribute(&Skip::Nothing, &list.items[0], catalogue) {
                        Ok(()) => {
                            self.skip_inner = skip_inner;
                            (Ok(()), Ghost(unasked))
                        },
                        Err(error) => (Err(error), Ghost(unasked)),
                    }
                } else {
                    let union = match data {
                        Data::Union(_) => true,
                        _ => false,
                    };
                    let read = DeriveWhere::read_asking(attribute.span, list, union, catalogue);
                    match read.0 {
                        Ok(derive_where) => {
                            proof {
                                lemma_views_push(self.derive_wheres@, derive_where);
                            }
                            self.derive_wheres.push(derive_where);
                            (Ok(()), read.1)
                        },
                        Err(error) => (Err(error), read.1),
                    }
                }
            },
        }
    }

    /// Reads the attributes of an item with the given body. The reader of paths
    /// is asked about the value of each first `crate` option; where there is
    /// none, the attributes alone decide.
    pub fn from_attrs(
        data: &Data,
        attrs: &Vec<Attribute>,
        catalogue: Catalogue,
    ) -> (outcome: Result<ItemAttr, Error>)
        ensures
            ({
                let seen = outcome_view(outcome);
                &&& exists|verdicts: Seq<Seq<Verdict>>| #[trigger]
                    ItemAttrView::read(*data, attrs@, verdicts, catalogue) == seen
                &&& !ItemAttrView::asks(*data, attrs@, catalogue) ==> ItemAttrView::read(
                    *data,
                    attrs@,
                    Seq::empty(),
                    catalogue,
                ) == seen
            }),
    {
        let outcome = ItemAttr::read_asking(data, attrs, catalogue);
        proof {
            let seen = outcome_view(outcome.0);
            assert(ItemAttrView::read(*data, attrs@, outcome.1@, catalogue) == seen);
            if !ItemAttrView::asks(*data, attrs@, catalogue) {
                ItemAttrView::lemma_read_unasked(
                    *data,
                    attrs@,
                    outcome.1@,
                    Seq::empty(),
                    catalogue,
                );
            }
        }
        outcome.0
    }

    /// Reads the attributes of an item and keeps what the reader of paths said.
    #[verifier::loop_isolation(false)]
    pub(crate) fn read_asking(
        data: &Data,
        attrs: &Vec<Attribute>,
        catalogue: Catalogue,
    ) -> (outcome: (
        Result<ItemAttr, Error>,
        Ghost<Seq<Seq<Verdict>>>,
    ))
        ensures
            ItemAttrView::read(*data, attrs@, outcome.1@, catalogue) == outcome_view(outcome.0),
    {
        let ghost mut said: Seq<Seq<Verdict>> = Seq::empty();
        let mut attr = ItemAttr { skip_inner: Skip::Nothing, derive_wheres: Vec::new() };
        proof {
            lemma_views_empty::<DeriveWhere>();
        }
        let mut i: usize = 0;
        while i < attrs.len()
            invariant
                i <= attrs@.len(),
                said.len() == i,
                ItemAttrView::plain().with_attributes(
                    attrs@,
                    i as int,
                    *data,
                    said,
                    catalogue,
                ) == Ok::<
                    ItemAttrView,
                    ErrorView,
                >(attr@),
            decreases attrs@.len() - i,
        {
            let added = attr.add_attribute(&attrs[i], data, catalogue);
            proof {
                ItemAttrView::plain().lemma_with_attributes_same(
                    attrs@,
                    i as int,
                    *data,
                    said,
                    said.push(added.1@),
                    catalogue,
                );
                said = said.push(added.1@);
            }
            match added.0 {
                Ok(()) => {},
                Err(error) => {
                    proof {
                        assert(ItemAttrView::plain().with_attributes(
                            attrs@,
                            i as int + 1,
                            *data,
                            said,
                            catalogue,
                        ) == Err::<ItemAttrView, ErrorView>(error@));
                        ItemAttrView::plain().lemma_with_attributes_fails(
                            attrs@,
                            i as int + 1,
                            attrs@.len() as int,
                            *data,
                            said,
                            catalogue,
                        );
                    }
                    return (Err(error), Ghost(said));
                },
            }
            i += 1;
        }
        (Ok(attr), Ghost(said))
    }
}

} // verus!
