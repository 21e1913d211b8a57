//! The description of a whole item, as it stands once the item is accepted.

use crate::attr::default::DefaultMarker;
use crate::attr::derive_where::{any_implements, implements_any, DeriveWhere, DeriveWhereView};
use crate::attr::item::{ItemAttr, ItemAttrView};
use crate::attr::field::FieldAttr;
use crate::attr::skip::Skip;
use crate::attr::variant::VariantAttr;
use crate::attr::options_of;
use crate::data::{Data, DataType, DataView, FieldView};
use crate::error::{outcome_view, Error, ErrorKind, ErrorView};
use crate::span::Span;
use crate::syntax;
use crate::trait_::{Catalogue, Trait, Verdict};
use crate::views::{lemma_views_empty, lemma_views_push, views};
use vstd::prelude::*;

verus! {

/// The fields or variants of an item.
#[derive(Debug)]
pub enum Item {
    /// An enum.
    Enum {
        /// The name of the enum.
        ident: String,
        /// The variants in the order of their declaration.
        variants: Vec<Data>,
    },
    /// A struct or a union.
    Item(Data),
}

/// The fields or variants of an item as a mathematical value.
pub enum ItemView {
    Enum { ident: Seq<char>, variants: Seq<DataView> },
    Item(DataView),
}

impl View for Item {
    type V = ItemView;

    open spec fn view(&self) -> ItemView {
        match self {
            Item::Enum { ident, variants } => ItemView::Enum {
                ident: ident@,
                variants: views(variants@),
            },
            Item::Item(data) => ItemView::Item(data@),
        }
    }
}

/// An accepted item, ready for the traits to be implemented.
#[derive(Debug)]
pub struct Input<'a> {
    /// The attributes that list traits, in the order of the source.
    pub derive_wheres: Vec<DeriveWhere>,
    /// The place of the item.
    pub span: Span,
    /// The generic parameters that an `impl` has to declare.
    pub generics: &'a syntax::Generics,
    /// The fields or variants.
    pub item: Item,
}

/// An accepted item as a mathematical value.
pub struct InputView {
    pub derive_wheres: Seq<DeriveWhereView>,
    pub span: Span,
    pub generics: syntax::Generics,
    pub item: ItemView,
}

impl<'a> View for Input<'a> {
    type V = InputView;

    open spec fn view(&self) -> InputView {
        InputView {
            derive_wheres: views(self.derive_wheres@),
            span: self.span,
            generics: *self.generics,
            item: self.item@,
        }
    }
}

impl ItemView {
    /// The name of the item.
    pub open spec fn ident(self) -> Seq<char> {
        match self {
            ItemView::Item(data) => data.ident,
            ItemView::Enum { ident, .. } => ident,
        }
    }

    /// The bodies of the item: the one of a struct or union, or the variants of
    /// an enum in the order of their declaration.
    pub open spec fn bodies(self) -> Seq<DataView> {
        match self {
            ItemView::Item(data) => seq![data],
            ItemView::Enum { variants, .. } => variants,
        }
    }

    /// Whether the item is a union.
    pub open spec fn is_union(self) -> bool {
        self matches ItemView::Item(data) && data.type_ is Union
    }

    /// Whether values of the item can differ in their variant: an enum with
    /// more than one variant.
    pub open spec fn has_tags(self) -> bool {
        self matches ItemView::Enum { variants, .. } && variants.len() > 1
    }

    /// Whether some body of the item has no field that takes part in the
    /// implementation of the trait.
    pub open spec fn any_empty(self, trait_: Trait) -> bool {
        exists|index: int|
            0 <= index < self.bodies().len() && (#[trigger] self.bodies()[index]).is_empty(
                trait_,
            )
    }

    /// Whether some attribute skips a field.
    pub open spec fn any_skip(self) -> bool {
        match self {
            ItemView::Item(data) => data.any_skip(),
            ItemView::Enum { variants, .. } => exists|index: int|
                0 <= index < variants.len() && (#[trigger] variants[index]).any_skip(),
        }
    }

    /// Whether `Default` is implemented for an enum.
    pub open spec fn any_default(self, derive_wheres: Seq<DeriveWhereView>) -> bool {
        self is Enum && any_implements(derive_wheres, Trait::Default)
    }

    /// Whether some field asks for the call of `zeroize` by full path.
    pub open spec fn any_fqs(self) -> bool {
        match self {
            ItemView::Item(data) => data.any_fqs(),
            ItemView::Enum { variants, .. } => exists|index: int|
                0 <= index < variants.len() && (#[trigger] variants[index]).any_fqs(),
        }
    }

    /// Whether no field of the item takes part in the implementation of the
    /// trait.
    pub open spec fn is_empty(self, trait_: Trait) -> bool {
        forall|index: int|
            0 <= index < self.bodies().len() ==> (#[trigger] self.bodies()[index]).is_empty(
                trait_,
            )
    }

    /// The variant of an enum with the given name, or the first complaint about
    /// its attributes or fields. `before` is the marker of the variants before
    /// it, and `implemented` says whether `Default` is asked for.
    pub open spec fn variant_read(
        ident: Seq<char>,
        variant: syntax::Variant,
        before: DefaultMarker,
        implemented: bool,
        catalogue: Catalogue,
    ) -> Result<DataView, ErrorView> {
        match VariantAttr::read(before, implemented, variant.attrs@, catalogue) {
            Err(error) => Err(error),
            Ok(attr) => DataView::read_variant(
                ident,
                attr.skip_inner,
                attr.default,
                variant.ident@,
                variant.fields,
                catalogue,
            ),
        }
    }

    /// The marker of the first `count` variants read.
    pub open spec fn marker(variants: Seq<DataView>, count: int) -> DefaultMarker
        decreases count,
    {
        if count <= 0 {
            DefaultMarker::unmarked()
        } else {
            match variants[count - 1].type_ {
                DataType::Variant { default, .. } => if default.marked() {
                    default
                } else {
                    ItemView::marker(variants, count - 1)
                },
                _ => ItemView::marker(variants, count - 1),
            }
        }
    }

    /// The first `count` variants of an enum with the given name, or the first
    /// complaint about one of them.
    pub open spec fn variants_read(
        ident: Seq<char>,
        variants: Seq<syntax::Variant>,
        count: int,
        implemented: bool,
        catalogue: Catalogue,
    ) -> Result<Seq<DataView>, ErrorView>
        decreases count,
    {
        if count <= 0 {
            Ok(Seq::empty())
        } else {
            match ItemView::variants_read(ident, variants, count - 1, implemented, catalogue) {
                Err(error) => Err(error),
                Ok(before) => match ItemView::variant_read(
                    ident,
                    variants[count - 1],
                    ItemView::marker(before, count - 1),
                    implemented,
                    catalogue,
                ) {
                    Err(error) => Err(error),
                    Ok(variant) => Ok(before.push(variant)),
                },
            }
        }
    }

    /// The item with the given name and body, or the first complaint about it:
    /// a struct needs a body, and an enum for which `Default` is implemented
    /// needs a variant marked `default`.
    pub open spec fn read(
        span: Span,
        ident: Seq<char>,
        data: syntax::Data,
        attr: ItemAttrView,
        catalogue: Catalogue,
    )
        -> Result<ItemView, ErrorView> {
        match data {
            syntax::Data::Struct(syntax::Fields::Named(fields)) => match DataView::read(
                attr.skip_inner,
                ident,
                ident,
                DataType::Struct,
                fields@,
                true,
                catalogue,
            ) {
                Err(error) => Err(error),
                Ok(data) => Ok(ItemView::Item(data)),
            },
            syntax::Data::Struct(syntax::Fields::Unnamed(fields)) => match DataView::read(
                attr.skip_inner,
                ident,
                ident,
                DataType::Tuple,
                fields@,
                false,
                catalogue,
            ) {
                Err(error) => Err(error),
                Ok(data) => Ok(ItemView::Item(data)),
            },
            syntax::Data::Struct(syntax::Fields::Unit) => Err(
                ErrorView::plain(ErrorKind::UnitStruct, span),
            ),
            syntax::Data::Enum(variants) => {
                let implemented = any_implements(attr.derive_wheres, Trait::Default);
                match ItemView::variants_read(
                    ident,
                    variants@,
                    variants@.len() as int,
                    implemented,
                    catalogue,
                ) {
                    Err(error) => Err(error),
                    Ok(read) => if implemented && !ItemView::marker(
                        read,
                        variants@.len() as int,
                    ).marked() {
                        Err(ErrorView::plain(ErrorKind::DefaultMissing, span))
                    } else {
                        Ok(ItemView::Enum { ident, variants: read })
                    },
                }
            },
            syntax::Data::Union(fields) => match DataView::read(
                attr.skip_inner,
                ident,
                ident,
                DataType::Union,
                fields@,
                true,
                catalogue,
            ) {
                Err(error) => Err(error),
                Ok(data) => Ok(ItemView::Item(data)),
            },
        }
    }

    /// Whether the trait can be written for every body of the item: a union
    /// takes only the traits that a union can have.
    pub open spec fn fits(self, trait_: Trait) -> bool {
        forall|index: int|
            0 <= index < self.bodies().len() ==> (#[trigger] self.bodies()[index]).simple_type()
                is Union ==> trait_.for_unions()
    }

    /// Every variant that is read is described as a variant.
    pub proof fn lemma_variants_read_are_variants(
        ident: Seq<char>,
        variants: Seq<syntax::Variant>,
        count: int,
        implemented: bool,
        catalogue: Catalogue,
    )
        ensures
            ItemView::variants_read(ident, variants, count, implemented, catalogue) matches Ok(read)
                ==> forall|index: int|
                0 <= index < read.len() ==> (#[trigger] read[index]).type_ is Variant,
        decreases count,
    {
        if count > 0 {
            ItemView::lemma_variants_read_are_variants(
                ident,
                variants,
                count - 1,
                implemented,
                catalogue,
            );
        }
    }

    /// Whether the body at `position` is a variant marked `default`.
    pub open spec fn marked(variants: Seq<DataView>, position: int) -> bool {
        variants[position].type_ matches DataType::Variant { default, .. }
            && default.marked()
    }

    /// The marker of some variants is set exactly where one of them is marked.
    pub proof fn lemma_marker_marked(variants: Seq<DataView>, count: int)
        requires
            0 <= count <= variants.len(),
        ensures
            ItemView::marker(variants, count).marked() <==> exists|position: int|
                0 <= position < count && #[trigger] ItemView::marked(variants, position),
        decreases count,
    {
        if count > 0 {
            ItemView::lemma_marker_marked(variants, count - 1);
            if ItemView::marked(variants, count - 1) {
                assert(ItemView::marker(variants, count).marked());
            } else if ItemView::marker(variants, count).marked() {
                let position = choose|position: int|
                    0 <= position < count - 1 && #[trigger] ItemView::marked(variants, position);
                assert(ItemView::marked(variants, position));
            }
        }
    }

    /// Of the variants that are read, at most one is marked `default`, and none
    /// unless `Default` is asked for.
    pub proof fn lemma_variants_read_defaults(
        ident: Seq<char>,
        variants: Seq<syntax::Variant>,
        count: int,
        implemented: bool,
        catalogue: Catalogue,
    )
        requires
            0 <= count,
        ensures
            ItemView::variants_read(
                ident,
                variants,
                count,
                implemented,
                catalogue,
            ) matches Ok(read) ==> {
                &&& read.len() == count
                &&& forall|first: int, second: int|
                    0 <= first < second < count && #[trigger] ItemView::marked(read, first)
                        ==> !#[trigger] ItemView::marked(read, second)
                &&& !implemented ==> forall|position: int|
                    0 <= position < count ==> !#[trigger] ItemView::marked(read, position)
            },
        decreases count,
    {
        if count > 0 {
            ItemView::lemma_variants_read_defaults(
                ident,
                variants,
                count - 1,
                implemented,
                catalogue,
            );
            match ItemView::variants_read(ident, variants, count, implemented, catalogue) {
                Ok(read) => {
                    let before = ItemView::variants_read(
                        ident,
                        variants,
                        count - 1,
                        implemented,
                        catalogue,
                    )->Ok_0;
                    let marker = ItemView::marker(before, count - 1);
                    let variant = variants[count - 1];
                    let attr = VariantAttr::read(
                        marker,
                        implemented,
                        variant.attrs@,
                        catalogue,
                    )->Ok_0;
                    VariantAttr::plain().lemma_marked_only_if_implemented(
                        marker,
                        implemented,
                        variant.attrs@,
                        variant.attrs@.len() as int,
                        catalogue,
                    );
                    ItemView::lemma_marker_marked(before, count - 1);
                    assert(read[count - 1].type_ matches DataType::Variant {
                        default,
                        ..
                    } && default == attr.default);
                    assert forall|position: int| 0 <= position < count - 1 implies ItemView::marked(
                        read,
                        position,
                    ) == ItemView::marked(before, position) by {
                        assert(read[position] == before[position]);
                    }
                    assert forall|first: int, second: int|
                        0 <= first < second < count && #[trigger] ItemView::marked(
                            read,
                            first,
                        ) implies !#[trigger] ItemView::marked(read, second) by {
                        assert(ItemView::marked(before, first));
                        if second < count - 1 {
                            assert(ItemView::marked(read, second) == ItemView::marked(
                                before,
                                second,
                            ));
                        }
                    }
                },
                Err(_) => {},
            }
        }
    }

    /// The fields of the one body of a struct or union, and whether they are
    /// named; nothing for an enum or a struct without a body.
    pub open spec fn single_body(data: syntax::Data) -> Option<(Seq<syntax::Field>, bool)> {
        match data {
            syntax::Data::Struct(syntax::Fields::Named(fields)) => Some((fields@, true)),
            syntax::Data::Struct(syntax::Fields::Unnamed(fields)) => Some((fields@, false)),
            syntax::Data::Union(fields) => Some((fields@, true)),
            _ => None,
        }
    }

    /// A struct or union that skips its fields without constraint is refused
    /// for the first constrained `skip` on one of its fields: the fields before
    /// it, the attributes before its own and the directives before it are read
    /// without complaint.
    pub proof fn lemma_scoped_skip_refused(
        span: Span,
        ident: Seq<char>,
        data: syntax::Data,
        attr: ItemAttrView,
        field: int,
        attribute: int,
        directive: int,
        catalogue: Catalogue,
    )
        requires
            attr.skip_inner is All,
            ItemView::single_body(data) matches Some((fields, named)) && 0 <= field < fields.len()
                && FieldView::all_read(
                    Skip::All,
                    fields,
                    field,
                    named,
                    catalogue,
                ) is Ok && 0 <= attribute
                < fields[field].attrs@.len() && (FieldAttr::plain().with_attributes(
                Skip::All,
                fields[field].attrs@,
                attribute,
                catalogue,
            ) matches Ok(so_far) && (options_of(fields[field].attrs@[attribute]) matches Ok(
                Some(directives),
            ) && 0 <= directive < directives.len() && so_far.with_directives(
                Skip::All,
                directives,
                directive,
                catalogue,
            ) is Ok && directives[directive].name@ == "skip"@ && directives[directive].form
                is List)),
        ensures
            ItemView::read(span, ident, data, attr, catalogue) == Err::<ItemView, ErrorView>(
                ErrorView::plain(
                    ErrorKind::OptionSkipAll,
                    options_of(
                        ItemView::single_body(data)->Some_0.0[field].attrs@[attribute],
                    )->Ok_0->Some_0[directive].span,
                ),
            ),
    {
        let (fields, named) = ItemView::single_body(data)->Some_0;
        FieldAttr::lemma_scoped_skip_refused(fields[field].attrs@, attribute, directive, catalogue);
        FieldView::lemma_all_read_refused(Skip::All, fields, field, named, catalogue);
    }

    /// An enum for which `Default` is asked for is refused for the first
    /// `default` on a variant behind a variant that is marked already: the
    /// variants before it, the attributes before its own and the directives
    /// before it are read without complaint.
    pub proof fn lemma_default_duplicate(
        span: Span,
        ident: Seq<char>,
        data: syntax::Data,
        attr: ItemAttrView,
        variant: int,
        attribute: int,
        directive: int,
        catalogue: Catalogue,
    )
        requires
            any_implements(attr.derive_wheres, Trait::Default),
            data matches syntax::Data::Enum(variants) && 0 <= variant < variants@.len() && (
            ItemView::variants_read(ident, variants@, variant, true, catalogue) matches Ok(before)
                && ItemView::marker(before, variant).marked() && 0 <= attribute
                < variants@[variant].attrs@.len() && (VariantAttr::plain().with_attributes(
                ItemView::marker(before, variant),
                true,
                variants@[variant].attrs@,
                attribute,
                catalogue,
            ) matches Ok(so_far) && (options_of(variants@[variant].attrs@[attribute]) matches Ok(
                Some(directives),
            ) && 0 <= directive < directives.len() && so_far.with_directives(
                ItemView::marker(before, variant),
                true,
                directives,
                directive,
                catalogue,
            ) is Ok && directives[directive].name@ == "default"@ && directives[directive].form
                is Word))),
        ensures
            ItemView::read(span, ident, data, attr, catalogue) == Err::<ItemView, ErrorView>(
                ErrorView::plain(
                    ErrorKind::DefaultDuplicate,
                    options_of(data->Enum_0@[variant].attrs@[attribute])->Ok_0->Some_0[directive].span,
                ),
            ),
    {
        let variants = data->Enum_0;
        let before = ItemView::variants_read(ident, variants@, variant, true, catalogue)->Ok_0;
        VariantAttr::lemma_second_default_refused(
            ItemView::marker(before, variant),
            variants@[variant].attrs@,
            attribute,
            directive,
            catalogue,
        );
        assert(ItemView::variants_read(ident, variants@, variant + 1, true, catalogue) is Err);
        ItemView::lemma_variants_read_fails(
            ident,
            variants@,
            variant + 1,
            variants@.len() as int,
            true,
            catalogue,
        );
    }

    /// An enum for which `Default` is asked for is refused where its variants are
    /// read without complaint and none of them is marked `default`.
    pub proof fn lemma_default_missing(
        span: Span,
        ident: Seq<char>,
        data: syntax::Data,
        attr: ItemAttrView,
        catalogue: Catalogue,
    )
        requires
            any_implements(attr.derive_wheres, Trait::Default),
            data matches syntax::Data::Enum(variants) && (ItemView::variants_read(
                ident,
                variants@,
                variants@.len() as int,
                true,
                catalogue,
            ) matches Ok(read) && forall|position: int|
                0 <= position < read.len() ==> !#[trigger] ItemView::marked(read, position)),
        ensures
            ItemView::read(span, ident, data, attr, catalogue) == Err::<ItemView, ErrorView>(
                ErrorView::plain(ErrorKind::DefaultMissing, span),
            ),
    {
        let variants = data->Enum_0;
        let read = ItemView::variants_read(
            ident,
            variants@,
            variants@.len() as int,
            true,
            catalogue,
        )->Ok_0;
        ItemView::lemma_variants_read_defaults(
            ident,
            variants@,
            variants@.len() as int,
            true,
            catalogue,
        );
        ItemView::lemma_marker_marked(read, variants@.len() as int);
    }

    /// A complaint about one of the first variants stays the complaint about all.
    pub proof fn lemma_variants_read_fails(
        ident: Seq<char>,
        variants: Seq<syntax::Variant>,
        count: int,
        more: int,
        implemented: bool,
        catalogue: Catalogue,
    )
        requires
            count <= more,
            ItemView::variants_read(ident, variants, count, implemented, catalogue) is Err,
        ensures
            ItemView::variants_read(
                ident,
                variants,
                more,
                implemented,
                catalogue,
            ) == ItemView::variants_read(
                ident,
                variants,
                count,
                implemented,
                catalogue,
            ),
        decreases more - count,
    {
        if count < more {
            ItemView::lemma_variants_read_fails(
                ident,
                variants,
                count,
                more - 1,
                implemented,
                catalogue,
            );
        }
    }

    /// The variants are read one for one, in the order of their declaration.
    pub proof fn lemma_variants_in_declaration_order(
        ident: Seq<char>,
        variants: Seq<syntax::Variant>,
        count: int,
        implemented: bool,
        catalogue: Catalogue,
    )
        requires
            0 <= count,
        ensures
            ItemView::variants_read(
                ident,
                variants,
                count,
                implemented,
                catalogue,
            ) matches Ok(read) ==> {
                &&& read.len() == count
                &&& forall|index: int|
                    0 <= index < count ==> (#[trigger] read[index]).ident == variants[index].ident@
                        && read[index].path == Data::variant_path(ident, variants[index].ident@)
            },
        decreases count,
    {
        if count > 0 {
            ItemView::lemma_variants_in_declaration_order(
                ident,
                variants,
                count - 1,
                implemented,
                catalogue,
            );
        }
    }

    /// The marker of some variants does not change when more variants follow.
    pub proof fn lemma_marker_of_prefix(variants: Seq<DataView>, more: DataView, count: int)
        requires
            0 <= count <= variants.len(),
        ensures
            ItemView::marker(variants.push(more), count) == ItemView::marker(variants, count),
        decreases count,
    {
        if count > 0 {
            ItemView::lemma_marker_of_prefix(variants, more, count - 1);
        }
    }
}

impl InputView {
    /// The description of the item at `span` once accepted, or the first
    /// complaint: the attributes of the item are read first, then its body, and
    /// last the item is refused if the standard `derive` would do for it.
    /// `verdicts` holds, for each attribute of the item and each of its
    /// directives, what the reader of paths said about it.
    pub open spec fn read(
        span: Span,
        input: syntax::DeriveInput,
        verdicts: Seq<Seq<Verdict>>,
        catalogue: Catalogue,
    )
        -> Result<InputView, ErrorView> {
        match ItemAttrView::read(input.data, input.attrs@, verdicts, catalogue) {
            Err(error) => Err(error),
            Ok(attr) => match ItemView::read(span, input.ident@, input.data, attr, catalogue) {
                Err(error) => Err(error),
                Ok(item) => if !(input.generics.has_params || item.any_skip() || item.any_default(
                    attr.derive_wheres,
                ) || item.any_fqs()) {
                    Err(ErrorView::plain(ErrorKind::UnsupportedItem, span))
                } else {
                    Ok(
                        InputView {
                            derive_wheres: attr.derive_wheres,
                            span,
                            generics: input.generics,
                            item,
                        },
                    )
                },
            },
        }
    }
}

impl InputView {
    /// Whether the reader of paths is asked about the item: about the value of
    /// a `crate` option of one of its attributes.
    pub open spec fn asks(input: syntax::DeriveInput, catalogue: Catalogue) -> bool {
        ItemAttrView::asks(input.data, input.attrs@, catalogue)
    }

    /// Where the reader of paths is not asked, the item alone decides what is
    /// read of it.
    pub proof fn lemma_read_unasked(
        span: Span,
        input: syntax::DeriveInput,
        one: Seq<Seq<Verdict>>,
        other: Seq<Seq<Verdict>>,
        catalogue: Catalogue,
    )
        requires
            !InputView::asks(input, catalogue),
        ensures
            InputView::read(
                span,
                input,
                one,
                catalogue,
            ) == InputView::read(span, input, other, catalogue),
    {
        ItemAttrView::lemma_read_unasked(input.data, input.attrs@, one, other, catalogue);
    }

    /// A union is refused for the first directive that asks for a trait other
    /// than `Clone` and `Copy`: the attributes before its own and the directives
    /// before it are read without complaint.
    pub proof fn lemma_union_trait_refused(
        span: Span,
        input: syntax::DeriveInput,
        verdicts: Seq<Seq<Verdict>>,
        attribute: int,
        directive: int,
        catalogue: Catalogue,
    )
        requires
            input.data is Union,
            0 <= attribute < input.attrs@.len(),
            ItemAttrView::plain().with_attributes(
                input.attrs@,
                attribute,
                input.data,
                verdicts,
                catalogue,
            )
                is Ok,
            input.attrs@[attribute].path@ == "derive_where"@,
            input.attrs@[attribute].content matches syntax::Content::List(list)
                && !ItemAttrView::is_skip_inner(list) && 0 <= directive < list.items@.len()
                && DeriveWhereView::traits_read(
                list.items@,
                directive,
                true,
                verdicts[attribute],
                catalogue,
            ) is Ok && (list.items@[directive].form is Word || list.items@[directive].form
                is List) && (Trait::named(
                    list.items@[directive].name@,
                    catalogue,
                ) matches Some(trait_)
                && !trait_.for_unions()),
        ensures
            InputView::read(span, input, verdicts, catalogue) == Err::<InputView, ErrorView>(
                ErrorView::plain(
                    ErrorKind::UnionTrait,
                    input.attrs@[attribute].content->List_0.items@[directive].span,
                ),
            ),
    {
        ItemAttrView::lemma_union_trait_refused(
            input.data,
            input.attrs@,
            verdicts,
            attribute,
            directive,
            catalogue,
        );
    }

    /// An item that skips its fields without constraint is refused for the first
    /// constrained `skip` on one of its fields, with everything before it read
    /// without complaint: the scopes of the two directives conflict.
    pub proof fn lemma_scoped_skip_refused(
        span: Span,
        input: syntax::DeriveInput,
        verdicts: Seq<Seq<Verdict>>,
        field: int,
        attribute: int,
        directive: int,
        catalogue: Catalogue,
    )
        requires
            ItemAttrView::read(input.data, input.attrs@, verdicts, catalogue) matches Ok(attr)
                && attr.skip_inner is All,
            ItemView::single_body(input.data) matches Some((fields, named)) && 0 <= field
                < fields.len() && FieldView::all_read(
                    Skip::All,
                    fields,
                    field,
                    named,
                    catalogue,
                ) is Ok && 0
                <= attribute < fields[field].attrs@.len() && (FieldAttr::plain().with_attributes(
                Skip::All,
                fields[field].attrs@,
                attribute,
                catalogue,
            ) matches Ok(so_far) && (options_of(fields[field].attrs@[attribute]) matches Ok(
                Some(directives),
            ) && 0 <= directive < directives.len() && so_far.with_directives(
                Skip::All,
                directives,
                directive,
                catalogue,
            ) is Ok && directives[directive].name@ == "skip"@ && directives[directive].form
                is List)),
        ensures
            InputView::read(span, input, verdicts, catalogue) == Err::<InputView, ErrorView>(
                ErrorView::plain(
                    ErrorKind::OptionSkipAll,
                    options_of(
                        ItemView::single_body(input.data)->Some_0.0[field].attrs@[attribute],
                    )->Ok_0->Some_0[directive].span,
                ),
            ),
    {
        let attr = ItemAttrView::read(input.data, input.attrs@, verdicts, catalogue)->Ok_0;
        ItemView::lemma_scoped_skip_refused(
            span,
            input.ident@,
            input.data,
            attr,
            field,
            attribute,
            directive,
            catalogue,
        );
    }

    /// An enum for which `Default` is asked for is refused for the first
    /// `default` on a variant behind a variant that is marked already, with
    /// everything before it read without complaint.
    pub proof fn lemma_default_duplicate(
        span: Span,
        input: syntax::DeriveInput,
        verdicts: Seq<Seq<Verdict>>,
        variant: int,
        attribute: int,
        directive: int,
        catalogue: Catalogue,
    )
        requires
            ItemAttrView::read(input.data, input.attrs@, verdicts, catalogue) matches Ok(attr)
                && any_implements(attr.derive_wheres, Trait::Default),
            input.data matches syntax::Data::Enum(variants) && 0 <= variant < variants@.len() && (
            ItemView::variants_read(
                input.ident@,
                variants@,
                variant,
                true,
                catalogue,
            ) matches Ok(before)
                && ItemView::marker(before, variant).marked() && 0 <= attribute
                < variants@[variant].attrs@.len() && (VariantAttr::plain().with_attributes(
                ItemView::marker(before, variant),
                true,
                variants@[variant].attrs@,
                attribute,
                catalogue,
            ) matches Ok(so_far) && (options_of(variants@[variant].attrs@[attribute]) matches Ok(
                Some(directives),
            ) && 0 <= directive < directives.len() && so_far.with_directives(
                ItemView::marker(before, variant),
                true,
                directives,
                directive,
                catalogue,
            ) is Ok && directives[directive].name@ == "default"@ && directives[directive].form
                is Word))),
        ensures
            InputView::read(span, input, verdicts, catalogue) == Err::<InputView, ErrorView>(
                ErrorView::plain(
                    ErrorKind::DefaultDuplicate,
                    options_of(
                        input.data->Enum_0@[variant].attrs@[attribute],
                    )->Ok_0->Some_0[directive].span,
                ),
            ),
    {
        let attr = ItemAttrView::read(input.data, input.attrs@, verdicts, catalogue)->Ok_0;
        ItemView::lemma_default_duplicate(
            span,
            input.ident@,
            input.data,
            attr,
            variant,
            attribute,
            directive,
            catalogue,
        );
    }

    /// An enum for which `Default` is asked for is refused where its variants
    /// are read without complaint and none of them is marked `default`.
    pub proof fn lemma_default_missing(
        span: Span,
        input: syntax::DeriveInput,
        verdicts: Seq<Seq<Verdict>>,
        catalogue: Catalogue,
    )
        requires
            ItemAttrView::read(input.data, input.attrs@, verdicts, catalogue) matches Ok(attr)
                && any_implements(attr.derive_wheres, Trait::Default),
            input.data matches syntax::Data::Enum(variants) && (ItemView::variants_read(
                input.ident@,
                variants@,
                variants@.len() as int,
                true,
                catalogue,
            ) matches Ok(read) && forall|position: int|
                0 <= position < read.len() ==> !#[trigger] ItemView::marked(read, position)),
        ensures
            InputView::read(span, input, verdicts, catalogue) == Err::<InputView, ErrorView>(
                ErrorView::plain(ErrorKind::DefaultMissing, span),
            ),
    {
        let attr = ItemAttrView::read(input.data, input.attrs@, verdicts, catalogue)->Ok_0;
        ItemView::lemma_default_missing(span, input.ident@, input.data, attr, catalogue);
    }

    /// Whether every trait that is asked for can be written for the item.
    pub open spec fn fits(self) -> bool {
        forall|i: int, j: int|
            0 <= i < self.derive_wheres.len() && 0 <= j < self.derive_wheres[i].traits.len()
                ==> self.item.fits((#[trigger] self.derive_wheres[i].traits[j]).trait_)
    }

    /// Of an enum that is accepted, exactly one variant is marked `default`
    /// where `Default` is asked for, and none where it is not.
    pub proof fn lemma_read_one_default(
        span: Span,
        input: syntax::DeriveInput,
        verdicts: Seq<Seq<Verdict>>,
        catalogue: Catalogue,
    )
        ensures
            InputView::read(
                span,
                input,
                verdicts,
                catalogue,
            ) matches Ok(parsed) ==> (parsed.item matches ItemView::Enum {
                variants,
                ..
            } ==> if any_implements(parsed.derive_wheres, Trait::Default) {
                exists|position: int|
                    0 <= position < variants.len() && #[trigger] ItemView::marked(
                        variants,
                        position,
                    ) && forall|other: int|
                        0 <= other < variants.len() && other != position
                            ==> !#[trigger] ItemView::marked(variants, other)
            } else {
                forall|position: int|
                    0 <= position < variants.len() ==> !#[trigger] ItemView::marked(
                        variants,
                        position,
                    )
            }),
    {
        match InputView::read(span, input, verdicts, catalogue) {
            Ok(parsed) => {
                match input.data {
                    syntax::Data::Enum(raw) => {
                        let implemented = any_implements(parsed.derive_wheres, Trait::Default);
                        let variants = parsed.item->variants;
                        ItemView::lemma_variants_read_defaults(
                            input.ident@,
                            raw@,
                            raw@.len() as int,
                            implemented,
                            catalogue,
                        );
                        ItemView::lemma_marker_marked(variants, raw@.len() as int);
                        if implemented {
                            let position = choose|position: int|
                                0 <= position < variants.len() && #[trigger] ItemView::marked(
                                    variants,
                                    position,
                                );
                            assert forall|other: int|
                                0 <= other < variants.len() && other
                                    != position implies !#[trigger] ItemView::marked(
                                variants,
                                other,
                            ) by {
                                if other < position {
                                    if ItemView::marked(variants, other) {
                                        assert(!ItemView::marked(variants, position));
                                    }
                                }
                            }
                        }
                    },
                    _ => {},
                }
            },
            Err(_) => {},
        }
    }

    /// The variants of an enum that is accepted are described as variants.
    pub proof fn lemma_read_variants(
        span: Span,
        input: syntax::DeriveInput,
        verdicts: Seq<Seq<Verdict>>,
        catalogue: Catalogue,
    )
        ensures
            InputView::read(
                span,
                input,
                verdicts,
                catalogue,
            ) matches Ok(parsed) ==> (parsed.item matches ItemView::Enum {
                variants,
                ..
            } ==> forall|position: int|
                0 <= position < variants.len() ==> (#[trigger] variants[position]).type_
                    is Variant),
    {
        match InputView::read(span, input, verdicts, catalogue) {
            Ok(parsed) => {
                match input.data {
                    syntax::Data::Enum(raw) => {
                        ItemView::lemma_variants_read_are_variants(
                            input.ident@,
                            raw@,
                            raw@.len() as int,
                            any_implements(parsed.derive_wheres, Trait::Default),
                            catalogue,
                        );
                    },
                    _ => {},
                }
            },
            Err(_) => {},
        }
    }

    /// An item that is accepted asks only for traits that can be written
    /// for it: a union only for `Clone` and `Copy`.
    pub proof fn lemma_read_fits(
        span: Span,
        input: syntax::DeriveInput,
        verdicts: Seq<Seq<Verdict>>,
        catalogue: Catalogue,
    )
        ensures
            InputView::read(span, input, verdicts, catalogue) matches Ok(parsed) ==> parsed.fits(),
    {
        match InputView::read(span, input, verdicts, catalogue) {
            Ok(parsed) => {
                let attr = ItemAttrView::read(input.data, input.attrs@, verdicts, catalogue)->Ok_0;
                match input.data {
                    syntax::Data::Union(_) => {
                        ItemAttrView::plain().lemma_with_attributes_for_union(
                            input.attrs@,
                            input.attrs@.len() as int,
                            input.data,
                            verdicts,
                            catalogue,
                        );
                        assert forall|i: int, j: int|
                            0 <= i < parsed.derive_wheres.len() && 0 <= j
                                < parsed.derive_wheres[i].traits.len() implies parsed.item.fits(
                            (#[trigger] parsed.derive_wheres[i].traits[j]).trait_,
                        ) by {
                            assert(parsed.derive_wheres[i].for_unions());
                        }
                    },
                    syntax::Data::Enum(variants) => {
                        ItemView::lemma_variants_read_are_variants(
                            input.ident@,
                            variants@,
                            variants@.len() as int,
                            any_implements(attr.derive_wheres, Trait::Default),
                            catalogue,
                        );
                    },
                    syntax::Data::Struct(_) => {},
                }
            },
            Err(_) => {},
        }
    }
}

impl Item {
    /// The name of the item.
    pub fn ident(&self) -> (ident: &String)
        ensures
            ident@ == self@.ident(),
    {
        match self {
            Item::Item(data) => &data.ident,
            Item::Enum { ident, .. } => ident,
        }
    }

    /// Whether the item is a union.
    pub fn is_union(&self) -> (union: bool)
        ensures
            union == self@.is_union(),
    {
        match self {
            Item::Item(data) => match data.type_ {
                DataType::Union => true,
                _ => false,
            },
            _ => false,
        }
    }

    /// Whether values of the item can differ in their variant.
    pub fn has_tags(&self) -> (tags: bool)
        ensures
            tags == self@.has_tags(),
    {
        match self {
            Item::Enum { variants, .. } => variants.len() > 1,
            _ => false,
        }
    }

    /// Whether some body of the item has no field that takes part in the
    /// implementation of the trait.
    #[verifier::loop_isolation(false)]
    pub fn any_empty(&self, trait_: Trait) -> (any: bool)
        ensures
            any == self@.any_empty(trait_),
    {
        match self {
            Item::Item(data) => {
                let empty = data.is_empty(trait_);
                assert(self@.bodies()[0] == data@);
                empty
            },
            Item::Enum { variants, .. } => {
                let mut i: usize = 0;
                while i < variants.len()
                    invariant
                        i <= variants@.len(),
                        self@.bodies() == views(variants@),
                        forall|index: int|
                            0 <= index < i ==> !(#[trigger] self@.bodies()[index]).is_empty(
                                trait_,
                            ),
                    decreases variants@.len() - i,
                {
                    if variants[i].is_empty(trait_) {
                        assert(self@.bodies()[i as int].is_empty(trait_));
                        return true;
                    }
                    i += 1;
                }
                false
            },
        }
    }

    /// The number of bodies of the item: one for a struct or union, else the
    /// number of variants.
    pub fn count(&self) -> (count: usize)
        ensures
            count == self@.bodies().len(),
    {
        match self {
            Item::Item(_) => 1,
            Item::Enum { variants, .. } => variants.len(),
        }
    }

    /// The body at `index`, in the order of declaration.
    pub fn body(&self, index: usize) -> (body: &Data)
        requires
            index < self@.bodies().len(),
        ensures
            body@ == self@.bodies()[index as int],
    {
        match self {
            Item::Item(data) => data,
            Item::Enum { variants, .. } => &variants[index],
        }
    }

    /// Whether some attribute skips a field.
    #[verifier::loop_isolation(false)]
    pub fn any_skip(&self) -> (any: bool)
        ensures
            any == self@.any_skip(),
    {
        match self {
            Item::Item(data) => data.any_skip(),
            Item::Enum { variants, .. } => {
                let mut i: usize = 0;
                while i < variants.len()
                    invariant
                        i <= variants@.len(),
                        forall|index: int|
                            0 <= index < i ==> !(#[trigger] views(variants@)[index]).any_skip(),
                    decreases variants@.len() - i,
                {
                    if variants[i].any_skip() {
                        assert(self@->variants[i as int] == variants@[i as int]@);
                        assert(self@->variants[i as int].any_skip());
                        return true;
                    }
                    i += 1;
                }
                false
            },
        }
    }

    /// Whether `Default` is implemented for an enum.
    pub fn any_default(&self, derive_wheres: &Vec<DeriveWhere>) -> (any: bool)
        ensures
            any == self@.any_default(views(derive_wheres@)),
    {
        match self {
            Item::Enum { .. } => implements_any(derive_wheres, Trait::Default),
            _ => false,
        }
    }

    /// Whether some field asks for the call of `zeroize` by full path.
    #[verifier::loop_isolation(false)]
    pub fn any_fqs(&self) -> (any: bool)
        ensures
            any == self@.any_fqs(),
    {
        match self {
            Item::Item(data) => data.any_fqs(),
            Item::Enum { variants, .. } => {
                let mut i: usize = 0;
                while i < variants.len()
                    invariant
                        i <= variants@.len(),
                        forall|index: int|
                            0 <= index < i ==> !(#[trigger] views(variants@)[index]).any_fqs(),
                    decreases variants@.len() - i,
                {
                    if variants[i].any_fqs() {
                        assert(self@->variants[i as int] == variants@[i as int]@);
                        assert(self@->variants[i as int].any_fqs());
                        return true;
                    }
                    i += 1;
                }
                false
            },
        }
    }

    /// Whether no field of the item takes part in the implementation of the
    /// trait.
    #[verifier::loop_isolation(false)]
    pub fn is_empty(&self, trait_: Trait) -> (empty: bool)
        ensures
            empty == self@.is_empty(trait_),
    {
        match self {
            Item::Item(data) => {
                let empty = data.is_empty(trait_);
                assert(self@.bodies()[0] == data@);
                empty
            },
            Item::Enum { variants, .. } => {
                let mut i: usize = 0;
                while i < variants.len()
                    invariant
                        i <= variants@.len(),
                        self@.bodies() == views(variants@),
                        forall|index: int|
                            0 <= index < i ==> (#[trigger] self@.bodies()[index]).is_empty(trait_),
                    decreases variants@.len() - i,
                {
                    if !variants[i].is_empty(trait_) {
                        assert(!self@.bodies()[i as int].is_empty(trait_));
                        return false;
                    }
                    i += 1;
                }
                true
            },
        }
    }

    #[verifier::loop_isolation(false)]
    fn from_variants(
        ident: &String,
        variants: &Vec<syntax::Variant>,
        implemented: bool,
        catalogue: Catalogue,
    ) -> (outcome: Result<(Vec<Data>, DefaultMarker), Error>)
        ensures
            match outcome {
                Ok((read, marker)) => ItemView::variants_read(
                    ident@,
                    variants@,
                    variants@.len() as int,
                    implemented,
                    catalogue,
                ) == Ok::<Seq<DataView>, ErrorView>(views(read@)) && marker == ItemView::marker(
                    views(read@),
                    variants@.len() as int,
                ),
                Err(error) => ItemView::variants_read(
                    ident@,
                    variants@,
                    variants@.len() as int,
                    implemented,
                    catalogue,
                ) == Err::<Seq<DataView>, ErrorView>(error@),
            },
    {
        let mut accumulated = DefaultMarker::new();
        let mut read: Vec<Data> = Vec::new();
        proof {
            lemma_views_empty::<Data>();
        }
        let mut i: usize = 0;
        while i < variants.len()
            invariant
                i <= variants@.len(),
                read@.len() == i,
                ItemView::variants_read(
                    ident@,
                    variants@,
                    i as int,
                    implemented,
                    catalogue,
                ) == Ok::<
                    Seq<DataView>,
                    ErrorView,
                >(views(read@)),
                accumulated == ItemView::marker(views(read@), i as int),
            decreases variants@.len() - i,
        {
            let ghost before = accumulated;
            let variant = &variants[i];
            let attr = match VariantAttr::from_attrs(
                &variant.attrs,
                implemented,
                &mut accumulated,
                catalogue,
            ) {
                Ok(attr) => attr,
                Err(error) => {
                    proof {
                        assert(ItemView::variants_read(
                            ident@,
                            variants@,
                            i as int + 1,
                            implemented,
                            catalogue,
                        ) == Err::<Seq<DataView>, ErrorView>(error@));
                        ItemView::lemma_variants_read_fails(
                            ident@,
                            variants@,
                            i as int + 1,
                            variants@.len() as int,
                            implemented,
                            catalogue,
                        );
                    }
                    return Err(error);
                },
            };
            match Data::from_variant(
                ident,
                attr.skip_inner,
                attr.default,
                &variant.ident,
                &variant.fields,
                catalogue,
            ) {
                Ok(data) => {
                    proof {
                        lemma_views_push(read@, data);
                        ItemView::lemma_marker_of_prefix(views(read@), data@, i as int);
                        assert(data@.type_ matches DataType::Variant { default, .. }
                            && default == attr.default);
                    }
                    read.push(data);
                },
                Err(error) => {
                    proof {
                        assert(ItemView::variants_read(
                            ident@,
                            variants@,
                            i as int + 1,
                            implemented,
                            catalogue,
                        ) == Err::<Seq<DataView>, ErrorView>(error@));
                        ItemView::lemma_variants_read_fails(
                            ident@,
                            variants@,
                            i as int + 1,
                            variants@.len() as int,
                            implemented,
                            catalogue,
                        );
                    }
                    return Err(error);
                },
            }
            i += 1;
        }
        Ok((read, accumulated))
    }

    /// Reads the body of an item with the given name, under the attributes of the
    /// item.
    pub fn from_syntax(
        span: Span,
        ident: &String,
        data: &syntax::Data,
        attr: &ItemAttr,
        catalogue: Catalogue,
    ) -> (outcome: Result<Item, Error>)
        ensures
            match outcome {
                Ok(item) => ItemView::read(span, ident@, *data, attr@, catalogue) == Ok::<
                    ItemView,
                    ErrorView,
                >(item@),
                Err(error) => ItemView::read(span, ident@, *data, attr@, catalogue) == Err::<
                    ItemView,
                    ErrorView,
                >(error@),
            },
    {
        match data {
            syntax::Data::Struct(syntax::Fields::Named(fields)) => {
                match Data::from_struct(attr.skip_inner, ident, fields, catalogue) {
                    Ok(data) => Ok(Item::Item(data)),
                    Err(error) => Err(error),
                }
            },
            syntax::Data::Struct(syntax::Fields::Unnamed(fields)) => {
                match Data::from_tuple(attr.skip_inner, ident, fields, catalogue) {
                    Ok(data) => Ok(Item::Item(data)),
                    Err(error) => Err(error),
                }
            },
            syntax::Data::Struct(syntax::Fields::Unit) => Err(Error::unit_struct(span)),
            syntax::Data::Enum(variants) => {
                let implemented = implements_any(&attr.derive_wheres, Trait::Default);
                match Item::from_variants(ident, variants, implemented, catalogue) {
                    Err(error) => Err(error),
                    Ok((read, marker)) => {
                        if implemented && !marker.is_marked() {
                            Err(Error::default_missing(span))
                        } else {
                            Ok(Item::Enum { ident: ident.clone(), variants: read })
                        }
                    },
                }
            },
            syntax::Data::Union(fields) => {
                match Data::from_union(attr.skip_inner, ident, fields, catalogue) {
                    Ok(data) => Ok(Item::Item(data)),
                    Err(error) => Err(error),
                }
            },
        }
    }
}

impl<'a> Input<'a> {
    /// Reads the item at `span` and describes it: the attributes of the item are
    /// read first, then its body; an item for which the standard `derive` would
    /// do is refused. The reader of paths is asked about the value of each first
    /// `crate` option, and what it says decides on that option; where no
    /// attribute of the item has such an option, the item alone decides.
    pub fn parse(
        span: Span,
        input: &'a syntax::DeriveInput,
        catalogue: Catalogue,
    ) -> (outcome: Result<Input<'a>, Error>)
        ensures
            ({
                let seen = outcome_view(outcome);
                &&& exists|verdicts: Seq<Seq<Verdict>>| #[trigger]
                    InputView::read(span, *input, verdicts, catalogue) == seen
                &&& !InputView::asks(
                    *input,
                    catalogue,
                ) ==> InputView::read(span, *input, Seq::empty(), catalogue)
                    == seen
            }),
    {
        let outcome = Input::parse_asking(span, input, catalogue);
        proof {
            let seen = outcome_view(outcome.0);
            assert(InputView::read(span, *input, outcome.1@, catalogue) == seen);
            if !InputView::asks(*input, catalogue) {
                InputView::lemma_read_unasked(span, *input, outcome.1@, Seq::empty(), catalogue);
            }
        }
        outcome.0
    }

    /// Reads the item and keeps what the reader of paths said.
    pub(crate) fn parse_asking(
        span: Span,
        input: &'a syntax::DeriveInput,
        catalogue: Catalogue,
    ) -> (outcome: (
        Result<Input<'a>, Error>,
        Ghost<Seq<Seq<Verdict>>>,
    ))
        ensures
            InputView::read(span, *input, outcome.1@, catalogue) == outcome_view(outcome.0),
    {
        let read = ItemAttr::read_asking(&input.data, &input.attrs, catalogue);
        let attr = match read.0 {
            Ok(attr) => attr,
            Err(error) => {
                return (Err(error), read.1);
            },
        };
        let item = match Item::from_syntax(span, &input.ident, &input.data, &attr, catalogue) {
            Ok(item) => item,
            Err(error) => {
                return (Err(error), read.1);
            },
        };
        if !(input.generics.has_params || item.any_skip() || item.any_default(&attr.derive_wheres)
            || item.any_fqs()) {
            return (Err(Error::item(span)), read.1);
        }
        let ItemAttr { skip_inner: _, derive_wheres } = attr;
        (Ok(Input { derive_wheres, span, generics: &input.generics, item }), read.1)
    }
}

} // verus!
