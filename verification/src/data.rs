//! The description of one body: a struct, a union or one variant, with what
//! its attributes ask for.

use crate::attr::default::DefaultMarker;
use crate::attr::field::FieldAttr;
use crate::attr::skip::Skip;
use crate::code::{decimal, decimal_string, join, joined, texts, unraw, unraw_str};
use crate::error::{Error, ErrorView};
use crate::syntax;
use crate::trait_::{Catalogue, Trait};
use crate::views::{lemma_views_empty, lemma_views_push, views};
use vstd::prelude::*;
use vstd::string::StringExecFns;

verus! {

/// How a field is referred to.
#[derive(Debug)]
pub enum Member {
    /// By its name.
    Named(String),
    /// By its position.
    Unnamed(usize),
}

/// How a field is referred to, as a mathematical value.
pub enum MemberView {
    Named(Seq<char>),
    Unnamed(nat),
}

impl View for Member {
    type V = MemberView;

    open spec fn view(&self) -> MemberView {
        match self {
            Member::Named(name) => MemberView::Named(name@),
            Member::Unnamed(index) => MemberView::Unnamed(*index as nat),
        }
    }
}

/// A field with what its attributes ask for.
#[derive(Debug)]
pub struct Field {
    pub attr: FieldAttr,
    pub member: Member,
    /// The field's type, as it is written.
    pub type_: String,
}

/// A field as a mathematical value.
pub struct FieldView {
    pub attr: FieldAttr,
    pub member: MemberView,
    pub type_: Seq<char>,
}

impl View for Field {
    type V = FieldView;

    open spec fn view(&self) -> FieldView {
        FieldView { attr: self.attr, member: self.member@, type_: self.type_@ }
    }
}

impl FieldView {
    /// The field as it is named in an expression that constructs the type.
    pub open spec fn member_text(self) -> Seq<char> {
        match self.member {
            MemberView::Named(name) => name,
            MemberView::Unnamed(index) => decimal(index),
        }
    }

    /// The name of the field before its value in a constructing expression,
    /// where fields are named.
    pub open spec fn label(self, named: bool) -> Seq<char> {
        if named {
            self.member_text() + ": "@
        } else {
            Seq::empty()
        }
    }

    /// The variable that a pattern binds the field to: the stem, then the
    /// field's name without `r#`, or its position.
    pub open spec fn binding(self, stem: Seq<char>) -> Seq<char> {
        match self.member {
            MemberView::Named(name) => stem + unraw(name),
            MemberView::Unnamed(index) => stem + decimal(index),
        }
    }

    /// The field in a pattern that binds it in the given mode (`ref ` or
    /// `ref mut `).
    pub open spec fn pattern(self, mode: Seq<char>, stem: Seq<char>) -> Seq<char> {
        match self.member {
            MemberView::Named(name) => name + ": "@ + mode + self.binding(stem),
            MemberView::Unnamed(_) => mode + self.binding(stem),
        }
    }

    /// The field at position `index` of a list of named or unnamed fields, or the
    /// first complaint about its attributes. `parent` is what the list's item or
    /// variant skips.
    pub open spec fn read(
        parent: Skip,
        field: syntax::Field,
        index: int,
        named: bool,
        catalogue: Catalogue,
    ) -> Result<
        FieldView,
        ErrorView,
    > {
        match FieldAttr::read(parent, field.attrs@, catalogue) {
            Err(error) => Err(error),
            Ok(attr) => Ok(
                FieldView {
                    attr,
                    member: if named {
                        MemberView::Named(field.ident@)
                    } else {
                        MemberView::Unnamed(index as nat)
                    },
                    type_: field.ty@,
                },
            ),
        }
    }

    /// The first `count` fields of a list, or the first complaint about one of
    /// them.
    pub open spec fn all_read(
        parent: Skip,
        fields: Seq<syntax::Field>,
        count: int,
        named: bool,
        catalogue: Catalogue,
    )
        -> Result<Seq<FieldView>, ErrorView>
        decreases count,
    {
        if count <= 0 {
            Ok(Seq::empty())
        } else {
            match FieldView::all_read(parent, fields, count - 1, named, catalogue) {
                Err(error) => Err(error),
                Ok(before) => match FieldView::read(
                    parent,
                    fields[count - 1],
                    count - 1,
                    named,
                    catalogue,
                ) {
                    Err(error) => Err(error),
                    Ok(field) => Ok(before.push(field)),
                },
            }
        }
    }

    /// A complaint about one of the first fields stays the complaint about all.
    pub proof fn lemma_all_read_fails(
        parent: Skip,
        fields: Seq<syntax::Field>,
        count: int,
        more: int,
        named: bool,
        catalogue: Catalogue,
    )
        requires
            count <= more,
            FieldView::all_read(parent, fields, count, named, catalogue) is Err,
        ensures
            FieldView::all_read(parent, fields, more, named, catalogue) == FieldView::all_read(
                parent,
                fields,
                count,
                named,
                catalogue,
            ),
        decreases more - count,
    {
        if count < more {
            FieldView::lemma_all_read_fails(parent, fields, count, more - 1, named, catalogue);
        }
    }

    /// A complaint about the attributes of a field, with the fields before it
    /// read without complaint, is the complaint about all the fields.
    pub proof fn lemma_all_read_refused(
        parent: Skip,
        fields: Seq<syntax::Field>,
        index: int,
        named: bool,
        catalogue: Catalogue,
    )
        requires
            0 <= index < fields.len(),
            FieldView::all_read(parent, fields, index, named, catalogue) is Ok,
            FieldAttr::read(parent, fields[index].attrs@, catalogue) is Err,
        ensures
            FieldView::all_read(
                parent,
                fields,
                fields.len() as int,
                named,
                catalogue,
            ) matches Err(error)
                && FieldAttr::read(
                    parent,
                    fields[index].attrs@,
                    catalogue,
                ) == Err::<FieldAttr, ErrorView>(
                error,
            ),
    {
        assert(FieldView::all_read(parent, fields, index + 1, named, catalogue) is Err);
        FieldView::lemma_all_read_fails(
            parent,
            fields,
            index + 1,
            fields.len() as int,
            named,
            catalogue,
        );
    }

    /// The fields are read one for one, in the order of their declaration.
    pub proof fn lemma_fields_in_declaration_order(
        parent: Skip,
        fields: Seq<syntax::Field>,
        count: int,
        named: bool,
        catalogue: Catalogue,
    )
        requires
            0 <= count,
        ensures
            FieldView::all_read(parent, fields, count, named, catalogue) matches Ok(read) ==> {
                &&& read.len() == count
                &&& forall|index: int|
                    0 <= index < count ==> FieldView::read(
                        parent,
                        fields[index],
                        index,
                        named,
                        catalogue,
                    )
                        == Ok::<FieldView, ErrorView>(#[trigger] read[index])
            },
        decreases count,
    {
        if count > 0 {
            FieldView::lemma_fields_in_declaration_order(
                parent,
                fields,
                count - 1,
                named,
                catalogue,
            );
        }
    }
}

impl Field {
    /// Reads the field at position `index` of a list of named or unnamed fields.
    pub fn from_syntax(
        parent: &Skip,
        field: &syntax::Field,
        index: usize,
        named: bool,
        catalogue: Catalogue,
    ) -> (outcome: Result<Field, Error>)
        ensures
            match outcome {
                Ok(read) => FieldView::read(
                    *parent,
                    *field,
                    index as int,
                    named,
                    catalogue,
                ) == Ok::<
                    FieldView,
                    ErrorView,
                >(read@),
                Err(error) => FieldView::read(
                    *parent,
                    *field,
                    index as int,
                    named,
                    catalogue,
                ) == Err::<
                    FieldView,
                    ErrorView,
                >(error@),
            },
    {
        match FieldAttr::from_attrs(parent, &field.attrs, catalogue) {
            Err(error) => Err(error),
            Ok(attr) => {
                let member = if named {
                    Member::Named(field.ident.clone())
                } else {
                    Member::Unnamed(index)
                };
                Ok(Field { attr, member, type_: field.ty.clone() })
            },
        }
    }

    /// The field as it is named in an expression that constructs the type.
    pub fn member_text(&self) -> (text: String)
        ensures
            text@ == self@.member_text(),
    {
        match &self.member {
            Member::Named(name) => name.clone(),
            Member::Unnamed(index) => decimal_string(*index as u64),
        }
    }

    /// The variable that a pattern binds the field to.
    pub fn binding(&self, stem: &str) -> (text: String)
        ensures
            text@ == self@.binding(stem@),
    {
        let mut text = String::from_str(stem);
        match &self.member {
            Member::Named(name) => {
                text.append(unraw_str(name.as_str()));
            },
            Member::Unnamed(index) => {
                let position = decimal_string(*index as u64);
                text.append(position.as_str());
            },
        }
        text
    }

    /// The field in a pattern that binds it in the given mode.
    pub fn pattern(&self, mode: &str, stem: &str) -> (text: String)
        ensures
            text@ == self@.pattern(mode@, stem@),
    {
        let binding = self.binding(stem);
        match &self.member {
            Member::Named(name) => {
                let mut text = name.clone();
                text.append(": ");
                text.append(mode);
                text.append(binding.as_str());
                text
            },
            Member::Unnamed(_) => {
                let mut text = String::from_str(mode);
                text.append(binding.as_str());
                text
            },
        }
    }
}

/// The form of a variant's body.
#[derive(Clone, Copy, Debug, PartialEq, Eq, Structural)]
pub enum VariantData {
    /// Named fields.
    Struct,
    /// Unnamed fields.
    Tuple,
    /// No body.
    Unit,
}

/// What kind of body a description is of.
#[derive(Clone, Copy, Debug, PartialEq, Eq, Structural)]
pub enum DataType {
    /// A struct with named fields.
    Struct,
    /// A struct with unnamed fields.
    Tuple,
    /// A union.
    Union,
    /// A variant of an enum, with its `default` marker.
    Variant { default: DefaultMarker, type_: VariantData },
}

/// The form of a body, whatever it belongs to.
#[derive(Clone, Copy, Debug, PartialEq, Eq, Structural)]
pub enum SimpleType {
    /// Named fields.
    Struct,
    /// Unnamed fields.
    Tuple,
    /// No body.
    Unit,
    /// The fields of a union.
    Union,
}

/// One body with what its attributes ask for.
#[derive(Debug)]
pub struct Data {
    /// For which traits all fields are left out.
    pub skip_inner: Skip,
    /// The name of the struct, union or variant.
    pub ident: String,
    /// The path that constructs and matches the body.
    pub path: String,
    pub type_: DataType,
    /// The fields in the order of their declaration.
    pub fields: Vec<Field>,
}

/// One body as a mathematical value.
pub struct DataView {
    pub skip_inner: Skip,
    pub ident: Seq<char>,
    pub path: Seq<char>,
    pub type_: DataType,
    pub fields: Seq<FieldView>,
}

impl View for Data {
    type V = DataView;

    open spec fn view(&self) -> DataView {
        DataView {
            skip_inner: self.skip_inner,
            ident: self.ident@,
            path: self.path@,
            type_: self.type_,
            fields: views(self.fields@),
        }
    }
}

impl DataView {
    /// The body with the given fields read, or the first complaint about one of
    /// them.
    pub open spec fn read(
        skip_inner: Skip,
        ident: Seq<char>,
        path: Seq<char>,
        type_: DataType,
        fields: Seq<syntax::Field>,
        named: bool,
        catalogue: Catalogue,
    ) -> Result<DataView, ErrorView> {
        match FieldView::all_read(skip_inner, fields, fields.len() as int, named, catalogue) {
            Err(error) => Err(error),
            Ok(fields) => Ok(DataView { skip_inner, ident, path, type_, fields }),
        }
    }

    /// Whether the field at `index` is left out of the implementation of the
    /// trait: never for a trait that cannot skip fields.
    pub open spec fn skips(self, index: int, trait_: Trait) -> bool {
        trait_.skippable() && (self.skip_inner.skips(trait_) || self.fields[index].attr.skip.skips(
            trait_,
        ))
    }

    /// The positions among the first `count` fields that take part in the
    /// implementation of the trait, in ascending order.
    pub open spec fn included(self, trait_: Trait, count: int) -> Seq<int>
        decreases count,
    {
        if count <= 0 {
            Seq::empty()
        } else if self.skips(count - 1, trait_) {
            self.included(trait_, count - 1)
        } else {
            self.included(trait_, count - 1).push(count - 1)
        }
    }

    /// Whether no field takes part in the implementation of the trait.
    pub open spec fn is_empty(self, trait_: Trait) -> bool {
        forall|index: int| 0 <= index < self.fields.len() ==> self.skips(index, trait_)
    }

    /// Whether some attribute of the body or of its fields skips anything.
    pub open spec fn any_skip(self) -> bool {
        !(self.skip_inner is Nothing) || exists|index: int|
            0 <= index < self.fields.len() && !((#[trigger] self.fields[index]).attr.skip
                is Nothing)
    }

    /// Whether some field asks for the call of `zeroize` by full path.
    pub open spec fn any_fqs(self) -> bool {
        exists|index: int|
            0 <= index < self.fields.len() && (#[trigger] self.fields[index]).attr.zeroize_fqs.set
    }

    /// Whether `Default` constructs this body.
    pub open spec fn is_default(self) -> bool {
        match self.type_ {
            DataType::Variant { default, .. } => default.marked(),
            _ => true,
        }
    }

    /// The form of the body.
    pub open spec fn simple_type(self) -> SimpleType {
        match self.type_ {
            DataType::Struct => SimpleType::Struct,
            DataType::Tuple => SimpleType::Tuple,
            DataType::Union => SimpleType::Union,
            DataType::Variant { type_: VariantData::Struct, .. } => SimpleType::Struct,
            DataType::Variant { type_: VariantData::Tuple, .. } => SimpleType::Tuple,
            DataType::Variant { type_: VariantData::Unit, .. } => SimpleType::Unit,
        }
    }

    /// The first `count` fields as a pattern binds them.
    pub open spec fn field_patterns(self, mode: Seq<char>, stem: Seq<char>, count: int) -> Seq<
        Seq<char>,
    >
        decreases count,
    {
        if count <= 0 {
            Seq::empty()
        } else {
            self.field_patterns(mode, stem, count - 1).push(
                self.fields[count - 1].pattern(mode, stem),
            )
        }
    }

    /// The pattern that matches the body and binds every field in the given
    /// mode to a variable with the given stem.
    pub open spec fn pattern(self, mode: Seq<char>, stem: Seq<char>) -> Seq<char> {
        let fields = joined(self.field_patterns(mode, stem, self.fields.len() as int), ", "@);
        match self.simple_type() {
            SimpleType::Struct | SimpleType::Union => self.path + " { "@ + fields + " }"@,
            SimpleType::Tuple => self.path + "("@ + fields + ")"@,
            SimpleType::Unit => self.path,
        }
    }

    /// The pattern that matches `self`.
    pub open spec fn self_pattern(self) -> Seq<char> {
        self.pattern("ref "@, "__"@)
    }

    /// The pattern that matches `self` for a change in place.
    pub open spec fn self_pattern_mut(self) -> Seq<char> {
        self.pattern("ref mut "@, "__"@)
    }

    /// The pattern that matches the other value of a comparison.
    pub open spec fn other_pattern(self) -> Seq<char> {
        self.pattern("ref "@, "__other_"@)
    }

    /// The positions that take part are those of the fields that are not
    /// skipped, each once.
    pub proof fn lemma_included_are_not_skipped(self, trait_: Trait, count: int)
        requires
            0 <= count,
        ensures
            forall|index: int|
                0 <= index < count ==> (self.included(trait_, count).contains(index)
                    <==> !#[trigger] self.skips(index, trait_)),
            forall|place: int|
                0 <= place < self.included(trait_, count).len() ==> 0 <= (
                #[trigger] self.included(trait_, count)[place]) < count,
            self.included(trait_, count).no_duplicates(),
        decreases count,
    {
        if count > 0 {
            self.lemma_included_are_not_skipped(trait_, count - 1);
            let before = self.included(trait_, count - 1);
            let now = self.included(trait_, count);
            if !self.skips(count - 1, trait_) {
                assert(now[now.len() - 1] == count - 1);
                assert forall|index: int| 0 <= index < count implies (now.contains(index)
                    <==> !#[trigger] self.skips(index, trait_)) by {
                    if index < count - 1 {
                        if before.contains(index) {
                            let place = choose|place: int|
                                0 <= place < before.len() && before[place] == index;
                            assert(now[place] == index);
                        }
                        if now.contains(index) {
                            let place = choose|place: int|
                                0 <= place < now.len() && now[place] == index;
                            assert(before[place] == index);
                        }
                    }
                }
            }
        }
    }

    /// A trait that cannot skip fields takes every field.
    pub proof fn lemma_unskippable_takes_all(self, trait_: Trait, count: int)
        requires
            !trait_.skippable(),
            0 <= count,
        ensures
            self.included(trait_, count) == Seq::new(count as nat, |index: int| index),
        decreases count,
    {
        if count > 0 {
            self.lemma_unskippable_takes_all(trait_, count - 1);
        }
        assert(self.included(trait_, count) =~= Seq::new(count as nat, |index: int| index));
    }
}

impl Data {
    fn new(
        skip_inner: Skip,
        ident: String,
        path: String,
        type_: DataType,
        fields: &Vec<syntax::Field>,
        named: bool,
        catalogue: Catalogue,
    ) -> (outcome: Result<Data, Error>)
        ensures
            match outcome {
                Ok(data) => DataView::read(
                    skip_inner,
                    ident@,
                    path@,
                    type_,
                    fields@,
                    named,
                    catalogue,
                )
                    == Ok::<DataView, ErrorView>(data@),
                Err(error) => DataView::read(
                    skip_inner,
                    ident@,
                    path@,
                    type_,
                    fields@,
                    named,
                    catalogue,
                )
                    == Err::<DataView, ErrorView>(error@),
            },
    {
        let mut read: Vec<Field> = Vec::new();
        proof {
            lemma_views_empty::<Field>();
        }
        let mut i: usize = 0;
        while i < fields.len()
            invariant
                i <= fields@.len(),
                FieldView::all_read(skip_inner, fields@, i as int, named, catalogue) == Ok::<
                    Seq<FieldView>,
                    ErrorView,
                >(views(read@)),
            decreases fields@.len() - i,
        {
            match Field::from_syntax(&skip_inner, &fields[i], i, named, catalogue) {
                Ok(field) => {
                    proof {
                        lemma_views_push(read@, field);
                    }
                    read.push(field);
                },
                Err(error) => {
                    proof {
                        assert(FieldView::all_read(
                            skip_inner,
                            fields@,
                            i as int + 1,
                            named,
                            catalogue,
                        )
                            == Err::<Seq<FieldView>, ErrorView>(error@));
                        FieldView::lemma_all_read_fails(
                            skip_inner,
                            fields@,
                            i as int + 1,
                            fields@.len() as int,
                            named,
                            catalogue,
                        );
                    }
                    return Err(error);
                },
            }
            i += 1;
        }
        Ok(Data { skip_inner, ident, path, type_, fields: read })
    }

    /// The description of a struct with named fields.
    pub fn from_struct(
        skip_inner: Skip,
        ident: &String,
        fields: &Vec<syntax::Field>,
        catalogue: Catalogue,
    ) -> (outcome: Result<Data, Error>)
        ensures
            match outcome {
                Ok(data) => DataView::read(
                    skip_inner,
                    ident@,
                    ident@,
                    DataType::Struct,
                    fields@,
                    true,
                    catalogue,
                ) == Ok::<DataView, ErrorView>(data@),
                Err(error) => DataView::read(
                    skip_inner,
                    ident@,
                    ident@,
                    DataType::Struct,
                    fields@,
                    true,
                    catalogue,
                ) == Err::<DataView, ErrorView>(error@),
            },
    {
        Data::new(
            skip_inner,
            ident.clone(),
            ident.clone(),
            DataType::Struct,
            fields,
            true,
            catalogue,
        )
    }

    /// The description of a struct with unnamed fields.
    pub fn from_tuple(
        skip_inner: Skip,
        ident: &String,
        fields: &Vec<syntax::Field>,
        catalogue: Catalogue,
    ) -> (outcome: Result<Data, Error>)
        ensures
            match outcome {
                Ok(data) => DataView::read(
                    skip_inner,
                    ident@,
                    ident@,
                    DataType::Tuple,
                    fields@,
                    false,
                    catalogue,
                ) == Ok::<DataView, ErrorView>(data@),
                Err(error) => DataView::read(
                    skip_inner,
                    ident@,
                    ident@,
                    DataType::Tuple,
                    fields@,
                    false,
                    catalogue,
                ) == Err::<DataView, ErrorView>(error@),
            },
    {
        Data::new(
            skip_inner,
            ident.clone(),
            ident.clone(),
            DataType::Tuple,
            fields,
            false,
            catalogue,
        )
    }

    /// The description of a union.
    pub fn from_union(
        skip_inner: Skip,
        ident: &String,
        fields: &Vec<syntax::Field>,
        catalogue: Catalogue,
    ) -> (outcome: Result<Data, Error>)
        ensures
            match outcome {
                Ok(data) => DataView::read(
                    skip_inner,
                    ident@,
                    ident@,
                    DataType::Union,
                    fields@,
                    true,
                    catalogue,
                ) == Ok::<DataView, ErrorView>(data@),
                Err(error) => DataView::read(
                    skip_inner,
                    ident@,
                    ident@,
                    DataType::Union,
                    fields@,
                    true,
                    catalogue,
                ) == Err::<DataView, ErrorView>(error@),
            },
    {
        Data::new(
            skip_inner,
            ident.clone(),
            ident.clone(),
            DataType::Union,
            fields,
            true,
            catalogue,
        )
    }

    /// The path of a variant: the enum's name, `::` and the variant's name.
    pub open spec fn variant_path(item_ident: Seq<char>, variant_ident: Seq<char>) -> Seq<char> {
        item_ident + "::"@ + variant_ident
    }

    /// The description of a variant of the given form.
    pub fn from_variant(
        item_ident: &String,
        skip_inner: Skip,
        default: DefaultMarker,
        variant_ident: &String,
        fields: &syntax::Fields,
        catalogue: Catalogue,
    ) -> (outcome: Result<Data, Error>)
        ensures
            match outcome {
                Ok(data) => DataView::read_variant(
                    item_ident@,
                    skip_inner,
                    default,
                    variant_ident@,
                    *fields,
                    catalogue,
                ) == Ok::<DataView, ErrorView>(data@),
                Err(error) => DataView::read_variant(
                    item_ident@,
                    skip_inner,
                    default,
                    variant_ident@,
                    *fields,
                    catalogue,
                ) == Err::<DataView, ErrorView>(error@),
            },
    {
        let mut path = item_ident.clone();
        path.append("::");
        path.append(variant_ident.as_str());
        match fields {
            syntax::Fields::Named(fields) => Data::new(
                skip_inner,
                variant_ident.clone(),
                path,
                DataType::Variant { default, type_: VariantData::Struct },
                fields,
                true,
                catalogue,
            ),
            syntax::Fields::Unnamed(fields) => Data::new(
                skip_inner,
                variant_ident.clone(),
                path,
                DataType::Variant { default, type_: VariantData::Tuple },
                fields,
                false,
                catalogue,
            ),
            syntax::Fields::Unit => {
                proof {
                    lemma_views_empty::<Field>();
                }
                Ok(
                    Data {
                        skip_inner,
                        ident: variant_ident.clone(),
                        path,
                        type_: DataType::Variant { default, type_: VariantData::Unit },
                        fields: Vec::new(),
                    },
                )
            },
        }
    }

    /// Whether the field at `index` is left out of the implementation of the
    /// trait.
    pub fn skip(&self, index: usize, trait_: Trait) -> (skipped: bool)
        requires
            index < self.fields@.len(),
        ensures
            skipped == self@.skips(index as int, trait_),
    {
        trait_.supports_skip() && (self.skip_inner.skip(trait_) || self.fields[index].attr.skip.skip(
            trait_,
        ))
    }

    /// Whether no field takes part in the implementation of the trait.
    pub fn is_empty(&self, trait_: Trait) -> (empty: bool)
        ensures
            empty == self@.is_empty(trait_),
    {
        let mut i: usize = 0;
        while i < self.fields.len()
            invariant
                i <= self.fields@.len(),
                forall|index: int| 0 <= index < i ==> self@.skips(index, trait_),
            decreases self.fields@.len() - i,
        {
            if !self.skip(i, trait_) {
                return false;
            }
            i += 1;
        }
        true
    }

    /// Whether some attribute of the body or of its fields skips anything.
    pub fn any_skip(&self) -> (any: bool)
        ensures
            any == self@.any_skip(),
    {
        if !self.skip_inner.is_none() {
            return true;
        }
        let mut i: usize = 0;
        while i < self.fields.len()
            invariant
                i <= self.fields@.len(),
                self.skip_inner is Nothing,
                forall|index: int|
                    0 <= index < i ==> (#[trigger] self@.fields[index]).attr.skip is Nothing,
            decreases self.fields@.len() - i,
        {
            if !self.fields[i].attr.skip.is_none() {
                assert(!(self@.fields[i as int].attr.skip is Nothing));
                return true;
            }
            i += 1;
        }
        false
    }

    /// Whether some field asks for the call of `zeroize` by full path.
    pub fn any_fqs(&self) -> (any: bool)
        ensures
            any == self@.any_fqs(),
    {
        let mut i: usize = 0;
        while i < self.fields.len()
            invariant
                i <= self.fields@.len(),
                forall|index: int|
                    0 <= index < i ==> !(#[trigger] self@.fields[index]).attr.zeroize_fqs.set,
            decreases self.fields@.len() - i,
        {
            if self.fields[i].attr.zeroize_fqs.set {
                assert(self@.fields[i as int].attr.zeroize_fqs.set);
                return true;
            }
            i += 1;
        }
        false
    }

    /// Whether `Default` constructs this body.
    pub fn is_default(&self) -> (default: bool)
        ensures
            default == self@.is_default(),
    {
        match self.type_ {
            DataType::Variant { default, .. } => default.is_marked(),
            _ => true,
        }
    }

    /// The form of the body.
    pub fn simple_type(&self) -> (form: SimpleType)
        ensures
            form == self@.simple_type(),
    {
        match self.type_ {
            DataType::Struct => SimpleType::Struct,
            DataType::Tuple => SimpleType::Tuple,
            DataType::Union => SimpleType::Union,
            DataType::Variant { type_: VariantData::Struct, .. } => SimpleType::Struct,
            DataType::Variant { type_: VariantData::Tuple, .. } => SimpleType::Tuple,
            DataType::Variant { type_: VariantData::Unit, .. } => SimpleType::Unit,
        }
    }

    fn pattern(&self, mode: &str, stem: &str) -> (text: String)
        ensures
            text@ == self@.pattern(mode@, stem@),
    {
        let mut patterns: Vec<String> = Vec::new();
        assert(texts(patterns@) =~= Seq::<Seq<char>>::empty());
        let mut i: usize = 0;
        while i < self.fields.len()
            invariant
                i <= self.fields@.len(),
                texts(patterns@) == self@.field_patterns(mode@, stem@, i as int),
            decreases self.fields@.len() - i,
        {
            let pattern = self.fields[i].pattern(mode, stem);
            assert(texts(patterns@.push(pattern)) =~= texts(patterns@).push(pattern@));
            patterns.push(pattern);
            i += 1;
        }
        let fields = join(&patterns, ", ");
        let mut text = self.path.clone();
        match self.simple_type() {
            SimpleType::Struct | SimpleType::Union => {
                text.append(" { ");
                text.append(fields.as_str());
                text.append(" }");
            },
            SimpleType::Tuple => {
                text.append("(");
                text.append(fields.as_str());
                text.append(")");
            },
            SimpleType::Unit => {},
        }
        text
    }

    /// The pattern that matches `self`.
    pub fn self_pattern(&self) -> (text: String)
        ensures
            text@ == self@.self_pattern(),
    {
        self.pattern("ref ", "__")
    }

    /// The pattern that matches `self` for a change in place.
    pub fn self_pattern_mut(&self) -> (text: String)
        ensures
            text@ == self@.self_pattern_mut(),
    {
        self.pattern("ref mut ", "__")
    }

    /// The pattern that matches the other value of a comparison.
    pub fn other_pattern(&self) -> (text: String)
        ensures
            text@ == self@.other_pattern(),
    {
        self.pattern("ref ", "__other_")
    }
}

impl DataView {
    /// The variant of an enum with the given options and fields read, or the
    /// first complaint about one of the fields.
    pub open spec fn read_variant(
        item_ident: Seq<char>,
        skip_inner: Skip,
        default: DefaultMarker,
        variant_ident: Seq<char>,
        fields: syntax::Fields,
        catalogue: Catalogue,
    ) -> Result<DataView, ErrorView> {
        let path = Data::variant_path(item_ident, variant_ident);
        match fields {
            syntax::Fields::Named(fields) => DataView::read(
                skip_inner,
                variant_ident,
                path,
                DataType::Variant { default, type_: VariantData::Struct },
                fields@,
                true,
                catalogue,
            ),
            syntax::Fields::Unnamed(fields) => DataView::read(
                skip_inner,
                variant_ident,
                path,
                DataType::Variant { default, type_: VariantData::Tuple },
                fields@,
                false,
                catalogue,
            ),
            syntax::Fields::Unit => Ok(
                DataView {
                    skip_inner,
                    ident: variant_ident,
                    path,
                    type_: DataType::Variant { default, type_: VariantData::Unit },
                    fields: Seq::empty(),
                },
            ),
        }
    }
}

} // verus!
