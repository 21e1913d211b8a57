//! The attributes that list the traits to implement.

use crate::error::{outcome_view, Error, ErrorKind, ErrorView};
use crate::span::Span;
use crate::code::{join, joined, texts};
use crate::syntax::{Bound, BoundKind, Delimiter, Generics, Meta, MetaList};
use crate::trait_::{Catalogue, DeriveTrait, DeriveTraitView, Trait, Verdict};
use crate::views::{lemma_views_empty, lemma_views_push, views};
use vstd::prelude::*;
use vstd::string::StringExecFns;

verus! {

/// A bound of a bound clause.
#[derive(Debug)]
pub enum Generic {
    /// A predicate that goes into the `where` clause as it is: `T: Bound`.
    CustomBound(String),
    /// A type that is bound by the trait that is implemented: `T`.
    NoBound(String),
}

/// A bound of a bound clause as a mathematical value.
pub enum GenericView {
    CustomBound(Seq<char>),
    NoBound(Seq<char>),
}

impl View for Generic {
    type V = GenericView;

    open spec fn view(&self) -> GenericView {
        match self {
            Generic::CustomBound(predicate) => GenericView::CustomBound(predicate@),
            Generic::NoBound(type_) => GenericView::NoBound(type_@),
        }
    }
}

impl GenericView {
    /// The bound that an element of a bound clause stands for, or why the
    /// element is refused.
    pub open spec fn read(bound: Bound) -> Result<GenericView, ErrorView> {
        match bound.kind {
            BoundKind::Type => Ok(GenericView::NoBound(bound.text@)),
            BoundKind::TypePredicate => Ok(GenericView::CustomBound(bound.text@)),
            BoundKind::OtherPredicate => Err(
                ErrorView::plain(ErrorKind::UnsupportedPredicate, bound.span),
            ),
            BoundKind::Unreadable => Err(
                ErrorView::quoting(ErrorKind::GenericSyntax, bound.span, bound.text@),
            ),
        }
    }
}

impl Generic {
    /// Reads an element of a bound clause.
    pub fn from_bound(bound: &Bound) -> (outcome: Result<Generic, Error>)
        ensures
            match outcome {
                Ok(generic) => GenericView::read(*bound) == Ok::<GenericView, ErrorView>(
                    generic@,
                ),
                Err(error) => GenericView::read(*bound) == Err::<GenericView, ErrorView>(error@),
            },
    {
        match bound.kind {
            BoundKind::Type => Ok(Generic::NoBound(bound.text.clone())),
            BoundKind::TypePredicate => Ok(Generic::CustomBound(bound.text.clone())),
            BoundKind::OtherPredicate => Err(Error::generic(bound.span)),
            BoundKind::Unreadable => Err(Error::generic_syntax(bound.span, bound.text.as_str())),
        }
    }
}

/// One attribute that lists traits to implement, with its bound clause. Each
/// of them leads to `impl` blocks of its own.
#[derive(Debug)]
pub struct DeriveWhere {
    pub span: Span,
    pub traits: Vec<DeriveTrait>,
    pub generics: Vec<Generic>,
}

/// An attribute that lists traits as a mathematical value.
pub struct DeriveWhereView {
    pub span: Span,
    pub traits: Seq<DeriveTraitView>,
    pub generics: Seq<GenericView>,
}

impl View for DeriveWhere {
    type V = DeriveWhereView;

    open spec fn view(&self) -> DeriveWhereView {
        DeriveWhereView {
            span: self.span,
            traits: views(self.traits@),
            generics: views(self.generics@),
        }
    }
}

impl DeriveWhereView {
    /// Whether the attribute asks for the trait.
    pub open spec fn implements(self, trait_: Trait) -> bool {
        exists|i: int| 0 <= i < self.traits.len() && (#[trigger] self.traits[i]).trait_ == trait_
    }

    /// The predicate that a bound of the bound clause stands for where the
    /// given trait is implemented: a type is bound by the trait itself.
    pub open spec fn predicate(generic: GenericView, trait_: DeriveTraitView) -> Seq<char> {
        match generic {
            GenericView::CustomBound(predicate) => predicate,
            GenericView::NoBound(type_) => type_ + ": "@ + trait_.path(),
        }
    }

    /// The item's own predicates, then those of the first `count` bounds of the
    /// bound clause.
    pub open spec fn predicates(self, trait_: DeriveTraitView, generics: Generics, count: int)
        -> Seq<Seq<char>>
        decreases count,
    {
        if count <= 0 {
            texts(generics.where_predicates@)
        } else {
            self.predicates(trait_, generics, count - 1).push(
                DeriveWhereView::predicate(self.generics[count - 1], trait_),
            )
        }
    }

    /// The `where` clause that holds the given predicates; nothing where there
    /// is none.
    pub open spec fn clause(predicates: Seq<Seq<char>>) -> Seq<char> {
        if predicates.len() == 0 {
            Seq::empty()
        } else {
            "where "@ + joined(predicates, ", "@) + " "@
        }
    }

    /// The `where` clause of the `impl` block for the given trait: the item's own
    /// predicates and those of the bound clause.
    pub open spec fn where_clause(self, trait_: DeriveTraitView, generics: Generics) -> Seq<char> {
        DeriveWhereView::clause(self.predicates(trait_, generics, self.generics.len() as int))
    }

    /// Without a bound clause the `impl` block of every trait is bound by the
    /// item's own predicates and by nothing else.
    pub proof fn lemma_no_bounds_by_default(self, trait_: DeriveTraitView, generics: Generics)
        requires
            self.generics.len() == 0,
        ensures
            self.where_clause(trait_, generics) == DeriveWhereView::clause(
                texts(generics.where_predicates@),
            ),
    {
    }

    /// The traits that the first `count` directives ask for, or the first
    /// complaint about one of them. `problems` holds, for each directive, what
    /// the reader of paths said about it.
    pub open spec fn traits_read(
        items: Seq<Meta>,
        count: int,
        union: bool,
        problems: Seq<Verdict>,
        catalogue: Catalogue,
    ) -> Result<Seq<DeriveTraitView>, ErrorView>
        decreases count,
    {
        if count <= 0 {
            Ok(Seq::empty())
        } else {
            match DeriveWhereView::traits_read(items, count - 1, union, problems, catalogue) {
                Err(error) => Err(error),
                Ok(before) => match DeriveTraitView::read(
                    items[count - 1],
                    union,
                    problems[count - 1],
                    catalogue,
                ) {
                    Err(error) => Err(error),
                    Ok(trait_) => Ok(before.push(trait_)),
                },
            }
        }
    }

    /// The bounds that the first `count` elements of a bound clause stand for, or
    /// the first complaint about one of them.
    pub open spec fn bounds_read(bounds: Seq<Bound>, count: int) -> Result<
        Seq<GenericView>,
        ErrorView,
    >
        decreases count,
    {
        if count <= 0 {
            Ok(Seq::empty())
        } else {
            match DeriveWhereView::bounds_read(bounds, count - 1) {
                Err(error) => Err(error),
                Ok(before) => match GenericView::read(bounds[count - 1]) {
                    Err(error) => Err(error),
                    Ok(generic) => Ok(before.push(generic)),
                },
            }
        }
    }

    /// What an attribute at `span` with the given list asks for, or why it is
    /// refused: the traits are read first, then the delimiter, then the bounds.
    /// `union` says whether the item is a union, and `problems` holds, for each
    /// directive, what the reader of paths said about it.
    pub open spec fn read(
        span: Span,
        list: MetaList,
        union: bool,
        problems: Seq<Verdict>,
        catalogue: Catalogue,
    )
        -> Result<DeriveWhereView, ErrorView> {
        if list.items@.len() == 0 {
            Err(ErrorView::listing(ErrorKind::TraitSyntax, span, catalogue))
        } else {
            match DeriveWhereView::traits_read(
                list.items@,
                list.items@.len() as int,
                union,
                problems,
                catalogue,
            ) {
                Err(error) => Err(error),
                Ok(traits) => match list.delimiter {
                    Delimiter::Unexpected(place) => Err(
                        ErrorView::plain(ErrorKind::Delimiter, place),
                    ),
                    _ => match DeriveWhereView::bounds_read(
                        list.bounds@,
                        list.bounds@.len() as int,
                    ) {
                        Err(error) => Err(error),
                        Ok(generics) => Ok(DeriveWhereView { span, traits, generics }),
                    },
                },
            }
        }
    }

    /// Whether the reader of paths is asked about some directive of the list.
    pub open spec fn asks_about(list: MetaList, union: bool, catalogue: Catalogue) -> bool {
        exists|index: int|
            0 <= index < list.items@.len() && DeriveTraitView::asks_about(
                #[trigger] list.items@[index],
                union,
                catalogue,
            )
    }

    /// What is read of the first directives depends on what the reader of paths
    /// said about these and about no others.
    pub proof fn lemma_traits_read_same(
        items: Seq<Meta>,
        count: int,
        union: bool,
        one: Seq<Verdict>,
        other: Seq<Verdict>,
        catalogue: Catalogue,
    )
        requires
            count <= items.len(),
            forall|index: int|
                0 <= index < count ==> one[index] == other[index] || !DeriveTraitView::asks_about(
                    #[trigger] items[index],
                    union,
                    catalogue,
                ),
        ensures
            DeriveWhereView::traits_read(
                items,
                count,
                union,
                one,
                catalogue,
            ) == DeriveWhereView::traits_read(
                items,
                count,
                union,
                other,
                catalogue,
            ),
        decreases count,
    {
        if count > 0 {
            DeriveWhereView::lemma_traits_read_same(items, count - 1, union, one, other, catalogue);
            if DeriveTraitView::asks_about(items[count - 1], union, catalogue) {
                assert(one[count - 1] == other[count - 1]);
            } else {
                DeriveTraitView::lemma_read_unasked(
                    items[count - 1],
                    union,
                    one[count - 1],
                    other[count - 1],
                    catalogue,
                );
            }
        }
    }

    /// Where the reader of paths is not asked about any directive of the list,
    /// the list alone decides what is read.
    pub proof fn lemma_read_unasked(
        span: Span,
        list: MetaList,
        union: bool,
        one: Seq<Verdict>,
        other: Seq<Verdict>,
        catalogue: Catalogue,
    )
        requires
            !DeriveWhereView::asks_about(list, union, catalogue),
        ensures
            DeriveWhereView::read(span, list, union, one, catalogue) == DeriveWhereView::read(
                span,
                list,
                union,
                other,
                catalogue,
            ),
    {
        DeriveWhereView::lemma_traits_read_same(
            list.items@,
            list.items@.len() as int,
            union,
            one,
            other,
            catalogue,
        );
    }

    /// For a union, the first directive that asks for a trait that a union
    /// cannot have is refused as such.
    pub proof fn lemma_read_refused_for_union(
        span: Span,
        list: MetaList,
        problems: Seq<Verdict>,
        index: int,
        catalogue: Catalogue,
    )
        requires
            0 <= index < list.items@.len(),
            DeriveWhereView::traits_read(list.items@, index, true, problems, catalogue) is Ok,
            list.items@[index].form is Word || list.items@[index].form is List,
            Trait::named(
                list.items@[index].name@,
                catalogue,
            ) matches Some(trait_) && !trait_.for_unions(),
        ensures
            DeriveWhereView::read(
                span,
                list,
                true,
                problems,
                catalogue,
            ) == Err::<DeriveWhereView, ErrorView>(
                ErrorView::plain(ErrorKind::UnionTrait, list.items@[index].span),
            ),
    {
        DeriveTraitView::lemma_read_refused_for_union(
            list.items@[index],
            problems[index],
            catalogue,
        );
        assert(DeriveWhereView::traits_read(
            list.items@,
            index + 1,
            true,
            problems,
            catalogue,
        ) is Err);
        DeriveWhereView::lemma_traits_read_fails(
            list.items@,
            index + 1,
            list.items@.len() as int,
            true,
            problems,
            catalogue,
        );
    }

    /// Whether a union can have every trait that the attribute asks for.
    pub open spec fn for_unions(self) -> bool {
        forall|i: int| 0 <= i < self.traits.len() ==> (#[trigger] self.traits[i]).trait_.for_unions()
    }

    /// For a union, only traits that a union can have are read.
    pub proof fn lemma_traits_read_for_union(
        items: Seq<Meta>,
        count: int,
        problems: Seq<Verdict>,
        catalogue: Catalogue,
    )
        ensures
            DeriveWhereView::traits_read(items, count, true, problems, catalogue) matches Ok(traits)
                ==> forall|i: int|
                0 <= i < traits.len() ==> (#[trigger] traits[i]).trait_.for_unions(),
        decreases count,
    {
        if count > 0 {
            DeriveWhereView::lemma_traits_read_for_union(items, count - 1, problems, catalogue);
            DeriveTraitView::lemma_read_for_union(items[count - 1], problems[count - 1], catalogue);
        }
    }

    /// For a union, an attribute asks only for traits that a union can have.
    pub proof fn lemma_read_for_union(
        span: Span,
        list: MetaList,
        problems: Seq<Verdict>,
        catalogue: Catalogue,
    )
        ensures
            DeriveWhereView::read(span, list, true, problems, catalogue) matches Ok(derive_where)
                ==> derive_where.for_unions(),
    {
        DeriveWhereView::lemma_traits_read_for_union(
            list.items@,
            list.items@.len() as int,
            problems,
            catalogue,
        );
    }

    /// A complaint about one of the first directives stays the complaint about all.
    pub proof fn lemma_traits_read_fails(
        items: Seq<Meta>,
        count: int,
        more: int,
        union: bool,
        problems: Seq<Verdict>,
        catalogue: Catalogue,
    )
        requires
            count <= more,
            DeriveWhereView::traits_read(items, count, union, problems, catalogue) is Err,
        ensures
            DeriveWhereView::traits_read(items, more, union, problems, catalogue)
                == DeriveWhereView::traits_read(items, count, union, problems, catalogue),
        decreases more - count,
    {
        if count < more {
            DeriveWhereView::lemma_traits_read_fails(
                items,
                count,
                more - 1,
                union,
                problems,
                catalogue,
            );
        }
    }

    /// A complaint about one of the first bounds stays the complaint about all.
    pub proof fn lemma_bounds_read_fails(bounds: Seq<Bound>, count: int, more: int)
        requires
            count <= more,
            DeriveWhereView::bounds_read(bounds, count) is Err,
        ensures
            DeriveWhereView::bounds_read(bounds, more) == DeriveWhereView::bounds_read(
                bounds,
                count,
            ),
        decreases more - count,
    {
        if count < more {
            DeriveWhereView::lemma_bounds_read_fails(bounds, count, more - 1);
        }
    }
}

/// Whether one of the attributes asks for the trait.
pub open spec fn any_implements(derive_wheres: Seq<DeriveWhereView>, trait_: Trait) -> bool {
    exists|i: int|
        0 <= i < derive_wheres.len() && (#[trigger] derive_wheres[i]).implements(trait_)
}

impl DeriveWhere {
    /// Reads the list of an attribute at `span` that lists traits. `union` says
    /// whether the item is a union. The reader of paths is asked at most once
    /// for each directive; where it is not asked at all, the list alone decides.
    pub fn from_attr(
        span: Span,
        list: &MetaList,
        union: bool,
        catalogue: Catalogue,
    ) -> (outcome: Result<
        DeriveWhere,
        Error,
    >)
        ensures
            ({
                let seen = outcome_view(outcome);
                &&& exists|problems: Seq<Verdict>| #[trigger]
                    DeriveWhereView::read(span, *list, union, problems, catalogue) == seen
                &&& !DeriveWhereView::asks_about(*list, union, catalogue) ==> DeriveWhereView::read(
                    span,
                    *list,
                    union,
                    Seq::empty(),
                    catalogue,
                ) == seen
            }),
    {
        let outcome = DeriveWhere::read_asking(span, list, union, catalogue);
        proof {
            let seen = outcome_view(outcome.0);
            assert(DeriveWhereView::read(span, *list, union, outcome.1@, catalogue) == seen);
            if !DeriveWhereView::asks_about(*list, union, catalogue) {
                DeriveWhereView::lemma_read_unasked(
                    span,
                    *list,
                    union,
                    outcome.1@,
                    Seq::empty(),
                    catalogue,
                );
            }
        }
        outcome.0
    }

    /// Reads the list of an attribute and keeps what the reader of paths said
    /// about each directive.
    #[verifier::loop_isolation(false)]
    pub(crate) fn read_asking(
        span: Span,
        list: &MetaList,
        union: bool,
        catalogue: Catalogue,
    ) -> (outcome: (
        Result<DeriveWhere, Error>,
        Ghost<Seq<Verdict>>,
    ))
        ensures
            DeriveWhereView::read(
                span,
                *list,
                union,
                outcome.1@,
                catalogue,
            ) == outcome_view(outcome.0),
    {
        let ghost mut said: Seq<Verdict> = Seq::empty();
        if list.items.len() == 0 {
            return (Err(Error::trait_syntax(span, catalogue)), Ghost(said));
        }
        let mut traits: Vec<DeriveTrait> = Vec::new();
        proof {
            lemma_views_empty::<DeriveTrait>();
            lemma_views_empty::<Generic>();
        }
        let mut i: usize = 0;
        while i < list.items.len()
            invariant
                i <= list.items@.len(),
                said.len() == i,
                DeriveWhereView::traits_read(list.items@, i as int, union, said, catalogue) == Ok::<
                    Seq<DeriveTraitView>,
                    ErrorView,
                >(views(traits@)),
            decreases list.items@.len() - i,
        {
            let read = DeriveTrait::read_asking(&list.items[i], union, catalogue);
            proof {
                DeriveWhereView::lemma_traits_read_same(
                    list.items@,
                    i as int,
                    union,
                    said,
                    said.push(read.1@),
                    catalogue,
                );
                said = said.push(read.1@);
            }
            match read.0 {
                Ok(trait_) => {
                    proof {
                        lemma_views_push(traits@, trait_);
                    }
                    traits.push(trait_);
                },
                Err(error) => {
                    proof {
                        assert(DeriveWhereView::traits_read(
                            list.items@,
                            i as int + 1,
                            union,
                            said,
                            catalogue,
                        ) == Err::<Seq<DeriveTraitView>, ErrorView>(error@));
                        DeriveWhereView::lemma_traits_read_fails(
                            list.items@,
                            i as int + 1,
                            list.items@.len() as int,
                            union,
                            said,
                            catalogue,
                        );
                    }
                    return (Err(error), Ghost(said));
                },
            }
            i += 1;
        }
        if let Delimiter::Unexpected(place) = list.delimiter {
            return (Err(Error::derive_where_delimiter(place)), Ghost(said));
        }
        let mut generics: Vec<Generic> = Vec::new();
        let mut j: usize = 0;
        while j < list.bounds.len()
            invariant
                j <= list.bounds@.len(),
                DeriveWhereView::bounds_read(list.bounds@, j as int) == Ok::<
                    Seq<GenericView>,
                    ErrorView,
                >(views(generics@)),
            decreases list.bounds@.len() - j,
        {
            match Generic::from_bound(&list.bounds[j]) {
                Ok(generic) => {
                    proof {
                        lemma_views_push(generics@, generic);
                    }
                    generics.push(generic);
                },
                Err(error) => {
                    proof {
                        assert(DeriveWhereView::bounds_read(list.bounds@, j as int + 1) == Err::<
                            Seq<GenericView>,
                            ErrorView,
                        >(error@));
                        DeriveWhereView::lemma_bounds_read_fails(
                            list.bounds@,
                            j as int + 1,
                            list.bounds@.len() as int,
                        );
                    }
                    return (Err(error), Ghost(said));
                },
            }
            j += 1;
        }
        (Ok(DeriveWhere { span, traits, generics }), Ghost(said))
    }

    /// Writes the `where` clause of the `impl` block for the given trait.
    pub fn where_clause(&self, trait_: &DeriveTrait, generics: &Generics) -> (code: String)
        ensures
            code@ == self@.where_clause(trait_@, *generics),
    {
        let mut predicates: Vec<String> = Vec::new();
        let mut i: usize = 0;
        while i < generics.where_predicates.len()
            invariant
                i <= generics.where_predicates@.len(),
                texts(predicates@) == texts(generics.where_predicates@).take(i as int),
            decreases generics.where_predicates@.len() - i,
        {
            let predicate = generics.where_predicates[i].clone();
            proof {
                let own = texts(generics.where_predicates@);
                assert(predicate@ == own[i as int]);
                assert(texts(predicates@.push(predicate)) =~= texts(predicates@).push(
                    predicate@,
                ));
                assert(own.take(i as int + 1) =~= own.take(i as int).push(own[i as int]));
            }
            predicates.push(predicate);
            i += 1;
        }
        assert(texts(predicates@) =~= texts(generics.where_predicates@));
        let path = trait_.path();
        let mut j: usize = 0;
        while j < self.generics.len()
            invariant
                j <= self.generics@.len(),
                path@ == trait_@.path(),
                texts(predicates@) == self@.predicates(trait_@, *generics, j as int),
            decreases self.generics@.len() - j,
        {
            let predicate = match &self.generics[j] {
                Generic::CustomBound(predicate) => predicate.clone(),
                Generic::NoBound(type_) => {
                    let mut predicate = type_.clone();
                    predicate.append(": ");
                    predicate.append(path.as_str());
                    predicate
                },
            };
            assert(predicate@ == DeriveWhereView::predicate(self@.generics[j as int], trait_@));
            assert(texts(predicates@.push(predicate)) =~= texts(predicates@).push(predicate@));
            predicates.push(predicate);
            j += 1;
        }
        if predicates.len() == 0 {
            String::new()
        } else {
            let list = join(&predicates, ", ");
            let mut code = String::from_str("where ");
            code.append(list.as_str());
            code.append(" ");
            code
        }
    }

    /// Whether the attribute asks for the trait.
    pub fn implements(&self, trait_: Trait) -> (found: bool)
        ensures
            found == self@.implements(trait_),
    {
        let mut i: usize = 0;
        while i < self.traits.len()
            invariant
                i <= self.traits@.len(),
                forall|k: int| 0 <= k < i ==> (#[trigger] self@.traits[k]).trait_ != trait_,
            decreases self.traits@.len() - i,
        {
            if self.traits[i].trait_ == trait_ {
                assert(self@.traits[i as int].trait_ == trait_);
                return true;
            }
            i += 1;
        }
        false
    }
}

/// Whether one of the attributes asks for the trait.
pub fn implements_any(derive_wheres: &Vec<DeriveWhere>, trait_: Trait) -> (found: bool)
    ensures
        found == any_implements(views(derive_wheres@), trait_),
{
    let mut i: usize = 0;
    while i < derive_wheres.len()
        invariant
            i <= derive_wheres@.len(),
            forall|k: int| 0 <= k < i ==> !(#[trigger] views(derive_wheres@)[k]).implements(trait_),
        decreases derive_wheres@.len() - i,
    {
        if derive_wheres[i].implements(trait_) {
            assert(views(derive_wheres@)[i as int].implements(trait_));
            return true;
        }
        i += 1;
    }
    false
}

} // verus!
