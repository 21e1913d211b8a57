//! The closed catalogue of traits that can be implemented: the nine of the
//! standard library and, where the build asks for them, the two of the crate
//! `zeroize`.

pub mod clone;
pub mod common_ord;
pub mod copy;
pub mod debug;
pub mod default;
pub mod eq;
pub mod hash;
pub mod ord;
pub mod partial_eq;
pub mod partial_ord;
pub mod zeroize;
pub mod zeroize_on_drop;

use crate::data::{Data, DataView};
use crate::error::{outcome_view, step_view, Error, ErrorKind, ErrorView};
use crate::input::{Item, ItemView};
use crate::span::Span;
use crate::syntax::{Argument, ArgumentForm, Meta, MetaForm};
use vstd::prelude::*;
use vstd::string::{StrSliceExecFns, StringExecFns};

verus! {

/// Which traits the catalogue holds.
#[derive(Clone, Copy, Debug, PartialEq, Eq, Structural)]
pub enum Catalogue {
    /// The nine traits of the standard library.
    Standard,
    /// These, and `Zeroize` and `ZeroizeOnDrop` of the crate `zeroize` with
    /// their options.
    WithZeroize,
}

impl Catalogue {
    /// Whether the catalogue holds the trait.
    pub open spec fn holds(self, trait_: Trait) -> bool {
        self is WithZeroize || !trait_.has_options()
    }

    /// Whether the catalogue holds the trait.
    pub fn contains(&self, trait_: Trait) -> (held: bool)
        ensures
            held == self.holds(trait_),
    {
        match self {
            Catalogue::WithZeroize => true,
            Catalogue::Standard => !trait_.supports_options(),
        }
    }
}

/// A trait that can be implemented.
#[derive(Clone, Copy, Debug, PartialEq, Eq, Structural)]
pub enum Trait {
    Clone,
    Copy,
    Debug,
    Default,
    Eq,
    Hash,
    Ord,
    PartialEq,
    PartialOrd,
    Zeroize,
    ZeroizeOnDrop,
}

impl Trait {
    /// The name under which the trait is requested.
    pub open spec fn name(self) -> Seq<char> {
        match self {
            Trait::Clone => "Clone"@,
            Trait::Copy => "Copy"@,
            Trait::Debug => "Debug"@,
            Trait::Default => "Default"@,
            Trait::Eq => "Eq"@,
            Trait::Hash => "Hash"@,
            Trait::Ord => "Ord"@,
            Trait::PartialEq => "PartialEq"@,
            Trait::PartialOrd => "PartialOrd"@,
            Trait::Zeroize => "Zeroize"@,
            Trait::ZeroizeOnDrop => "ZeroizeOnDrop"@,
        }
    }

    /// The trait of any catalogue that goes by the name `text`, if there is one.
    pub open spec fn of_name(text: Seq<char>) -> Option<Trait> {
        if text == Trait::Clone.name() {
            Some(Trait::Clone)
        } else if text == Trait::Copy.name() {
            Some(Trait::Copy)
        } else if text == Trait::Debug.name() {
            Some(Trait::Debug)
        } else if text == Trait::Default.name() {
            Some(Trait::Default)
        } else if text == Trait::Eq.name() {
            Some(Trait::Eq)
        } else if text == Trait::Hash.name() {
            Some(Trait::Hash)
        } else if text == Trait::Ord.name() {
            Some(Trait::Ord)
        } else if text == Trait::PartialEq.name() {
            Some(Trait::PartialEq)
        } else if text == Trait::PartialOrd.name() {
            Some(Trait::PartialOrd)
        } else if text == Trait::Zeroize.name() {
            Some(Trait::Zeroize)
        } else if text == Trait::ZeroizeOnDrop.name() {
            Some(Trait::ZeroizeOnDrop)
        } else {
            None
        }
    }

    /// The trait requested under the name `text`, if the catalogue holds one of
    /// that name.
    pub open spec fn named(text: Seq<char>, catalogue: Catalogue) -> Option<Trait> {
        match Trait::of_name(text) {
            Some(trait_) => if catalogue.holds(trait_) {
                Some(trait_)
            } else {
                None
            },
            None => None,
        }
    }

    /// Whether fields can be left out of the trait's implementation.
    pub open spec fn skippable(self) -> bool {
        match self {
            Trait::Debug
            | Trait::Hash
            | Trait::Ord
            | Trait::PartialEq
            | Trait::PartialOrd
            | Trait::Zeroize
            | Trait::ZeroizeOnDrop => true,
            Trait::Clone | Trait::Copy | Trait::Default | Trait::Eq => false,
        }
    }

    /// Whether the trait can be implemented for a union.
    pub open spec fn for_unions(self) -> bool {
        self == Trait::Clone || self == Trait::Copy
    }

    /// Whether the trait takes options where it is requested.
    pub open spec fn has_options(self) -> bool {
        self == Trait::Zeroize || self == Trait::ZeroizeOnDrop
    }

    /// No two traits share a name: each trait that the catalogue holds is found
    /// again under its own.
    pub proof fn lemma_named_own_name(self, catalogue: Catalogue)
        requires
            catalogue.holds(self),
        ensures
            Trait::named(self.name(), catalogue) == Some(self),
    {
        reveal_strlit("Clone");
        reveal_strlit("Copy");
        reveal_strlit("Debug");
        reveal_strlit("Default");
        reveal_strlit("Eq");
        reveal_strlit("Hash");
        reveal_strlit("Ord");
        reveal_strlit("PartialEq");
        reveal_strlit("PartialOrd");
        reveal_strlit("Zeroize");
        reveal_strlit("ZeroizeOnDrop");
        assert("Clone"@.len() == 5 && "Debug"@.len() == 5);
        assert("Copy"@.len() == 4 && "Hash"@.len() == 4);
        assert("Default"@.len() == 7 && "Zeroize"@.len() == 7);
        assert("Eq"@.len() == 2 && "Ord"@.len() == 3);
        assert("PartialEq"@.len() == 9 && "PartialOrd"@.len() == 10);
        assert("ZeroizeOnDrop"@.len() == 13);
        assert("Clone"@[0] == 'C' && "Debug"@[0] == 'D');
        assert("Copy"@[0] == 'C' && "Hash"@[0] == 'H');
        assert("Default"@[0] == 'D' && "Zeroize"@[0] == 'Z');
    }

    /// A name that finds a trait is that trait's name, and the catalogue holds the
    /// trait.
    pub proof fn lemma_named_is_name(text: Seq<char>, catalogue: Catalogue)
        ensures
            Trait::named(text, catalogue) matches Some(found) ==> found.name() == text
                && catalogue.holds(found),
    {
    }

    /// The name under which the trait is requested.
    pub fn as_str(&self) -> (name: &'static str)
        ensures
            name@ == self.name(),
    {
        match self {
            Trait::Clone => "Clone",
            Trait::Copy => "Copy",
            Trait::Debug => "Debug",
            Trait::Default => "Default",
            Trait::Eq => "Eq",
            Trait::Hash => "Hash",
            Trait::Ord => "Ord",
            Trait::PartialEq => "PartialEq",
            Trait::PartialOrd => "PartialOrd",
            Trait::Zeroize => "Zeroize",
            Trait::ZeroizeOnDrop => "ZeroizeOnDrop",
        }
    }

    /// Looks a trait up by the name under which it is requested, in the given
    /// catalogue.
    pub fn from_name(name: &str, catalogue: Catalogue) -> (found: Option<Trait>)
        ensures
            found == Trait::named(name@, catalogue),
    {
        match Trait::lookup(name) {
            Some(trait_) => if catalogue.contains(trait_) {
                Some(trait_)
            } else {
                None
            },
            None => None,
        }
    }

    fn lookup(name: &str) -> (found: Option<Trait>)
        ensures
            found == Trait::of_name(name@),
    {
        let name = String::from_str(name);
        if name == String::from_str("Clone") {
            Some(Trait::Clone)
        } else if name == String::from_str("Copy") {
            Some(Trait::Copy)
        } else if name == String::from_str("Debug") {
            Some(Trait::Debug)
        } else if name == String::from_str("Default") {
            Some(Trait::Default)
        } else if name == String::from_str("Eq") {
            Some(Trait::Eq)
        } else if name == String::from_str("Hash") {
            Some(Trait::Hash)
        } else if name == String::from_str("Ord") {
            Some(Trait::Ord)
        } else if name == String::from_str("PartialEq") {
            Some(Trait::PartialEq)
        } else if name == String::from_str("PartialOrd") {
            Some(Trait::PartialOrd)
        } else if name == String::from_str("Zeroize") {
            Some(Trait::Zeroize)
        } else if name == String::from_str("ZeroizeOnDrop") {
            Some(Trait::ZeroizeOnDrop)
        } else {
            None
        }
    }

    /// Whether fields can be left out of the trait's implementation.
    pub fn supports_skip(&self) -> (supported: bool)
        ensures
            supported == self.skippable(),
    {
        match self {
            Trait::Debug
            | Trait::Hash
            | Trait::Ord
            | Trait::PartialEq
            | Trait::PartialOrd
            | Trait::Zeroize
            | Trait::ZeroizeOnDrop => true,
            Trait::Clone | Trait::Copy | Trait::Default | Trait::Eq => false,
        }
    }

    /// Whether the trait can be implemented for a union.
    pub fn supports_union(&self) -> (supported: bool)
        ensures
            supported == self.for_unions(),
    {
        match self {
            Trait::Clone | Trait::Copy => true,
            _ => false,
        }
    }

    /// Whether the trait takes options where it is requested.
    pub fn supports_options(&self) -> (supported: bool)
        ensures
            supported == self.has_options(),
    {
        match self {
            Trait::Zeroize | Trait::ZeroizeOnDrop => true,
            _ => false,
        }
    }
}

/// How the code is written where speed and caution part ways.
#[derive(Clone, Copy, Debug, PartialEq, Eq, Structural)]
pub enum Policy {
    /// Variants are ordered by their tags reinterpreted as integers, and arms
    /// that cannot be reached say so to the compiler, unguarded.
    Fast,
    /// As `Fast`, but the tags are read as integers by the intrinsic that only a
    /// nightly compiler offers.
    Nightly,
    /// Variants are ordered by a table of all pairs, and arms that cannot be
    /// reached panic.
    Safe,
}

impl Policy {
    /// The expression of an arm that cannot be reached.
    pub open spec fn unreachable(self) -> Seq<char> {
        match self {
            Policy::Fast | Policy::Nightly => "unsafe { ::core::hint::unreachable_unchecked() }"@,
            Policy::Safe =>
                "::core::unreachable!(\"comparing variants yielded unexpected results\")"@,
        }
    }

    /// The statements that take the tags of the two values of a comparison.
    pub open spec fn discriminants(self) -> Seq<char> {
        match self {
            Policy::Nightly =>
                "let __self_disc = ::core::intrinsics::discriminant_value(&self); let __other_disc = ::core::intrinsics::discriminant_value(&__other); "@,
            Policy::Fast | Policy::Safe =>
                "let __self_disc = ::core::mem::discriminant(self); let __other_disc = ::core::mem::discriminant(__other); "@,
        }
    }

    /// The expression of an arm that cannot be reached.
    pub fn unreachable_code(&self) -> (code: &'static str)
        ensures
            code@ == self.unreachable(),
    {
        match self {
            Policy::Fast | Policy::Nightly => "unsafe { ::core::hint::unreachable_unchecked() }",
            Policy::Safe =>
                "::core::unreachable!(\"comparing variants yielded unexpected results\")",
        }
    }

    /// The statements that take the tags of the two values of a comparison.
    pub fn discriminants_code(&self) -> (code: &'static str)
        ensures
            code@ == self.discriminants(),
    {
        match self {
            Policy::Nightly =>
                "let __self_disc = ::core::intrinsics::discriminant_value(&self); let __other_disc = ::core::intrinsics::discriminant_value(&__other); ",
            Policy::Fast | Policy::Safe =>
                "let __self_disc = ::core::mem::discriminant(self); let __other_disc = ::core::mem::discriminant(__other); ",
        }
    }
}

/// What the reader of paths said against a text: nothing where it took the
/// text for a path, else its message.
pub type Verdict = Option<Seq<char>>;

/// Whether the reader of paths can be asked about the text: it holds no `<`,
/// so that the reader meets no generic arguments.
pub open spec fn askable(text: Seq<char>) -> bool {
    forall|index: int| 0 <= index < text.len() ==> text[index] != '<'
}

/// What the library itself says against a text that the reader of paths
/// cannot be asked about.
pub open spec fn generic_arguments() -> Seq<char> {
    "generic arguments are not supported"@
}

/// Whether the reader of paths can be asked about the text.
pub fn can_ask(text: &str) -> (can: bool)
    ensures
        can == askable(text@),
{
    let len = text.unicode_len();
    let mut i: usize = 0;
    while i < len
        invariant
            i <= len,
            len == text@.len(),
            forall|index: int| 0 <= index < i ==> text@[index] != '<',
        decreases len - i,
    {
        if text.get_char(i) == '<' {
            return false;
        }
        i += 1;
    }
    true
}

/// Calls `syn::parse_str::<syn::Path>` on `text` and hands back the message of
/// the error, if there is one. The text must hold no `<`: `syn` then reads
/// names and `::` only, in a loop, and answers with a path or an error. On
/// generic arguments it would read literals, and it panics on a literal of a
/// form that it does not know. Nothing is claimed of the outcome: which lexer
/// reads the text depends on the process, so the same text may be judged
/// differently at another time.
#[verifier::external_body]
fn check_path(text: &str) -> (problem: Option<String>)
    requires
        askable(text@),
{
    match syn::parse_str::<syn::Path>(text) {
        Ok(_) => None,
        Err(error) => Some(error.to_string()),
    }
}

/// The view of what a reader said against a text.
pub open spec fn problem_view(problem: Option<String>) -> Verdict {
    match problem {
        Some(message) => Some(message@),
        None => None,
    }
}

/// A trait to implement, with the options given to it.
#[derive(Debug)]
pub struct DeriveTrait {
    pub trait_: Trait,
    /// The path of the crate that defines the trait, where the user names one.
    pub crate_: Option<String>,
}

/// A trait to implement as a mathematical value.
pub struct DeriveTraitView {
    pub trait_: Trait,
    pub crate_: Option<Seq<char>>,
}

impl View for DeriveTrait {
    type V = DeriveTraitView;

    open spec fn view(&self) -> DeriveTraitView {
        DeriveTraitView {
            trait_: self.trait_,
            crate_: match self.crate_ {
                Some(path) => Some(path@),
                None => None,
            },
        }
    }
}

impl DeriveTraitView {
    /// The trait without options.
    pub open spec fn plain(trait_: Trait) -> DeriveTraitView {
        DeriveTraitView { trait_, crate_: None }
    }

    /// The path of the crate that defines a trait of the `zeroize` family.
    pub open spec fn crate_path(self) -> Seq<char> {
        match self.crate_ {
            Some(path) => path,
            None => "::zeroize"@,
        }
    }

    /// The path of the trait.
    pub open spec fn path(self) -> Seq<char> {
        match self.trait_ {
            Trait::Clone => "::core::clone::Clone"@,
            Trait::Copy => "::core::marker::Copy"@,
            Trait::Debug => "::core::fmt::Debug"@,
            Trait::Default => "::core::default::Default"@,
            Trait::Eq => "::core::cmp::Eq"@,
            Trait::Hash => "::core::hash::Hash"@,
            Trait::Ord => "::core::cmp::Ord"@,
            Trait::PartialEq => "::core::cmp::PartialEq"@,
            Trait::PartialOrd => "::core::cmp::PartialOrd"@,
            Trait::Zeroize => self.crate_path() + "::Zeroize"@,
            Trait::ZeroizeOnDrop => self.crate_path() + "::ZeroizeOnDrop"@,
        }
    }

    /// The path of the trait that the main `impl` block implements.
    pub open spec fn impl_path(self) -> Seq<char> {
        match self.trait_ {
            Trait::ZeroizeOnDrop => "::core::ops::Drop"@,
            _ => self.path(),
        }
    }

    /// What becomes of a `crate` option: the path, or the complaint. `taken`
    /// says whether the option was given before, `problem` what the reader of
    /// paths says against the text. A text with generic arguments is refused
    /// without the reader being asked.
    pub open spec fn crate_decided(
        taken: bool,
        span: Span,
        text: Seq<char>,
        problem: Option<Seq<char>>,
    ) -> Result<Seq<char>, ErrorView> {
        if taken {
            Err(ErrorView::quoting(ErrorKind::OptionDuplicate, span, "crate"@))
        } else if !askable(text) {
            Err(ErrorView::quoting(ErrorKind::PathSyntax, span, generic_arguments()))
        } else {
            match problem {
                Some(message) => Err(ErrorView::quoting(ErrorKind::PathSyntax, span, message)),
                None => Ok(text),
            }
        }
    }

    /// Whether the reader of paths decides on the option: it is asked about the
    /// value of the first `crate` option where that holds no `<`, and about
    /// nothing else.
    pub open spec fn asks(self, argument: Argument) -> bool {
        argument.name@ == "crate"@ && self.crate_ is None && (argument.form
            matches ArgumentForm::Value(text) && askable(text@))
    }

    /// A `crate` option whose value holds a `<` is refused as no path, whatever
    /// the reader of paths might say, unless the option was given before.
    pub proof fn lemma_generic_path_refused(self, argument: Argument, problem: Verdict)
        requires
            argument.name@ == "crate"@,
            self.crate_ is None,
            argument.form matches ArgumentForm::Value(text) && !askable(text@),
        ensures
            self.with_option(argument, problem) == Err::<DeriveTraitView, ErrorView>(
                ErrorView::quoting(ErrorKind::PathSyntax, argument.span, generic_arguments()),
            ),
    {
    }

    /// The trait after one more of its options, or why the option is refused.
    /// `problem` is what the reader of paths said where it was asked.
    pub open spec fn with_option(self, argument: Argument, problem: Verdict) -> Result<
        DeriveTraitView,
        ErrorView,
    > {
        match argument.form {
            ArgumentForm::Value(text) => if argument.name@ == "crate"@ {
                match DeriveTraitView::crate_decided(
                    self.crate_ is Some,
                    argument.span,
                    text@,
                    problem,
                ) {
                    Ok(path) => Ok(DeriveTraitView { trait_: self.trait_, crate_: Some(path) }),
                    Err(error) => Err(error),
                }
            } else {
                Err(
                    ErrorView::quoting(
                        ErrorKind::UnsupportedTraitOption,
                        argument.span,
                        self.trait_.name(),
                    ),
                )
            },
            _ => Err(ErrorView::plain(ErrorKind::OptionSyntax, argument.span)),
        }
    }

    /// The trait after the first `count` of its options, or the first complaint
    /// about one of them. `problem` is what the reader of paths said about the
    /// one option that it is asked about.
    pub open spec fn with_options(self, arguments: Seq<Argument>, count: int, problem: Verdict)
        -> Result<DeriveTraitView, ErrorView>
        decreases count,
    {
        if count <= 0 {
            Ok(self)
        } else {
            match self.with_options(arguments, count - 1, problem) {
                Err(error) => Err(error),
                Ok(before) => before.with_option(arguments[count - 1], problem),
            }
        }
    }

    /// Where the reader of paths is not asked, the option is decided by the
    /// option alone.
    pub proof fn lemma_with_option_unasked(self, argument: Argument, one: Verdict, other: Verdict)
        requires
            !self.asks(argument),
        ensures
            self.with_option(argument, one) == self.with_option(argument, other),
    {
    }

    /// An option is accepted only where the reader of paths took the value of a
    /// `crate` option for a path; the path is then the value as it is written.
    pub proof fn lemma_with_option_accepted(self, argument: Argument, problem: Verdict)
        ensures
            self.with_option(argument, problem) matches Ok(derive) ==> self.asks(argument)
                && problem is None && derive.trait_ == self.trait_ && (argument.form
                matches ArgumentForm::Value(text) && derive.crate_ == Some(text@)),
    {
    }

    /// The reader of paths is asked at most once for a trait: only the first
    /// option can be accepted, and every later one is refused whatever the
    /// reader says.
    pub proof fn lemma_with_options_asked_once(
        self,
        arguments: Seq<Argument>,
        count: int,
        one: Verdict,
        other: Verdict,
    )
        requires
            self.crate_ is None,
            count >= 1,
            self.with_options(arguments, 1, one) == self.with_options(arguments, 1, other),
        ensures
            self.with_options(arguments, count, one) == self.with_options(
                arguments,
                count,
                other,
            ),
            count >= 2 ==> self.with_options(arguments, count, one) is Err,
        decreases count,
    {
        if count >= 2 {
            self.lemma_with_options_asked_once(arguments, count - 1, one, other);
            if count == 2 {
                assert(self.with_options(arguments, 0, one) == Ok::<DeriveTraitView, ErrorView>(
                    self,
                ));
            }
        }
    }

    /// A complaint about one of the first options stays the complaint about all.
    pub proof fn lemma_with_options_fails(
        self,
        arguments: Seq<Argument>,
        count: int,
        more: int,
        problem: Verdict,
    )
        requires
            count <= more,
            self.with_options(arguments, count, problem) is Err,
        ensures
            self.with_options(arguments, more, problem) == self.with_options(
                arguments,
                count,
                problem,
            ),
        decreases more - count,
    {
        if count < more {
            self.lemma_with_options_fails(arguments, count, more - 1, problem);
        }
    }

    /// Options do not change which trait is asked for.
    pub proof fn lemma_with_options_keeps_trait(
        self,
        arguments: Seq<Argument>,
        count: int,
        problem: Verdict,
    )
        ensures
            self.with_options(arguments, count, problem) matches Ok(derive) ==> derive.trait_
                == self.trait_,
        decreases count,
    {
        if count > 0 {
            self.lemma_with_options_keeps_trait(arguments, count - 1, problem);
        }
    }

    /// For a union, only traits that a union can have are read.
    pub proof fn lemma_read_for_union(directive: Meta, problem: Verdict, catalogue: Catalogue)
        ensures
            DeriveTraitView::read(directive, true, problem, catalogue) matches Ok(derive)
                ==> derive.trait_.for_unions(),
    {
        match Trait::named(directive.name@, catalogue) {
            Some(trait_) => {
                match directive.form {
                    MetaForm::List(arguments) => {
                        DeriveTraitView::plain(trait_).lemma_with_options_keeps_trait(
                            arguments@,
                            arguments@.len() as int,
                            problem,
                        );
                    },
                    _ => {},
                }
            },
            None => {},
        }
    }

    /// For a union, a trait that a union cannot have is refused as such.
    pub proof fn lemma_read_refused_for_union(
        directive: Meta,
        problem: Verdict,
        catalogue: Catalogue,
    )
        requires
            directive.form is Word || directive.form is List,
            Trait::named(directive.name@, catalogue) matches Some(trait_) && !trait_.for_unions(),
        ensures
            DeriveTraitView::read(
                directive,
                true,
                problem,
                catalogue,
            ) == Err::<DeriveTraitView, ErrorView>(
                ErrorView::plain(ErrorKind::UnionTrait, directive.span),
            ),
    {
    }

    /// Whether the reader of paths is asked about the directive: about the value
    /// of a `crate` option that stands first among the options of a trait that
    /// takes options, for an item that can have the trait.
    pub open spec fn asks_about(directive: Meta, union: bool, catalogue: Catalogue) -> bool {
        directive.form matches MetaForm::List(arguments) && arguments@.len() > 0 && (Trait::named(
            directive.name@,
            catalogue,
        ) matches Some(trait_) && trait_.has_options() && !(union && !trait_.for_unions())
            && DeriveTraitView::plain(trait_).asks(arguments@[0]))
    }

    /// Where the reader of paths is not asked about a directive, the directive
    /// alone decides what is read.
    pub proof fn lemma_read_unasked(
        directive: Meta,
        union: bool,
        one: Verdict,
        other: Verdict,
        catalogue: Catalogue,
    )
        requires
            !DeriveTraitView::asks_about(directive, union, catalogue),
        ensures
            DeriveTraitView::read(directive, union, one, catalogue) == DeriveTraitView::read(
                directive,
                union,
                other,
                catalogue,
            ),
    {
        match Trait::named(directive.name@, catalogue) {
            Some(trait_) => {
                match directive.form {
                    MetaForm::List(arguments) => {
                        if arguments@.len() > 0 && trait_.has_options() && !(union
                            && !trait_.for_unions()) {
                            let start = DeriveTraitView::plain(trait_);
                            assert(start.with_options(arguments@, 0, one) == Ok::<
                                DeriveTraitView,
                                ErrorView,
                            >(start));
                            assert(start.with_options(arguments@, 0, other) == Ok::<
                                DeriveTraitView,
                                ErrorView,
                            >(start));
                            start.lemma_with_option_unasked(arguments@[0], one, other);
                            start.lemma_with_options_asked_once(
                                arguments@,
                                arguments@.len() as int,
                                one,
                                other,
                            );
                        }
                    },
                    _ => {},
                }
            },
            None => {},
        }
    }

    /// The trait that a directive of a list of traits asks for, or why the
    /// directive is refused. `union` says whether the item is a union, and
    /// `problem` what the reader of paths said about the directive's `crate`
    /// option.
    pub open spec fn read(
        directive: Meta,
        union: bool,
        problem: Verdict,
        catalogue: Catalogue,
    ) -> Result<
        DeriveTraitView,
        ErrorView,
    > {
        match directive.form {
            MetaForm::Word | MetaForm::List(_) => match Trait::named(directive.name@, catalogue) {
                None => Err(ErrorView::listing(
                    ErrorKind::UnsupportedTrait,
                    directive.span,
                    catalogue,
                )),
                Some(trait_) => if union && !trait_.for_unions() {
                    Err(ErrorView::plain(ErrorKind::UnionTrait, directive.span))
                } else {
                    match directive.form {
                        MetaForm::List(arguments) => if !trait_.has_options() {
                            Err(
                                ErrorView::quoting(
                                    ErrorKind::NoOptions,
                                    directive.span,
                                    trait_.name(),
                                ),
                            )
                        } else if arguments@.len() == 0 {
                            Err(
                                ErrorView::quoting(
                                    ErrorKind::OptionRequired,
                                    directive.span,
                                    trait_.name(),
                                ),
                            )
                        } else {
                            DeriveTraitView::plain(trait_).with_options(
                                arguments@,
                                arguments@.len() as int,
                                problem,
                            )
                        },
                        _ => Ok(DeriveTraitView::plain(trait_)),
                    }
                },
            },
            _ => Err(ErrorView::listing(ErrorKind::TraitSyntax, directive.span, catalogue)),
        }
    }
}

impl DeriveTrait {
    /// The trait without options.
    pub fn new(trait_: Trait) -> (derive: DeriveTrait)
        ensures
            derive@ == DeriveTraitView::plain(trait_),
    {
        DeriveTrait { trait_, crate_: None }
    }

    /// Decides on a `crate` option with the given text: `taken` says whether the
    /// option was given before, `problem` what the reader of paths said against
    /// the text. A text with a `<` is refused here as no path, whatever
    /// `problem` holds.
    pub fn decide_crate(taken: bool, span: Span, text: &str, problem: Option<String>) -> (outcome:
        Result<String, Error>)
        ensures
            match outcome {
                Ok(path) => DeriveTraitView::crate_decided(
                    taken,
                    span,
                    text@,
                    problem_view(problem),
                ) == Ok::<Seq<char>, ErrorView>(path@),
                Err(error) => DeriveTraitView::crate_decided(
                    taken,
                    span,
                    text@,
                    problem_view(problem),
                ) == Err::<Seq<char>, ErrorView>(error@),
            },
    {
        if taken {
            Err(Error::option_duplicate(span, "crate"))
        } else if !can_ask(text) {
            Err(Error::path(span, "generic arguments are not supported"))
        } else {
            match problem {
                Some(message) => Err(Error::path(span, message.as_str())),
                None => Ok(String::from_str(text)),
            }
        }
    }

    /// The text that the reader of paths is asked about for the option: the
    /// value of a `crate` option as it is written, where none was given before
    /// and the value holds no `<`.
    pub fn asked_text<'a>(&self, argument: &'a Argument) -> (text: Option<&'a String>)
        ensures
            text is Some == self@.asks(*argument),
            text matches Some(asked) ==> argument.form == ArgumentForm::Value(*asked),
    {
        match &argument.form {
            ArgumentForm::Value(text) => {
                if argument.name == String::from_str("crate") && self.crate_.is_none() && can_ask(
                    text.as_str(),
                ) {
                    Some(text)
                } else {
                    None
                }
            },
            _ => None,
        }
    }

    /// Takes one more option of the trait into account. The reader of paths is
    /// asked about the value of a `crate` option that was not given before and
    /// holds no `<`, and what it says decides on that option; every other option
    /// is decided here.
    pub fn add_option(&mut self, argument: &Argument) -> (outcome: Result<(), Error>)
        ensures
            ({
                let seen = step_view(outcome, final(self)@);
                &&& exists|problem: Verdict| #[trigger]
                    old(self)@.with_option(*argument, problem) == seen
                &&& !old(self)@.asks(*argument) ==> old(self)@.with_option(*argument, None) == seen
            }),
    {
        let ghost before = self@;
        let problem = match self.asked_text(argument) {
            Some(text) => check_path(text.as_str()),
            None => None,
        };
        let ghost said = problem_view(problem);
        let outcome = match &argument.form {
            ArgumentForm::Value(text) => {
                if argument.name == String::from_str("crate") {
                    let taken = self.crate_.is_some();
                    match DeriveTrait::decide_crate(taken, argument.span, text.as_str(), problem) {
                        Ok(path) => {
                            self.crate_ = Some(path);
                            Ok(())
                        },
                        Err(error) => Err(error),
                    }
                } else {
                    Err(Error::option_trait(argument.span, self.trait_.as_str()))
                }
            },
            _ => Err(Error::option_syntax(argument.span)),
        };
        proof {
            let seen = step_view(outcome, self@);
            assert(before.with_option(*argument, said) == seen);
            if !before.asks(*argument) {
                before.lemma_with_option_unasked(*argument, said, None);
            }
        }
        outcome
    }

    /// Reads a directive of a list of traits. `union` says whether the item is a
    /// union. The reader of paths is asked at most once, about the directive's
    /// `crate` option.
    #[verifier::loop_isolation(false)]
    pub fn from_meta(
        directive: &Meta,
        union: bool,
        catalogue: Catalogue,
    ) -> (outcome: Result<DeriveTrait, Error>)
        ensures
            ({
                let seen = outcome_view(outcome);
                &&& exists|problem: Verdict| #[trigger]
                    DeriveTraitView::read(*directive, union, problem, catalogue) == seen
                &&& !DeriveTraitView::asks_about(
                    *directive,
                    union,
                    catalogue,
                ) ==> DeriveTraitView::read(
                    *directive,
                    union,
                    None,
                    catalogue,
                ) == seen
            }),
    {
        let outcome = DeriveTrait::read_asking(directive, union, catalogue);
        proof {
            let seen = outcome_view(outcome.0);
            assert(DeriveTraitView::read(*directive, union, outcome.1@, catalogue) == seen);
            if !DeriveTraitView::asks_about(*directive, union, catalogue) {
                DeriveTraitView::lemma_read_unasked(*directive, union, outcome.1@, None, catalogue);
            }
        }
        outcome.0
    }

    /// Reads a directive and keeps what the reader of paths said.
    #[verifier::loop_isolation(false)]
    pub(crate) fn read_asking(directive: &Meta, union: bool, catalogue: Catalogue) -> (outcome: (
        Result<DeriveTrait, Error>,
        Ghost<Verdict>,
    ))
        ensures
            DeriveTraitView::read(
                *directive,
                union,
                outcome.1@,
                catalogue,
            ) == outcome_view(outcome.0),
    {
        let ghost mut said: Verdict = None;
        match &directive.form {
            MetaForm::Word | MetaForm::List(_) => {},
            _ => {
                return (Err(Error::trait_syntax(directive.span, catalogue)), Ghost(said));
            },
        }
        let trait_ = match Trait::from_name(directive.name.as_str(), catalogue) {
            None => {
                return (Err(Error::trait_(directive.span, catalogue)), Ghost(said));
            },
            Some(trait_) => trait_,
        };
        if union && !trait_.supports_union() {
            return (Err(Error::union(directive.span)), Ghost(said));
        }
        let mut derive = DeriveTrait::new(trait_);
        if let MetaForm::List(arguments) = &directive.form {
            if !trait_.supports_options() {
                return (Err(Error::options(directive.span, trait_.as_str())), Ghost(said));
            }
            if arguments.len() == 0 {
                return (Err(Error::option_required(directive.span, trait_.as_str())), Ghost(said));
            }
            let ghost start = DeriveTraitView::plain(trait_);
            let mut i: usize = 0;
            while i < arguments.len()
                invariant
                    i <= arguments@.len(),
                    start.with_options(arguments@, i as int, said) == Ok::<
                        DeriveTraitView,
                        ErrorView,
                    >(derive@),
                    i > 0 ==> derive@.crate_ is Some,
                decreases arguments@.len() - i,
            {
                let ghost before = derive@;
                let added = derive.add_option(&arguments[i]);
                proof {
                    let seen = step_view(added, derive@);
                    if i == 0 {
                        said = choose|problem: Verdict| #[trigger]
                            before.with_option(arguments@[0], problem) == seen;
                        assert(start.with_options(arguments@, 0, said) == Ok::<
                            DeriveTraitView,
                            ErrorView,
                        >(start));
                    } else {
                        assert(!before.asks(arguments@[i as int]));
                        before.lemma_with_option_unasked(arguments@[i as int], None, said);
                    }
                    assert(start.with_options(arguments@, i as int + 1, said) == seen);
                    before.lemma_with_option_accepted(arguments@[i as int], said);
                }
                match added {
                    Ok(()) => {},
                    Err(error) => {
                        proof {
                            start.lemma_with_options_fails(
                                arguments@,
                                i as int + 1,
                                arguments@.len() as int,
                                said,
                            );
                        }
                        return (Err(error), Ghost(said));
                    },
                }
                i += 1;
            }
        }
        (Ok(derive), Ghost(said))
    }

    /// The path of the crate that defines a trait of the `zeroize` family.
    pub fn crate_(&self) -> (path: String)
        ensures
            path@ == self@.crate_path(),
    {
        match &self.crate_ {
            Some(path) => path.clone(),
            None => String::from_str("::zeroize"),
        }
    }

    /// The path of the trait.
    pub fn path(&self) -> (path: String)
        ensures
            path@ == self@.path(),
    {
        match self.trait_ {
            Trait::Clone => String::from_str("::core::clone::Clone"),
            Trait::Copy => String::from_str("::core::marker::Copy"),
            Trait::Debug => String::from_str("::core::fmt::Debug"),
            Trait::Default => String::from_str("::core::default::Default"),
            Trait::Eq => String::from_str("::core::cmp::Eq"),
            Trait::Hash => String::from_str("::core::hash::Hash"),
            Trait::Ord => String::from_str("::core::cmp::Ord"),
            Trait::PartialEq => String::from_str("::core::cmp::PartialEq"),
            Trait::PartialOrd => String::from_str("::core::cmp::PartialOrd"),
            Trait::Zeroize => self.crate_().concat("::Zeroize"),
            Trait::ZeroizeOnDrop => self.crate_().concat("::ZeroizeOnDrop"),
        }
    }

    /// The path of the trait that the main `impl` block implements.
    pub fn impl_path(&self) -> (path: String)
        ensures
            path@ == self@.impl_path(),
    {
        match self.trait_ {
            Trait::ZeroizeOnDrop => String::from_str("::core::ops::Drop"),
            _ => self.path(),
        }
    }
}

impl DeriveTraitView {
    /// What one body adds to the trait's method: as a rule an arm of its
    /// `match`.
    pub open spec fn body(self, data: DataView) -> Seq<char> {
        match self.trait_ {
            Trait::Clone => clone::Clone::body(self, data),
            Trait::Copy => Seq::empty(),
            Trait::Debug => debug::Debug::body(self, data),
            Trait::Default => default::Default::body(self, data),
            Trait::Eq => Seq::empty(),
            Trait::Hash => hash::Hash::body(self, data),
            Trait::Ord => common_ord::body(self, data),
            Trait::PartialEq => partial_eq::PartialEq::body(self, data),
            Trait::PartialOrd => common_ord::body(self, data),
            Trait::Zeroize => zeroize::Zeroize::body(self, data),
            Trait::ZeroizeOnDrop => zeroize::Zeroize::body(self, data),
        }
    }

    /// The content of the trait's `impl` block for the item, around what the
    /// bodies add.
    pub open spec fn signature(self, item: ItemView, body: Seq<char>, policy: Policy) -> Seq<char> {
        match self.trait_ {
            Trait::Clone => clone::Clone::signature(item, body),
            Trait::Copy => Seq::empty(),
            Trait::Debug => debug::Debug::signature(body),
            Trait::Default => default::Default::signature(body),
            Trait::Eq => Seq::empty(),
            Trait::Hash => hash::Hash::signature(body),
            Trait::Ord => common_ord::signature(item, self, body, policy),
            Trait::PartialEq => partial_eq::PartialEq::signature(item, self, body, policy),
            Trait::PartialOrd => common_ord::signature(item, self, body, policy),
            Trait::Zeroize => zeroize::Zeroize::signature(item, self, body),
            Trait::ZeroizeOnDrop => zeroize_on_drop::ZeroizeOnDrop::signature(item, self, body),
        }
    }

    /// The second `impl` block that the trait brings with it, if any: the path
    /// of the trait it implements, and its content.
    pub open spec fn additional(self) -> Option<(Seq<char>, Seq<char>)> {
        match self.trait_ {
            Trait::ZeroizeOnDrop => Some(zeroize_on_drop::ZeroizeOnDrop::additional(self)),
            _ => None,
        }
    }
}

impl DeriveTrait {
    /// Writes what one body adds to the trait's method. Only `Clone` and `Copy`
    /// can be written for a union.
    pub fn build_body(&self, data: &Data) -> (code: String)
        requires
            data@.simple_type() is Union ==> self@.trait_.for_unions(),
        ensures
            code@ == self@.body(data@),
    {
        match self.trait_ {
            Trait::Clone => clone::Clone.build_body(self, data),
            Trait::Copy => copy::Copy.build_body(self, data),
            Trait::Debug => debug::Debug.build_body(self, data),
            Trait::Default => default::Default.build_body(self, data),
            Trait::Eq => eq::Eq.build_body(self, data),
            Trait::Hash => hash::Hash.build_body(self, data),
            Trait::Ord => ord::Ord.build_body(self, data),
            Trait::PartialEq => partial_eq::PartialEq.build_body(self, data),
            Trait::PartialOrd => partial_ord::PartialOrd.build_body(self, data),
            Trait::Zeroize => zeroize::Zeroize.build_body(self, data),
            Trait::ZeroizeOnDrop => zeroize_on_drop::ZeroizeOnDrop.build_body(self, data),
        }
    }

    /// Writes the content of the trait's `impl` block for the item, around what
    /// the bodies add.
    pub fn build_signature(&self, item: &Item, body: &str, policy: Policy) -> (code: String)
        ensures
            code@ == self@.signature(item@, body@, policy),
    {
        match self.trait_ {
            Trait::Clone => clone::Clone.build_signature(item, self, body),
            Trait::Copy => copy::Copy.build_signature(item, self, body),
            Trait::Debug => debug::Debug.build_signature(item, self, body),
            Trait::Default => default::Default.build_signature(item, self, body),
            Trait::Eq => eq::Eq.build_signature(item, self, body),
            Trait::Hash => hash::Hash.build_signature(item, self, body),
            Trait::Ord => ord::Ord.build_signature(item, self, body, policy),
            Trait::PartialEq => partial_eq::PartialEq.build_signature(item, self, body, policy),
            Trait::PartialOrd => partial_ord::PartialOrd.build_signature(item, self, body, policy),
            Trait::Zeroize => zeroize::Zeroize.build_signature(item, self, body),
            Trait::ZeroizeOnDrop => zeroize_on_drop::ZeroizeOnDrop.build_signature(
                item,
                self,
                body,
            ),
        }
    }

    /// Writes the second `impl` block that the trait brings with it, if any:
    /// the path of the trait it implements, and its content.
    pub fn additional_impl(&self) -> (block: Option<(String, String)>)
        ensures
            match block {
                Some((path, content)) => self@.additional() == Some((path@, content@)),
                None => self@.additional() is None,
            },
    {
        match self.trait_ {
            Trait::ZeroizeOnDrop => Some(zeroize_on_drop::ZeroizeOnDrop.additional_impl(self)),
            _ => None,
        }
    }
}

} // verus!
