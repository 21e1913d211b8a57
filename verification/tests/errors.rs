use derive_where::error::{Error, ErrorKind};
use derive_where::input::Input;
use derive_where::span::Span;
use derive_where::trait_::{can_ask, Catalogue, DeriveTrait, Trait};
use derive_where::syntax::{
    Argument, ArgumentForm, Attribute, Bound, BoundKind, Content, Data, Delimiter, DeriveInput,
    Field, Fields, Generics, Meta, MetaForm, MetaList, Variant,
};

const ITEM: u64 = 1;

fn word(name: &str, span: u64) -> Meta {
    Meta {
        span: Span::new(span),
        name: name.to_string(),
        form: MetaForm::Word,
    }
}

fn argument(name: &str, span: u64) -> Argument {
    Argument {
        span: Span::new(span),
        name: name.to_string(),
        form: ArgumentForm::Word,
    }
}

fn value(name: &str, text: &str, span: u64) -> Argument {
    Argument {
        span: Span::new(span),
        name: name.to_string(),
        form: ArgumentForm::Value(text.to_string()),
    }
}

fn list(name: &str, arguments: Vec<Argument>, span: u64) -> Meta {
    Meta {
        span: Span::new(span),
        name: name.to_string(),
        form: MetaForm::List(arguments),
    }
}

fn attribute(items: Vec<Meta>, span: u64) -> Attribute {
    Attribute {
        span: Span::new(span),
        path: "derive_where".to_string(),
        content: Content::List(MetaList {
            items,
            delimiter: Delimiter::End,
            bounds: Vec::new(),
        }),
    }
}

fn with_content(content: Content, span: u64) -> Attribute {
    Attribute {
        span: Span::new(span),
        path: "derive_where".to_string(),
        content,
    }
}

fn generics(has_params: bool) -> Generics {
    Generics {
        has_params,
        impl_generics: if has_params { "<T>" } else { "" }.to_string(),
        type_generics: if has_params { "<T>" } else { "" }.to_string(),
        where_predicates: Vec::new(),
    }
}

fn field(name: &str, attrs: Vec<Attribute>) -> Field {
    Field {
        attrs,
        ident: name.to_string(),
        ty: "T".to_string(),
    }
}

fn variant(name: &str, attrs: Vec<Attribute>, fields: Fields) -> Variant {
    Variant {
        attrs,
        ident: name.to_string(),
        fields,
    }
}

fn item(attrs: Vec<Attribute>, data: Data) -> DeriveInput {
    DeriveInput {
        attrs,
        ident: "Test".to_string(),
        generics: generics(true),
        data,
    }
}

fn tuple(attrs: Vec<Attribute>, on_field: Vec<Attribute>) -> DeriveInput {
    item(
        attrs,
        Data::Struct(Fields::Unnamed(vec![field("", on_field)])),
    )
}

fn refused(input: &DeriveInput) -> Error {
    match Input::parse(Span::new(ITEM), input, Catalogue::WithZeroize) {
        Ok(_) => panic!("the item was accepted"),
        Err(error) => error,
    }
}

fn check(input: &DeriveInput, kind: ErrorKind, span: u64, message: &str) {
    let error = refused(input);
    assert_eq!(error.kind, kind);
    assert_eq!(error.span, Span::new(span));
    assert_eq!(error.message(), message);
}

#[test]
fn item_without_generics_or_skip_is_left_to_the_standard_derive() {
    let mut input = item(
        vec![attribute(vec![word("Clone", 2)], 3)],
        Data::Struct(Fields::Named(vec![field("a", Vec::new())])),
    );
    input.generics = generics(false);
    check(
        &input,
        ErrorKind::UnsupportedItem,
        ITEM,
        "derive-where doesn't support items without generics, `skip` attributes or `enum`s implementing `Default`, as this can already be handled by standard `#[derive(..)]`",
    );
}

#[test]
fn item_without_generics_is_accepted_for_a_skip() {
    let mut input = tuple(
        vec![attribute(vec![word("Debug", 2)], 3)],
        vec![attribute(vec![word("skip", 4)], 5)],
    );
    input.generics = generics(false);
    assert!(Input::parse(Span::new(ITEM), &input, Catalogue::WithZeroize).is_ok());
}

#[test]
fn item_without_generics_is_accepted_for_the_default_of_an_enum() {
    let mut input = item(
        vec![attribute(vec![word("Default", 2)], 3)],
        Data::Enum(vec![variant(
            "A",
            vec![attribute(vec![word("default", 4)], 5)],
            Fields::Unit,
        )]),
    );
    input.generics = generics(false);
    assert!(Input::parse(Span::new(ITEM), &input, Catalogue::WithZeroize).is_ok());
}

#[test]
fn item_without_generics_is_accepted_for_a_call_by_full_path() {
    let mut input = tuple(
        vec![attribute(vec![word("Zeroize", 2)], 3)],
        vec![attribute(
            vec![list("Zeroize", vec![argument("fqs", 4)], 5)],
            6,
        )],
    );
    input.generics = generics(false);
    assert!(Input::parse(Span::new(ITEM), &input, Catalogue::WithZeroize).is_ok());
}

#[test]
fn unit_struct_is_refused() {
    check(
        &item(
            vec![attribute(vec![word("Clone", 2)], 3)],
            Data::Struct(Fields::Unit),
        ),
        ErrorKind::UnitStruct,
        ITEM,
        "derive-where doesn't support unit structs, as this can already be handled by standard `#[derive(..)]`",
    );
}

#[test]
fn union_takes_only_clone_and_copy() {
    let union = |name: &str| {
        item(
            vec![attribute(vec![word("Clone", 2), word(name, 3)], 4)],
            Data::Union(vec![field("a", Vec::new()), field("b", Vec::new())]),
        )
    };
    check(
        &union("Debug"),
        ErrorKind::UnionTrait,
        3,
        "traits other then `Clone` and `Copy` aren't supported by unions",
    );
    assert!(Input::parse(Span::new(ITEM), &union("Copy"), Catalogue::WithZeroize).is_ok());
}

#[test]
fn unreadable_attribute_quotes_its_reader() {
    check(
        &tuple(
            vec![with_content(
                Content::Unreadable("expected identifier".to_string()),
                3,
            )],
            Vec::new(),
        ),
        ErrorKind::AttributeSyntax,
        3,
        "unexpected attribute syntax, expected identifier",
    );
    check(
        &tuple(
            vec![attribute(vec![word("Clone", 2)], 3)],
            vec![with_content(
                Content::Unreadable("unexpected token".to_string()),
                4,
            )],
        ),
        ErrorKind::AttributeSyntax,
        4,
        "unexpected attribute syntax, unexpected token",
    );
}

#[test]
fn attribute_of_another_name_is_not_read() {
    let mut other = with_content(Content::Unreadable("whatever".to_string()), 3);
    other.path = "serde".to_string();
    let input = tuple(vec![other, attribute(vec![word("Clone", 2)], 4)], Vec::new());
    let parsed = Input::parse(Span::new(ITEM), &input, Catalogue::WithZeroize).expect("a supported item");
    assert_eq!(parsed.derive_wheres.len(), 1);
}

#[test]
fn option_unknown_to_the_trait() {
    check(
        &tuple(
            vec![attribute(
                vec![list("Zeroize", vec![value("other", "x", 2)], 3)],
                4,
            )],
            Vec::new(),
        ),
        ErrorKind::UnsupportedTraitOption,
        2,
        "`Zeroize` doesn't support this option",
    );
    check(
        &tuple(
            vec![attribute(vec![word("Zeroize", 2)], 3)],
            vec![attribute(
                vec![list("Zeroize", vec![argument("other", 4)], 5)],
                6,
            )],
        ),
        ErrorKind::UnsupportedTraitOption,
        4,
        "`Zeroize` doesn't support this option",
    );
}

#[test]
fn unknown_option() {
    check(
        &tuple(
            vec![attribute(vec![word("Clone", 2)], 3)],
            vec![attribute(vec![word("unknown", 4)], 5)],
        ),
        ErrorKind::UnknownOption,
        4,
        "unknown option",
    );
    check(
        &item(
            vec![attribute(vec![word("Clone", 2)], 3)],
            Data::Enum(vec![variant(
                "A",
                vec![attribute(vec![word("skip", 4)], 5)],
                Fields::Unit,
            )]),
        ),
        ErrorKind::UnknownOption,
        4,
        "unknown option",
    );
}

#[test]
fn skip_inner_on_an_enum_belongs_on_its_variants() {
    check(
        &item(
            vec![
                attribute(vec![word("Debug", 2)], 3),
                attribute(vec![word("skip_inner", 4)], 5),
            ],
            Data::Enum(vec![variant("A", Vec::new(), Fields::Unit)]),
        ),
        ErrorKind::UnknownOption,
        4,
        "unknown option",
    );
}

#[test]
fn trait_without_options() {
    check(
        &tuple(
            vec![attribute(
                vec![list("Clone", vec![value("crate", "x", 2)], 3)],
                4,
            )],
            Vec::new(),
        ),
        ErrorKind::NoOptions,
        3,
        "`Clone` doesn't support any options",
    );
}

#[test]
fn option_of_the_wrong_form() {
    check(
        &tuple(vec![with_content(Content::Bare, 3)], Vec::new()),
        ErrorKind::OptionSyntax,
        3,
        "unexpected option syntax",
    );
    let by_value = Meta {
        span: Span::new(4),
        name: "skip".to_string(),
        form: MetaForm::Value("Debug".to_string()),
    };
    check(
        &tuple(
            vec![attribute(vec![word("Debug", 2)], 3)],
            vec![attribute(vec![by_value], 5)],
        ),
        ErrorKind::OptionSyntax,
        4,
        "unexpected option syntax",
    );
    check(
        &tuple(
            vec![attribute(
                vec![list("Zeroize", vec![argument("crate", 2)], 3)],
                4,
            )],
            Vec::new(),
        ),
        ErrorKind::OptionSyntax,
        2,
        "unexpected option syntax",
    );
    check(
        &tuple(
            vec![attribute(vec![word("Debug", 2)], 3)],
            vec![attribute(Vec::new(), 5)],
        ),
        ErrorKind::OptionSyntax,
        5,
        "unexpected option syntax",
    );
}

#[test]
fn trait_that_requires_an_option() {
    check(
        &tuple(
            vec![attribute(vec![list("Zeroize", Vec::new(), 2)], 3)],
            Vec::new(),
        ),
        ErrorKind::OptionRequired,
        2,
        "`Zeroize` requires an option",
    );
    check(
        &tuple(
            vec![attribute(vec![word("Zeroize", 2)], 3)],
            vec![attribute(vec![word("Zeroize", 4)], 5)],
        ),
        ErrorKind::OptionRequired,
        4,
        "`Zeroize` requires an option",
    );
}

#[test]
fn option_given_twice() {
    check(
        &tuple(
            vec![attribute(vec![word("Debug", 2)], 3)],
            vec![
                attribute(vec![word("skip", 4)], 5),
                attribute(vec![word("skip", 6)], 7),
            ],
        ),
        ErrorKind::OptionDuplicate,
        6,
        "duplicate `skip` option",
    );
    check(
        &tuple(
            vec![attribute(
                vec![list(
                    "Zeroize",
                    vec![value("crate", "a", 2), value("crate", "b", 3)],
                    4,
                )],
                5,
            )],
            Vec::new(),
        ),
        ErrorKind::OptionDuplicate,
        3,
        "duplicate `crate` option",
    );
    check(
        &tuple(
            vec![attribute(vec![word("Zeroize", 2)], 3)],
            vec![attribute(
                vec![list(
                    "Zeroize",
                    vec![argument("fqs", 4), argument("fqs", 5)],
                    6,
                )],
                7,
            )],
        ),
        ErrorKind::OptionDuplicate,
        5,
        "duplicate `fqs` option",
    );
    check(
        &item(
            vec![attribute(vec![word("Default", 2)], 3)],
            Data::Enum(vec![variant(
                "A",
                vec![attribute(vec![word("default", 4), word("default", 5)], 6)],
                Fields::Unit,
            )]),
        ),
        ErrorKind::OptionDuplicate,
        5,
        "duplicate `default` option",
    );
}

#[test]
fn constrained_skip_after_unconstrained_skip() {
    check(
        &tuple(
            vec![
                attribute(vec![word("Debug", 2)], 3),
                attribute(vec![word("skip_inner", 4)], 5),
                attribute(vec![list("skip_inner", vec![argument("Debug", 6)], 7)], 8),
            ],
            Vec::new(),
        ),
        ErrorKind::OptionSkipAll,
        7,
        "unexpected constraint on `skip` when unconstrained `skip` already used",
    );
}

#[test]
fn constrained_skip_on_a_field_under_unconstrained_skip_on_the_item() {
    check(
        &tuple(
            vec![
                attribute(vec![word("Debug", 2)], 3),
                attribute(vec![word("skip_inner", 4)], 5),
            ],
            vec![attribute(vec![list("skip", vec![argument("Debug", 6)], 7)], 8)],
        ),
        ErrorKind::OptionSkipAll,
        7,
        "unexpected constraint on `skip` when unconstrained `skip` already used",
    );
}

#[test]
fn constrained_skip_on_a_field_under_unconstrained_skip_on_the_variant() {
    check(
        &item(
            vec![attribute(vec![word("Debug", 2)], 3)],
            Data::Enum(vec![variant(
                "A",
                vec![attribute(vec![word("skip_inner", 4)], 5)],
                Fields::Unnamed(vec![field(
                    "",
                    vec![attribute(vec![list("skip", vec![argument("Debug", 6)], 7)], 8)],
                )]),
            )]),
        ),
        ErrorKind::OptionSkipAll,
        7,
        "unexpected constraint on `skip` when unconstrained `skip` already used",
    );
}

#[test]
fn skip_names_a_trait_twice() {
    check(
        &tuple(
            vec![attribute(vec![word("Debug", 2)], 3)],
            vec![attribute(
                vec![list(
                    "skip",
                    vec![argument("Debug", 4), argument("Debug", 5)],
                    6,
                )],
                7,
            )],
        ),
        ErrorKind::OptionSkipDuplicate,
        5,
        "duplicate `Debug` constraint on `skip`",
    );
}

#[test]
fn skip_names_a_trait_that_cannot_skip() {
    for name in ["Clone", "Copy", "Default", "Eq"] {
        let error = refused(&tuple(
            vec![attribute(vec![word("Clone", 2)], 3)],
            vec![attribute(vec![list("skip", vec![argument(name, 4)], 5)], 6)],
        ));
        assert_eq!(error.kind, ErrorKind::OptionSkipSupport);
        assert_eq!(error.span, Span::new(4));
        assert_eq!(
            error.message(),
            format!("unsupported `{}` constraint on `skip`", name)
        );
    }
    for name in [
        "Debug",
        "Hash",
        "Ord",
        "PartialEq",
        "PartialOrd",
        "Zeroize",
        "ZeroizeOnDrop",
    ] {
        assert!(Input::parse(
            Span::new(ITEM),
            &tuple(
                vec![attribute(vec![word("Clone", 2)], 3)],
                vec![attribute(vec![list("skip", vec![argument(name, 4)], 5)], 6)],
            )
        , Catalogue::WithZeroize)
        .is_ok());
    }
}

#[test]
fn crate_that_is_no_path() {
    let error = refused(&tuple(
        vec![attribute(
            vec![list(
                "Zeroize",
                vec![value("crate", "not a path!", 2)],
                3,
            )],
            4,
        )],
        Vec::new(),
    ));
    assert_eq!(error.kind, ErrorKind::PathSyntax);
    assert_eq!(error.span, Span::new(2));
    assert!(error.message().starts_with("expected path, "));
    assert!(error.message().len() > "expected path, ".len());
    assert_ne!(error.message(), "expected path, not a path!");
}

#[test]
fn crate_that_is_a_path() {
    let input = tuple(
        vec![attribute(
            vec![list(
                "Zeroize",
                vec![value("crate", "::renamed::zeroize", 2)],
                3,
            )],
            4,
        )],
        Vec::new(),
    );
    let parsed = Input::parse(Span::new(ITEM), &input, Catalogue::WithZeroize).expect("a supported item");
    assert_eq!(
        parsed.derive_wheres[0].traits[0].crate_,
        Some("::renamed::zeroize".to_string())
    );
    assert_eq!(
        parsed.derive_wheres[0].traits[0].path(),
        "::renamed::zeroize::Zeroize"
    );
}

#[test]
fn trait_outside_the_catalogue() {
    check(
        &tuple(
            vec![attribute(vec![word("Clone", 2), word("Serialize", 3)], 4)],
            Vec::new(),
        ),
        ErrorKind::UnsupportedTrait,
        3,
        "unsupported trait, expected one of expected one of Clone, Copy, Debug, Default, Eq, Hash, Ord, PartialEq, PartialOrd, Zeroize",
    );
    check(
        &tuple(
            vec![attribute(vec![word("Debug", 2)], 3)],
            vec![attribute(vec![list("skip", vec![argument("Serialize", 4)], 5)], 6)],
        ),
        ErrorKind::UnsupportedTrait,
        4,
        "unsupported trait, expected one of expected one of Clone, Copy, Debug, Default, Eq, Hash, Ord, PartialEq, PartialOrd, Zeroize",
    );
}

#[test]
fn something_else_than_a_trait() {
    let literal = Meta {
        span: Span::new(2),
        name: String::new(),
        form: MetaForm::Other,
    };
    check(
        &tuple(vec![attribute(vec![literal], 3)], Vec::new()),
        ErrorKind::TraitSyntax,
        2,
        "unsupported trait syntax, expected one of expected one of Clone, Copy, Debug, Default, Eq, Hash, Ord, PartialEq, PartialOrd, Zeroize",
    );
    check(
        &tuple(vec![attribute(Vec::new(), 3)], Vec::new()),
        ErrorKind::TraitSyntax,
        3,
        "unsupported trait syntax, expected one of expected one of Clone, Copy, Debug, Default, Eq, Hash, Ord, PartialEq, PartialOrd, Zeroize",
    );
}

fn bounded(delimiter: Delimiter, bounds: Vec<Bound>) -> DeriveInput {
    tuple(
        vec![with_content(
            Content::List(MetaList {
                items: vec![word("Clone", 2)],
                delimiter,
                bounds,
            }),
            3,
        )],
        Vec::new(),
    )
}

#[test]
fn delimiter_that_is_neither_semicolon_nor_comma() {
    check(
        &bounded(Delimiter::Unexpected(Span::new(4)), Vec::new()),
        ErrorKind::Delimiter,
        4,
        "expected `;` or `,",
    );
}

#[test]
fn bound_on_something_else_than_a_type() {
    check(
        &bounded(
            Delimiter::Semicolon,
            vec![Bound {
                span: Span::new(4),
                kind: BoundKind::OtherPredicate,
                text: "'a: 'b".to_string(),
            }],
        ),
        ErrorKind::UnsupportedPredicate,
        4,
        "only type predicates are supported",
    );
}

#[test]
fn unreadable_bound_quotes_its_reader() {
    check(
        &bounded(
            Delimiter::Semicolon,
            vec![
                Bound {
                    span: Span::new(4),
                    kind: BoundKind::Type,
                    text: "T".to_string(),
                },
                Bound {
                    span: Span::new(5),
                    kind: BoundKind::Unreadable,
                    text: "expected one of: `for`, parentheses".to_string(),
                },
            ],
        ),
        ErrorKind::GenericSyntax,
        5,
        "expected type to bind to, expected one of: `for`, parentheses",
    );
}

fn two_variants(traits: &[&str], on_first: Vec<Attribute>, on_second: Vec<Attribute>) -> DeriveInput {
    item(
        vec![attribute(
            traits.iter().map(|name| word(name, 2)).collect(),
            3,
        )],
        Data::Enum(vec![
            variant("A", on_first, Fields::Unit),
            variant("B", on_second, Fields::Unnamed(vec![field("", Vec::new())])),
        ]),
    )
}

#[test]
fn default_marker_without_default() {
    check(
        &two_variants(
            &["Clone"],
            vec![attribute(vec![word("default", 4)], 5)],
            Vec::new(),
        ),
        ErrorKind::UnexpectedDefault,
        4,
        "`default` is only supported if `Default` is being implemented",
    );
}

#[test]
fn default_without_a_marked_variant() {
    check(
        &two_variants(&["Clone", "Default"], Vec::new(), Vec::new()),
        ErrorKind::DefaultMissing,
        ITEM,
        "required `default` option on a variant if `Default` is being implemented",
    );
}

#[test]
fn default_with_two_marked_variants() {
    check(
        &two_variants(
            &["Default"],
            vec![attribute(vec![word("default", 4)], 5)],
            vec![attribute(vec![word("default", 6)], 7)],
        ),
        ErrorKind::DefaultDuplicate,
        6,
        "multiple `default` options in enum",
    );
}

#[test]
fn default_with_one_marked_variant() {
    let input = two_variants(
        &["Default"],
        Vec::new(),
        vec![attribute(vec![word("default", 6)], 7)],
    );
    let parsed = Input::parse(Span::new(ITEM), &input, Catalogue::WithZeroize).expect("a supported item");
    let value = derive_where::meaning::default(&parsed.item).expect("a default");
    assert_eq!(value.variant, 1);
    assert_eq!(value.fields, vec![0]);
}

#[test]
fn first_complaint_wins() {
    check(
        &tuple(
            vec![
                attribute(vec![word("Serialize", 2)], 3),
                with_content(Content::Bare, 4),
            ],
            vec![attribute(vec![word("unknown", 5)], 6)],
        ),
        ErrorKind::UnsupportedTrait,
        2,
        "unsupported trait, expected one of expected one of Clone, Copy, Debug, Default, Eq, Hash, Ord, PartialEq, PartialOrd, Zeroize",
    );
}

#[test]
fn messages_without_an_input() {
    assert_eq!(
        Error::option_trait(Span::new(0), "Zeroize").message(),
        "`Zeroize` doesn't support this option"
    );
    assert_eq!(
        Error::option_required(Span::new(0), "Zeroize").message(),
        "`Zeroize` requires an option"
    );
    assert_eq!(
        Error::options(Span::new(0), "Clone").message(),
        "`Clone` doesn't support any options"
    );
    assert_eq!(
        Error::path(Span::new(0), "unexpected token").message(),
        "expected path, unexpected token"
    );
    assert_eq!(
        Error::trait_syntax(Span::new(9), Catalogue::WithZeroize).span,
        Span::new(9)
    );
}

#[test]
fn crate_option_is_decided_by_what_its_reader_said() {
    let span = Span::new(8);
    assert_eq!(
        DeriveTrait::decide_crate(false, span, "zeroize_", None).expect("a path"),
        "zeroize_"
    );
    let refused = DeriveTrait::decide_crate(false, span, "1 + 1", Some("lex error".to_string()))
        .expect_err("no path");
    assert_eq!(refused.kind, ErrorKind::PathSyntax);
    assert_eq!(refused.span, span);
    assert_eq!(refused.message(), "expected path, lex error");
    let twice = DeriveTrait::decide_crate(true, span, "zeroize_", None).expect_err("a duplicate");
    assert_eq!(twice.kind, ErrorKind::OptionDuplicate);
    assert_eq!(twice.message(), "duplicate `crate` option");
    let twice = DeriveTrait::decide_crate(true, span, "1 + 1", Some("lex error".to_string()))
        .expect_err("a duplicate");
    assert_eq!(twice.kind, ErrorKind::OptionDuplicate);
}

#[test]
fn reader_of_paths_is_asked_about_the_first_crate_option_only() {
    let plain = DeriveTrait::new(Trait::Zeroize);
    let named = DeriveTrait {
        trait_: Trait::Zeroize,
        crate_: Some("zeroize_".to_string()),
    };
    let option = value("crate", "::renamed::zeroize", 2);
    assert_eq!(
        plain.asked_text(&option),
        Some(&"::renamed::zeroize".to_string())
    );
    assert_eq!(named.asked_text(&option), None);
    assert_eq!(plain.asked_text(&value("other", "x", 2)), None);
    assert_eq!(plain.asked_text(&argument("crate", 2)), None);

    let mut twice = DeriveTrait::new(Trait::Zeroize);
    assert!(twice.add_option(&option).is_ok());
    assert_eq!(twice.crate_, Some("::renamed::zeroize".to_string()));
    let again = twice
        .add_option(&value("crate", "not a path!", 3))
        .expect_err("a duplicate");
    assert_eq!(again.kind, ErrorKind::OptionDuplicate);
    assert_eq!(again.span, Span::new(3));
    assert_eq!(twice.crate_, Some("::renamed::zeroize".to_string()));
}

fn refused_by_the_standard_catalogue(input: &DeriveInput) -> Error {
    match Input::parse(Span::new(ITEM), input, Catalogue::Standard) {
        Ok(_) => panic!("the item was accepted"),
        Err(error) => error,
    }
}

const STANDARD: &str = "unsupported trait, expected one of expected one of Clone, Copy, Debug, Default, Eq, Hash, Ord, PartialEq, PartialOrd";

#[test]
fn standard_catalogue_does_not_know_the_traits_of_zeroize() {
    for name in ["Zeroize", "ZeroizeOnDrop"] {
        let asked = tuple(vec![attribute(vec![word(name, 2)], 3)], Vec::new());
        let error = refused_by_the_standard_catalogue(&asked);
        assert_eq!(error.kind, ErrorKind::UnsupportedTrait);
        assert_eq!(error.span, Span::new(2));
        assert_eq!(error.message(), STANDARD);
        assert!(Input::parse(Span::new(ITEM), &asked, Catalogue::WithZeroize).is_ok());

        let with_option = tuple(
            vec![attribute(
                vec![list(name, vec![value("crate", "zeroize_", 2)], 3)],
                4,
            )],
            Vec::new(),
        );
        let error = refused_by_the_standard_catalogue(&with_option);
        assert_eq!(error.kind, ErrorKind::UnsupportedTrait);
        assert_eq!(error.span, Span::new(3));

        let skipped = tuple(
            vec![attribute(vec![word("Debug", 2)], 3)],
            vec![attribute(vec![list("skip", vec![argument(name, 4)], 5)], 6)],
        );
        let error = refused_by_the_standard_catalogue(&skipped);
        assert_eq!(error.kind, ErrorKind::UnsupportedTrait);
        assert_eq!(error.span, Span::new(4));
        assert_eq!(error.message(), STANDARD);
    }
}

#[test]
fn standard_catalogue_does_not_know_the_call_by_full_path() {
    let input = tuple(
        vec![attribute(vec![word("Clone", 2)], 3)],
        vec![attribute(
            vec![list("Zeroize", vec![argument("fqs", 4)], 5)],
            6,
        )],
    );
    let error = refused_by_the_standard_catalogue(&input);
    assert_eq!(error.kind, ErrorKind::UnknownOption);
    assert_eq!(error.span, Span::new(5));
    assert_eq!(error.message(), "unknown option");
    assert!(Input::parse(Span::new(ITEM), &input, Catalogue::WithZeroize).is_ok());
}

#[test]
fn standard_catalogue_reads_its_own_traits_as_the_larger_one_does() {
    let input = tuple(
        vec![attribute(
            vec![word("Clone", 2), word("Debug", 2), word("Hash", 2)],
            3,
        )],
        vec![attribute(vec![list("skip", vec![argument("Debug", 4)], 5)], 6)],
    );
    let standard = Input::parse(Span::new(ITEM), &input, Catalogue::Standard).expect("accepted");
    let larger = Input::parse(Span::new(ITEM), &input, Catalogue::WithZeroize).expect("accepted");
    assert_eq!(standard.derive_wheres.len(), larger.derive_wheres.len());
    assert_eq!(
        standard.derive_wheres[0].traits.len(),
        larger.derive_wheres[0].traits.len()
    );
    assert_eq!(
        standard.item.body(0).fields[0].attr,
        larger.item.body(0).fields[0].attr
    );
    let unknown = tuple(vec![attribute(vec![word("Serialize", 2)], 3)], Vec::new());
    assert_eq!(
        refused_by_the_standard_catalogue(&unknown).message(),
        STANDARD
    );
}

fn with_crate(text: &str) -> DeriveInput {
    tuple(
        vec![attribute(
            vec![list("Zeroize", vec![value("crate", text, 2)], 3)],
            4,
        )],
        Vec::new(),
    )
}

#[test]
fn crate_with_generic_arguments_is_refused_here() {
    for text in [
        "a<c\"x\">",
        "a<(/*ERROR*/)>",
        "a::<b>",
        "Vec<u8>",
        "<T as Trait>::zeroize",
        "<",
        "a <= b",
    ] {
        assert!(!can_ask(text));
        let error = refused(&with_crate(text));
        assert_eq!(error.kind, ErrorKind::PathSyntax);
        assert_eq!(error.span, Span::new(2));
        assert_eq!(
            error.message(),
            "expected path, generic arguments are not supported"
        );
        let decided = DeriveTrait::decide_crate(false, Span::new(2), text, None)
            .expect_err("generic arguments");
        assert_eq!(decided.kind, ErrorKind::PathSyntax);
        assert_eq!(
            decided.message(),
            "expected path, generic arguments are not supported"
        );
        assert_eq!(
            DeriveTrait::new(Trait::Zeroize).asked_text(&value("crate", text, 2)),
            None
        );
        let twice = DeriveTrait::decide_crate(true, Span::new(2), text, None)
            .expect_err("a duplicate");
        assert_eq!(twice.kind, ErrorKind::OptionDuplicate);
    }
}

#[test]
fn crate_without_generic_arguments_is_left_to_the_reader_of_paths() {
    for text in [
        "zeroize_",
        "::zeroize",
        "crate",
        "self::zeroize",
        "super::super::zeroize",
        "r#type::zeroize",
        "a::b::c",
        " spaced :: out ",
    ] {
        assert!(can_ask(text));
        let input = with_crate(text);
        let parsed = Input::parse(Span::new(ITEM), &input, Catalogue::WithZeroize)
            .expect("a supported item");
        assert_eq!(parsed.derive_wheres[0].traits[0].crate_, Some(text.to_string()));
    }
    for text in [
        "",
        " ",
        "::",
        "a::",
        "a b",
        "a::(b)",
        "a(b)",
        "1 + 1",
        "0x",
        "1e",
        "not a path!",
        "c\"x\"",
        "a::c\"x\"",
        "(/*ERROR*/)",
        "\"unterminated",
        "'a",
        "'",
        "b'x'",
        "r#\"raw\"#",
        "a>",
        "a::>b",
        "fn",
        "a::fn",
        "#",
        "a.b",
        "a-b",
        "[a; 3]",
        "{",
        ")",
        "/* open",
        "\u{0}",
        "\u{feff}zeroize",
        "zeroize \u{e9}t\u{e9}",
    ] {
        assert!(can_ask(text));
        match Input::parse(Span::new(ITEM), &with_crate(text), Catalogue::WithZeroize) {
            Ok(parsed) => {
                assert_eq!(parsed.derive_wheres[0].traits[0].crate_, Some(text.to_string()))
            }
            Err(error) => {
                assert_eq!(error.kind, ErrorKind::PathSyntax);
                assert_eq!(error.span, Span::new(2));
                assert!(error.message().starts_with("expected path, "));
                assert_ne!(
                    error.message(),
                    "expected path, generic arguments are not supported"
                );
            }
        }
    }
}

#[test]
fn default_written_twice_on_one_variant_is_a_duplicate() {
    let marker = |span: u64| attribute(vec![word("default", span)], span + 1);
    let input = item(
        vec![attribute(
            vec![
                word("Clone", 2),
                word("Copy", 2),
                word("Debug", 2),
                word("Default", 2),
                word("Eq", 2),
                word("Hash", 2),
                word("Ord", 2),
                word("PartialEq", 2),
                word("PartialOrd", 2),
            ],
            3,
        )],
        Data::Enum(vec![
            variant("A", Vec::new(), Fields::Named(vec![field("field", Vec::new())])),
            variant("B", Vec::new(), Fields::Named(Vec::new())),
            variant("C", Vec::new(), Fields::Unnamed(vec![field("", Vec::new())])),
            variant("D", Vec::new(), Fields::Unnamed(Vec::new())),
            variant("E", vec![marker(4), marker(6)], Fields::Unit),
        ]),
    );
    for catalogue in [Catalogue::Standard, Catalogue::WithZeroize] {
        let error = match Input::parse(Span::new(ITEM), &input, catalogue) {
            Ok(_) => panic!("the item was accepted"),
            Err(error) => error,
        };
        assert_eq!(error.kind, ErrorKind::OptionDuplicate);
        assert_eq!(error.span, Span::new(6));
        assert_eq!(error.message(), "duplicate `default` option");
    }
}
