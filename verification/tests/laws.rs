use derive_where::input::{Input, Item};
use derive_where::meaning::{self, Fed, Value};
use derive_where::span::Span;
use derive_where::syntax::{
    Argument, ArgumentForm, Attribute, Content, Data, Delimiter, DeriveInput, Field, Fields,
    Generics, Meta, MetaForm, MetaList, Variant,
};
use derive_where::trait_::common_ord::Order;
use derive_where::trait_::{Catalogue, Policy, Trait};

fn word(name: &str) -> Meta {
    Meta {
        span: Span::new(0),
        name: name.to_string(),
        form: MetaForm::Word,
    }
}

fn list(name: &str, arguments: &[&str]) -> Meta {
    Meta {
        span: Span::new(0),
        name: name.to_string(),
        form: MetaForm::List(
            arguments
                .iter()
                .map(|argument| Argument {
                    span: Span::new(0),
                    name: argument.to_string(),
                    form: ArgumentForm::Word,
                })
                .collect(),
        ),
    }
}

fn attribute(items: Vec<Meta>) -> Attribute {
    Attribute {
        span: Span::new(0),
        path: "derive_where".to_string(),
        content: Content::List(MetaList {
            items,
            delimiter: Delimiter::End,
            bounds: Vec::new(),
        }),
    }
}

fn field(name: &str, attrs: Vec<Attribute>) -> Field {
    Field {
        attrs,
        ident: name.to_string(),
        ty: "T".to_string(),
    }
}

fn variant(name: &str, attrs: Vec<Attribute>, fields: Fields) -> Variant {
    Variant {
        attrs,
        ident: name.to_string(),
        fields,
    }
}

fn generic_over_t() -> Generics {
    Generics {
        has_params: true,
        impl_generics: "<T>".to_string(),
        type_generics: "<T>".to_string(),
        where_predicates: Vec::new(),
    }
}

/// An enum of five variants, the last one without fields and marked `default`;
/// the second field of `C` is skipped for the given traits.
fn five_variants(skipped: &[&str]) -> DeriveInput {
    let on_second = if skipped.is_empty() {
        Vec::new()
    } else {
        vec![attribute(vec![list("skip", skipped)])]
    };
    DeriveInput {
        attrs: vec![attribute(vec![
            word("Debug"),
            word("Default"),
            word("Eq"),
            word("Hash"),
            word("Ord"),
            word("PartialEq"),
            word("PartialOrd"),
        ])],
        ident: "Test".to_string(),
        generics: generic_over_t(),
        data: Data::Enum(vec![
            variant(
                "A",
                Vec::new(),
                Fields::Named(vec![field("field", Vec::new())]),
            ),
            variant("B", Vec::new(), Fields::Named(Vec::new())),
            variant(
                "C",
                Vec::new(),
                Fields::Unnamed(vec![field("", Vec::new()), field("", on_second)]),
            ),
            variant("D", Vec::new(), Fields::Unnamed(Vec::new())),
            variant("E", vec![attribute(vec![word("default")])], Fields::Unit),
        ]),
    }
}

fn value(variant: usize, fields: &[i64]) -> Value {
    Value {
        variant,
        fields: fields.to_vec(),
    }
}

fn values() -> Vec<Value> {
    vec![
        value(0, &[1]),
        value(0, &[2]),
        value(1, &[]),
        value(2, &[1, 1]),
        value(2, &[1, 2]),
        value(2, &[2, 0]),
        value(3, &[]),
        value(4, &[]),
    ]
}

fn compare(item: &Item, a: &Value, b: &Value) -> Order {
    assert!(meaning::is_value_of(item, a));
    assert!(meaning::is_value_of(item, b));
    let fast = meaning::compare(item, Policy::Fast, a, b);
    assert_eq!(fast, meaning::compare(item, Policy::Safe, a, b));
    assert_eq!(fast, meaning::compare(item, Policy::Nightly, a, b));
    assert_eq!(
        Some(fast),
        meaning::partial_compare(item, Policy::Fast, a, b)
    );
    fast
}

fn reversed(order: Order) -> Order {
    match order {
        Order::Less => Order::Greater,
        Order::Equal => Order::Equal,
        Order::Greater => Order::Less,
    }
}

#[test]
fn default_is_the_marked_variant() {
    let description = five_variants(&[]);
    let input = Input::parse(Span::new(0), &description, Catalogue::WithZeroize).expect("a supported item");
    let default = meaning::default(&input.item).expect("a default");
    assert_eq!(default.variant, 4);
    assert_eq!(default.fields, Vec::<i64>::new());
    assert!(meaning::is_value_of(&input.item, &default));
    assert_eq!(meaning::debug(&input.item, &default), "E");
}

#[test]
fn default_of_a_struct_has_the_default_of_every_field() {
    let description = DeriveInput {
        attrs: vec![attribute(vec![word("Default")])],
        ident: "Test".to_string(),
        generics: generic_over_t(),
        data: Data::Struct(Fields::Named(vec![
            field("a", Vec::new()),
            field("b", Vec::new()),
        ])),
    };
    let input = Input::parse(Span::new(0), &description, Catalogue::WithZeroize).expect("a supported item");
    let default = meaning::default(&input.item).expect("a default");
    assert_eq!(default.variant, 0);
    assert_eq!(default.fields, vec![0, 0]);
    assert_eq!(
        meaning::debug(&input.item, &default),
        "Test { a: 0, b: 0 }"
    );
}

#[test]
fn variants_are_ordered_by_declaration() {
    let description = five_variants(&[]);
    let input = Input::parse(Span::new(0), &description, Catalogue::WithZeroize).expect("a supported item");
    let item = &input.item;
    assert_eq!(compare(item, &value(0, &[9]), &value(1, &[])), Order::Less);
    assert_eq!(
        compare(item, &value(2, &[0, 0]), &value(1, &[])),
        Order::Greater
    );
    assert_eq!(
        compare(item, &value(4, &[]), &value(0, &[-9])),
        Order::Greater
    );
    assert_eq!(compare(item, &value(3, &[]), &value(4, &[])), Order::Less);
    assert_eq!(compare(item, &value(3, &[]), &value(3, &[])), Order::Equal);
}

#[test]
fn values_of_one_variant_are_ordered_by_their_fields() {
    let description = five_variants(&[]);
    let input = Input::parse(Span::new(0), &description, Catalogue::WithZeroize).expect("a supported item");
    let item = &input.item;
    assert_eq!(compare(item, &value(0, &[1]), &value(0, &[2])), Order::Less);
    assert_eq!(
        compare(item, &value(2, &[1, 5]), &value(2, &[1, 4])),
        Order::Greater
    );
    assert_eq!(
        compare(item, &value(2, &[0, 5]), &value(2, &[1, 4])),
        Order::Less
    );
    assert_eq!(
        compare(item, &value(2, &[1, 4]), &value(2, &[1, 4])),
        Order::Equal
    );
}

#[test]
fn order_is_total_under_both_policies() {
    for skipped in [&[][..], &["Ord", "PartialOrd"][..]] {
        let description = five_variants(skipped);
        let input = Input::parse(Span::new(0), &description, Catalogue::WithZeroize).expect("a supported item");
        let item = &input.item;
        let values = values();
        for a in &values {
            assert_eq!(compare(item, a, a), Order::Equal);
            for b in &values {
                assert_eq!(compare(item, b, a), reversed(compare(item, a, b)));
                for c in &values {
                    if compare(item, a, b) != Order::Greater
                        && compare(item, b, c) != Order::Greater
                    {
                        assert_ne!(compare(item, a, c), Order::Greater);
                        if compare(item, a, b) == Order::Less || compare(item, b, c) == Order::Less
                        {
                            assert_eq!(compare(item, a, c), Order::Less);
                        }
                    }
                }
            }
        }
    }
}

#[test]
fn skipped_field_does_not_order() {
    let description = five_variants(&["Ord"]);
    let input = Input::parse(Span::new(0), &description, Catalogue::WithZeroize).expect("a supported item");
    let item = &input.item;
    let a = value(2, &[1, 5]);
    let b = value(2, &[1, 4]);
    assert_eq!(meaning::compare(item, Policy::Fast, &a, &b), Order::Equal);
    assert_eq!(
        meaning::partial_compare(item, Policy::Fast, &a, &b),
        Some(Order::Greater)
    );
}

#[test]
fn equal_values_are_hashed_alike() {
    for skipped in [&[][..], &["PartialEq", "Hash"][..], &["Hash"][..]] {
        let description = five_variants(skipped);
        let input = Input::parse(Span::new(0), &description, Catalogue::WithZeroize).expect("a supported item");
        let item = &input.item;
        let values = values();
        for a in &values {
            for b in &values {
                assert!(meaning::is_value_of(item, a));
                assert!(meaning::is_value_of(item, b));
                if meaning::eq(item, a, b) {
                    assert_eq!(meaning::hash(item, a), meaning::hash(item, b));
                }
            }
        }
    }
}

#[test]
fn hash_that_takes_a_field_that_eq_skips_tells_equal_values_apart() {
    let description = five_variants(&["PartialEq"]);
    let input = Input::parse(Span::new(0), &description, Catalogue::WithZeroize).expect("a supported item");
    let item = &input.item;
    let a = value(2, &[1, 5]);
    let b = value(2, &[1, 4]);
    assert!(meaning::eq(item, &a, &b));
    assert_ne!(meaning::hash(item, &a), meaning::hash(item, &b));
}

#[test]
fn hash_feeds_the_tag_first() {
    let description = five_variants(&["Hash"]);
    let input = Input::parse(Span::new(0), &description, Catalogue::WithZeroize).expect("a supported item");
    let item = &input.item;
    assert_eq!(
        meaning::hash(item, &value(0, &[7])),
        vec![Fed::Tag(0), Fed::Field(7)]
    );
    assert_eq!(
        meaning::hash(item, &value(2, &[7, 8])),
        vec![Fed::Tag(2), Fed::Field(7)]
    );
    assert_eq!(meaning::hash(item, &value(4, &[])), vec![Fed::Tag(4)]);
}

#[test]
fn values_of_different_variants_are_never_equal() {
    let description = DeriveInput {
        attrs: vec![attribute(vec![word("PartialEq")])],
        ident: "Test".to_string(),
        generics: generic_over_t(),
        data: Data::Enum(vec![
            variant(
                "A",
                vec![attribute(vec![word("skip_inner")])],
                Fields::Unnamed(vec![field("", Vec::new())]),
            ),
            variant(
                "B",
                vec![attribute(vec![word("skip_inner")])],
                Fields::Unnamed(vec![field("", Vec::new())]),
            ),
        ]),
    };
    let input = Input::parse(Span::new(0), &description, Catalogue::WithZeroize).expect("a supported item");
    let item = &input.item;
    assert!(item.is_empty(Trait::PartialEq));
    assert!(meaning::is_value_of(item, &value(0, &[1])));
    assert!(meaning::is_value_of(item, &value(1, &[1])));
    assert!(!meaning::eq(item, &value(0, &[1]), &value(1, &[1])));
    assert!(meaning::eq(item, &value(0, &[1]), &value(0, &[2])));
    assert!(meaning::eq(item, &value(1, &[1]), &value(1, &[2])));
}

#[test]
fn debug_leaves_out_what_is_skipped() {
    let description = DeriveInput {
        attrs: vec![attribute(vec![word("Debug")])],
        ident: "r#Test".to_string(),
        generics: generic_over_t(),
        data: Data::Struct(Fields::Named(vec![
            field("a", vec![attribute(vec![list("skip", &["Debug"])])]),
            field("r#type", Vec::new()),
            field("c", Vec::new()),
        ])),
    };
    let input = Input::parse(Span::new(0), &description, Catalogue::WithZeroize).expect("a supported item");
    let shown = value(0, &[1, 2, 3]);
    assert!(meaning::is_value_of(&input.item, &shown));
    assert_eq!(
        meaning::debug(&input.item, &shown),
        "Test { type: 2, c: 3 }"
    );
}

#[test]
fn value_with_the_wrong_fields_is_not_of_the_item() {
    let description = five_variants(&[]);
    let input = Input::parse(Span::new(0), &description, Catalogue::WithZeroize).expect("a supported item");
    assert!(!meaning::is_value_of(&input.item, &value(5, &[])));
    assert!(!meaning::is_value_of(&input.item, &value(0, &[])));
    assert!(!meaning::is_value_of(&input.item, &value(4, &[1])));
    assert!(meaning::is_value_of(&input.item, &value(2, &[1, 2])));
}
