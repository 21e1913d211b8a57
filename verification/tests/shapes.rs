use derive_where::attr::derive_where::DeriveWhere;
use derive_where::generate_impl;
use derive_where::input::Input;
use derive_where::span::Span;
use derive_where::syntax::{
    Attribute, Content, Data, Delimiter, DeriveInput, Field, Fields, Generics, Meta, MetaForm,
    MetaList, Variant,
};
use derive_where::trait_::{Catalogue, DeriveTrait, Policy, Trait};
use std::str::FromStr;

fn tokens(code: &str) -> String {
    proc_macro2::TokenStream::from_str(code)
        .expect("code that lexes")
        .to_string()
}

fn word(name: &str) -> Meta {
    Meta {
        span: Span::new(0),
        name: name.to_string(),
        form: MetaForm::Word,
    }
}

fn attribute(items: Vec<Meta>) -> Attribute {
    Attribute {
        span: Span::new(0),
        path: "derive_where".to_string(),
        content: Content::List(MetaList {
            items,
            delimiter: Delimiter::End,
            bounds: Vec::new(),
        }),
    }
}

fn field(name: &str) -> Field {
    Field {
        attrs: Vec::new(),
        ident: name.to_string(),
        ty: "T".to_string(),
    }
}

fn variant(name: &str, fields: Fields) -> Variant {
    Variant {
        attrs: Vec::new(),
        ident: name.to_string(),
        fields,
    }
}

fn test(attrs: Vec<Attribute>, data: Data) -> DeriveInput {
    DeriveInput {
        attrs,
        ident: "Test".to_string(),
        generics: Generics {
            has_params: true,
            impl_generics: "<T>".to_string(),
            type_generics: "<T>".to_string(),
            where_predicates: Vec::new(),
        },
        data,
    }
}

/// The content of the `impl` block that is written for the trait.
fn content(description: &DeriveInput, trait_: Trait, policy: Policy) -> String {
    let input = Input::parse(Span::new(0), description, Catalogue::WithZeroize).expect("a supported item");
    let derive_where = DeriveWhere {
        span: Span::new(0),
        traits: Vec::new(),
        generics: Vec::new(),
    };
    let requested = DeriveTrait::new(trait_);
    let code = tokens(&generate_impl(
        &derive_where,
        &requested,
        &input.item,
        input.generics,
        policy,
    ));
    let head = tokens(&format!("impl<T> {} for Test<T>", requested.impl_path()));
    let inner = code
        .strip_prefix(&head)
        .expect("an impl block of the trait")
        .trim();
    inner
        .strip_prefix('{')
        .and_then(|inner| inner.strip_suffix('}'))
        .expect("braces around the content")
        .trim()
        .to_string()
}

fn two_variants_with_fields() -> DeriveInput {
    test(
        vec![attribute(vec![word("Ord"), word("PartialEq")])],
        Data::Enum(vec![
            variant("A", Fields::Unnamed(vec![field("")])),
            variant("B", Fields::Named(vec![field("b")])),
        ]),
    )
}

#[test]
fn eq_of_an_enum_without_empty_variants_cannot_fall_through() {
    let arms = "
        (Test::A(ref __0), Test::A(ref __other_0)) =>
            true && ::core::cmp::PartialEq::eq(__0, __other_0),
        (Test::B { b: ref __b }, Test::B { b: ref __other_b }) =>
            true && ::core::cmp::PartialEq::eq(__b, __other_b),
    ";
    let around = |rest: &str| {
        tokens(&format!(
            "#[inline]
            fn eq(&self, __other: &Self) -> bool {{
                if ::core::mem::discriminant(self) == ::core::mem::discriminant(__other) {{
                    match (self, __other) {{ {} _ => {}, }}
                }} else {{
                    false
                }}
            }}",
            arms, rest
        ))
    };
    assert_eq!(
        content(&two_variants_with_fields(), Trait::PartialEq, Policy::Fast),
        around("unsafe { ::core::hint::unreachable_unchecked() }")
    );
    assert_eq!(
        content(&two_variants_with_fields(), Trait::PartialEq, Policy::Safe),
        around("::core::unreachable!(\"comparing variants yielded unexpected results\")")
    );
}

#[test]
fn cmp_of_an_enum_without_empty_variants_cannot_fall_through() {
    assert_eq!(
        content(&two_variants_with_fields(), Trait::Ord, Policy::Fast),
        tokens(
            "#[inline]
            fn cmp(&self, __other: &Self) -> ::core::cmp::Ordering {
                let __self_disc = ::core::mem::discriminant(self);
                let __other_disc = ::core::mem::discriminant(__other);
                if __self_disc == __other_disc {
                    match (self, __other) {
                        (Test::A(ref __0), Test::A(ref __other_0)) =>
                            match ::core::cmp::Ord::cmp(__0, __other_0) {
                                ::core::cmp::Ordering::Equal => ::core::cmp::Ordering::Equal,
                                __cmp => __cmp,
                            },
                        (Test::B { b: ref __b }, Test::B { b: ref __other_b }) =>
                            match ::core::cmp::Ord::cmp(__b, __other_b) {
                                ::core::cmp::Ordering::Equal => ::core::cmp::Ordering::Equal,
                                __cmp => __cmp,
                            },
                        _ => unsafe { ::core::hint::unreachable_unchecked() },
                    }
                } else {
                    ::core::cmp::Ord::cmp(
                        &unsafe { ::core::mem::transmute::<_, isize>(__self_disc) },
                        &unsafe { ::core::mem::transmute::<_, isize>(__other_disc) },
                    )
                }
            }"
        )
    );
}

#[test]
fn enum_of_one_variant_has_no_tags_to_compare() {
    let description = test(
        vec![attribute(vec![word("Ord"), word("PartialEq"), word("Hash")])],
        Data::Enum(vec![variant("A", Fields::Unnamed(vec![field("")]))]),
    );
    assert_eq!(
        content(&description, Trait::PartialEq, Policy::Fast),
        tokens(
            "#[inline]
            fn eq(&self, __other: &Self) -> bool {
                match (self, __other) {
                    (Test::A(ref __0), Test::A(ref __other_0)) =>
                        true && ::core::cmp::PartialEq::eq(__0, __other_0),
                }
            }"
        )
    );
    assert_eq!(
        content(&description, Trait::Ord, Policy::Safe),
        tokens(
            "#[inline]
            fn cmp(&self, __other: &Self) -> ::core::cmp::Ordering {
                match (self, __other) {
                    (Test::A(ref __0), Test::A(ref __other_0)) =>
                        match ::core::cmp::Ord::cmp(__0, __other_0) {
                            ::core::cmp::Ordering::Equal => ::core::cmp::Ordering::Equal,
                            __cmp => __cmp,
                        },
                }
            }"
        )
    );
    assert_eq!(
        content(&description, Trait::Hash, Policy::Safe),
        tokens(
            "fn hash<__H: ::core::hash::Hasher>(&self, __state: &mut __H) {
                match self {
                    Test::A(ref __0) => {
                        ::core::hash::Hash::hash(&::core::mem::discriminant(self), __state);
                        ::core::hash::Hash::hash(__0, __state);
                    }
                }
            }"
        )
    );
}

#[test]
fn struct_without_a_field_that_takes_part() {
    let description = test(
        vec![
            attribute(vec![
                word("Debug"),
                word("Hash"),
                word("Ord"),
                word("PartialEq"),
                word("PartialOrd"),
            ]),
            attribute(vec![word("skip_inner")]),
        ],
        Data::Struct(Fields::Unnamed(vec![field("")])),
    );
    assert_eq!(
        content(&description, Trait::PartialEq, Policy::Fast),
        tokens("#[inline] fn eq(&self, __other: &Self) -> bool { true }")
    );
    assert_eq!(
        content(&description, Trait::Ord, Policy::Fast),
        tokens(
            "#[inline]
            fn cmp(&self, __other: &Self) -> ::core::cmp::Ordering {
                ::core::cmp::Ordering::Equal
            }"
        )
    );
    assert_eq!(
        content(&description, Trait::PartialOrd, Policy::Fast),
        tokens(
            "#[inline]
            fn partial_cmp(&self, __other: &Self) -> ::core::option::Option<::core::cmp::Ordering> {
                ::core::option::Option::Some(::core::cmp::Ordering::Equal)
            }"
        )
    );
    assert_eq!(
        content(&description, Trait::Hash, Policy::Fast),
        tokens(
            "fn hash<__H: ::core::hash::Hasher>(&self, __state: &mut __H) {
                match self { Test(ref __0) => { } }
            }"
        )
    );
    assert_eq!(
        content(&description, Trait::Debug, Policy::Fast),
        tokens(
            "fn fmt(&self, __f: &mut ::core::fmt::Formatter<'_>) -> ::core::fmt::Result {
                match self {
                    Test(ref __0) => {
                        let mut __builder = ::core::fmt::Formatter::debug_tuple(__f, \"Test\");
                        ::core::fmt::DebugTuple::finish(&mut __builder)
                    }
                }
            }"
        )
    );
}

#[test]
fn fields_of_a_tuple_are_bound_by_their_position() {
    let description = test(
        vec![attribute(vec![word("Default"), word("Clone")])],
        Data::Struct(Fields::Unnamed(
            (0..12).map(|_| field("")).collect::<Vec<Field>>(),
        )),
    );
    let items = |each: &dyn Fn(usize) -> String| {
        (0..12).map(each).collect::<Vec<String>>().join(", ")
    };
    assert_eq!(
        content(&description, Trait::Default, Policy::Fast),
        tokens(&format!(
            "fn default() -> Self {{ Test({}) }}",
            items(&|_| "::core::default::Default::default()".to_string())
        ))
    );
    assert_eq!(
        content(&description, Trait::Clone, Policy::Fast),
        tokens(&format!(
            "#[inline] fn clone(&self) -> Self {{ match self {{ Test({}) => Test({}), }} }}",
            items(&|index| format!("ref __{}", index)),
            items(&|index| format!("::core::clone::Clone::clone(__{})", index))
        ))
    );
}

#[test]
fn default_of_an_enum_is_written_for_the_marked_variant_only() {
    let mut marked = variant(
        "B",
        Fields::Named(vec![field("first"), field("second")]),
    );
    marked.attrs = vec![attribute(vec![word("default")])];
    let description = test(
        vec![attribute(vec![word("Default")])],
        Data::Enum(vec![
            variant("A", Fields::Unnamed(vec![field("")])),
            marked,
            variant("C", Fields::Unit),
        ]),
    );
    assert_eq!(
        content(&description, Trait::Default, Policy::Fast),
        tokens(
            "fn default() -> Self {
                Test::B {
                    first: ::core::default::Default::default(),
                    second: ::core::default::Default::default()
                }
            }"
        )
    );
}
