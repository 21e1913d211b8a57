use derive_where::derive_where_internal;
use derive_where::span::Span;
use derive_where::syntax::{
    Attribute, Content, Data, Delimiter, DeriveInput, Field, Fields, Generics, Meta, MetaForm,
    MetaList, Variant,
};
use derive_where::trait_::{Catalogue, Policy};
use std::str::FromStr;

fn tokens(code: &str) -> String {
    proc_macro2::TokenStream::from_str(code)
        .expect("code that lexes")
        .to_string()
}

fn word(name: &str) -> Meta {
    Meta {
        span: Span::new(0),
        name: name.to_string(),
        form: MetaForm::Word,
    }
}

fn options(names: &[&str]) -> Attribute {
    Attribute {
        span: Span::new(0),
        path: "derive_where".to_string(),
        content: Content::List(MetaList {
            items: names.iter().map(|name| word(name)).collect(),
            delimiter: Delimiter::End,
            bounds: Vec::new(),
        }),
    }
}

fn all_traits() -> Attribute {
    options(&[
        "Clone",
        "Copy",
        "Debug",
        "Default",
        "Eq",
        "Hash",
        "Ord",
        "PartialEq",
        "PartialOrd",
    ])
}

fn generic_over_t() -> Generics {
    Generics {
        has_params: true,
        impl_generics: "<T>".to_string(),
        type_generics: "<T>".to_string(),
        where_predicates: Vec::new(),
    }
}

fn field(name: &str) -> Field {
    Field {
        attrs: Vec::new(),
        ident: name.to_string(),
        ty: "T".to_string(),
    }
}

fn variant(name: &str, attrs: Vec<Attribute>, fields: Fields) -> Variant {
    Variant {
        attrs,
        ident: name.to_string(),
        fields,
    }
}

fn test_derive(input: DeriveInput, policy: Policy, expected: &str) {
    for catalogue in [Catalogue::Standard, Catalogue::WithZeroize] {
        let code = match derive_where_internal(Span::new(0), &input, policy, catalogue) {
            Ok(code) => code,
            Err(error) => panic!("{}", error.message()),
        };
        assert_eq!(tokens(&code), tokens(expected));
    }
}

#[test]
fn struct_() {
    test_derive(
        DeriveInput {
            attrs: vec![all_traits()],
            ident: "Test".to_string(),
            generics: generic_over_t(),
            data: Data::Struct(Fields::Named(vec![field("field")])),
        },
        Policy::Fast,
        r#"
            impl<T> ::core::clone::Clone for Test<T>
            {
                #[inline]
                fn clone(&self) -> Self {
                    match self {
                        Test { field: ref __field } => Test { field: ::core::clone::Clone::clone(__field) },
                    }
                }
            }

            impl<T> ::core::marker::Copy for Test<T>
            { }

            impl<T> ::core::fmt::Debug for Test<T>
            {
                fn fmt(&self, __f: &mut ::core::fmt::Formatter<'_>) -> ::core::fmt::Result {
                    match self {
                        Test { field: ref __field } => {
                            let mut __builder = ::core::fmt::Formatter::debug_struct(__f, "Test");
                            ::core::fmt::DebugStruct::field(&mut __builder, "field", __field);
                            ::core::fmt::DebugStruct::finish(&mut __builder)
                        }
                    }
                }
            }

            impl<T> ::core::default::Default for Test<T>
            {
                fn default() -> Self {
                    Test { field: ::core::default::Default::default() }
                }
            }

            impl<T> ::core::cmp::Eq for Test<T>
            { }

            impl<T> ::core::hash::Hash for Test<T>
            {
                fn hash<__H: ::core::hash::Hasher>(&self, __state: &mut __H) {
                    match self {
                        Test { field: ref __field } => { ::core::hash::Hash::hash(__field, __state); }
                    }
                }
            }

            impl<T> ::core::cmp::Ord for Test<T>
            {
                #[inline]
                fn cmp(&self, __other: &Self) -> ::core::cmp::Ordering {
                    match (self, __other) {
                        (Test { field: ref __field }, Test { field: ref __other_field }) =>
                            match ::core::cmp::Ord::cmp(__field, __other_field) {
                                ::core::cmp::Ordering::Equal => ::core::cmp::Ordering::Equal,
                                __cmp => __cmp,
                            },
                    }
                }
            }

            impl<T> ::core::cmp::PartialEq for Test<T>
            {
                #[inline]
                fn eq(&self, __other: &Self) -> bool {
                    match (self, __other) {
                        (Test { field: ref __field }, Test { field: ref __other_field }) =>
                            true && ::core::cmp::PartialEq::eq(__field, __other_field),
                    }
                }
            }

            impl<T> ::core::cmp::PartialOrd for Test<T>
            {
                #[inline]
                fn partial_cmp(&self, __other: &Self) -> ::core::option::Option<::core::cmp::Ordering> {
                    match (self, __other) {
                        (Test { field: ref __field }, Test { field: ref __other_field }) =>
                            match ::core::cmp::PartialOrd::partial_cmp(__field, __other_field) {
                                ::core::option::Option::Some(::core::cmp::Ordering::Equal) => ::core::option::Option::Some(::core::cmp::Ordering::Equal),
                                __cmp => __cmp,
                            },
                    }
                }
            }
        "#,
    );
}

#[test]
fn tuple() {
    test_derive(
        DeriveInput {
            attrs: vec![all_traits()],
            ident: "Test".to_string(),
            generics: generic_over_t(),
            data: Data::Struct(Fields::Unnamed(vec![field("")])),
        },
        Policy::Fast,
        r#"
            impl<T> ::core::clone::Clone for Test<T>
            {
                #[inline]
                fn clone(&self) -> Self {
                    match self {
                        Test(ref __0) => Test(::core::clone::Clone::clone(__0)),
                    }
                }
            }

            impl<T> ::core::marker::Copy for Test<T>
            { }

            impl<T> ::core::fmt::Debug for Test<T>
            {
                fn fmt(&self, __f: &mut ::core::fmt::Formatter<'_>) -> ::core::fmt::Result {
                    match self {
                        Test(ref __0) => {
                            let mut __builder = ::core::fmt::Formatter::debug_tuple(__f, "Test");
                            ::core::fmt::DebugTuple::field(&mut __builder, __0);
                            ::core::fmt::DebugTuple::finish(&mut __builder)
                        }
                    }
                }
            }

            impl<T> ::core::default::Default for Test<T>
            {
                fn default() -> Self {
                    Test(::core::default::Default::default())
                }
            }

            impl<T> ::core::cmp::Eq for Test<T>
            { }

            impl<T> ::core::hash::Hash for Test<T>
            {
                fn hash<__H: ::core::hash::Hasher>(&self, __state: &mut __H) {
                    match self {
                        Test(ref __0) => { ::core::hash::Hash::hash(__0, __state); }
                    }
                }
            }

            impl<T> ::core::cmp::Ord for Test<T>
            {
                #[inline]
                fn cmp(&self, __other: &Self) -> ::core::cmp::Ordering {
                    match (self, __other) {
                        (Test(ref __0), Test(ref __other_0)) =>
                            match ::core::cmp::Ord::cmp(__0, __other_0) {
                                ::core::cmp::Ordering::Equal => ::core::cmp::Ordering::Equal,
                                __cmp => __cmp,
                            },
                    }
                }
            }

            impl<T> ::core::cmp::PartialEq for Test<T>
            {
                #[inline]
                fn eq(&self, __other: &Self) -> bool {
                    match (self, __other) {
                        (Test(ref __0), Test(ref __other_0)) =>
                            true && ::core::cmp::PartialEq::eq(__0, __other_0),
                    }
                }
            }

            impl<T> ::core::cmp::PartialOrd for Test<T>
            {
                #[inline]
                fn partial_cmp(&self, __other: &Self) -> ::core::option::Option<::core::cmp::Ordering> {
                    match (self, __other) {
                        (Test(ref __0), Test(ref __other_0)) =>
                            match ::core::cmp::PartialOrd::partial_cmp(__0, __other_0) {
                                ::core::option::Option::Some(::core::cmp::Ordering::Equal) => ::core::option::Option::Some(::core::cmp::Ordering::Equal),
                                __cmp => __cmp,
                            },
                    }
                }
            }
        "#,
    );
}

fn five_variants() -> DeriveInput {
    DeriveInput {
        attrs: vec![all_traits()],
        ident: "Test".to_string(),
        generics: generic_over_t(),
        data: Data::Enum(vec![
            variant("A", Vec::new(), Fields::Named(vec![field("field")])),
            variant("B", Vec::new(), Fields::Named(Vec::new())),
            variant("C", Vec::new(), Fields::Unnamed(vec![field("")])),
            variant("D", Vec::new(), Fields::Unnamed(Vec::new())),
            variant("E", vec![options(&["default"])], Fields::Unit),
        ]),
    }
}

const DISCRIMINANT: &str = "
    let __self_disc = ::core::mem::discriminant(self);
    let __other_disc = ::core::mem::discriminant(__other);
";

fn expected_for_five_variants(discriminant: &str, ord: &str, partial_ord: &str) -> String {
    let before = r#"
        impl<T> ::core::clone::Clone for Test<T>
        {
            #[inline]
            fn clone(&self) -> Self {
                match self {
                    Test::A { field: ref __field } => Test::A { field: ::core::clone::Clone::clone(__field) },
                    Test::B { } => Test::B { },
                    Test::C(ref __0) => Test::C(::core::clone::Clone::clone(__0)),
                    Test::D() => Test::D(),
                    Test::E => Test::E,
                }
            }
        }

        impl<T> ::core::marker::Copy for Test<T>
        { }

        impl<T> ::core::fmt::Debug for Test<T>
        {
            fn fmt(&self, __f: &mut ::core::fmt::Formatter<'_>) -> ::core::fmt::Result {
                match self {
                    Test::A { field: ref __field } => {
                        let mut __builder = ::core::fmt::Formatter::debug_struct(__f, "A");
                        ::core::fmt::DebugStruct::field(&mut __builder, "field", __field);
                        ::core::fmt::DebugStruct::finish(&mut __builder)
                    }
                    Test::B { } => {
                        let mut __builder = ::core::fmt::Formatter::debug_struct(__f, "B");
                        ::core::fmt::DebugStruct::finish(&mut __builder)
                    }
                    Test::C(ref __0) => {
                        let mut __builder = ::core::fmt::Formatter::debug_tuple(__f, "C");
                        ::core::fmt::DebugTuple::field(&mut __builder, __0);
                        ::core::fmt::DebugTuple::finish(&mut __builder)
                    }
                    Test::D() => {
                        let mut __builder = ::core::fmt::Formatter::debug_tuple(__f, "D");
                        ::core::fmt::DebugTuple::finish(&mut __builder)
                    }
                    Test::E => ::core::fmt::Formatter::write_str(__f, "E"),
                }
            }
        }

        impl<T> ::core::default::Default for Test<T>
        {
            fn default() -> Self {
                Test::E
            }
        }

        impl<T> ::core::cmp::Eq for Test<T>
        { }

        impl<T> ::core::hash::Hash for Test<T>
        {
            fn hash<__H: ::core::hash::Hasher>(&self, __state: &mut __H) {
                match self {
                    Test::A { field: ref __field } => {
                        ::core::hash::Hash::hash(&::core::mem::discriminant(self), __state);
                        ::core::hash::Hash::hash(__field, __state);
                    }
                    Test::B { } => {
                        ::core::hash::Hash::hash(&::core::mem::discriminant(self), __state);
                    }
                    Test::C(ref __0) => {
                        ::core::hash::Hash::hash(&::core::mem::discriminant(self), __state);
                        ::core::hash::Hash::hash(__0, __state);
                    }
                    Test::D() => {
                        ::core::hash::Hash::hash(&::core::mem::discriminant(self), __state);
                    }
                    Test::E => {
                        ::core::hash::Hash::hash(&::core::mem::discriminant(self), __state);
                    }
                }
            }
        }
    "#;
    let ord_impl = format!(
        r#"
        impl<T> ::core::cmp::Ord for Test<T>
        {{
            #[inline]
            fn cmp(&self, __other: &Self) -> ::core::cmp::Ordering {{
                {discriminant}

                if __self_disc == __other_disc {{
                    match (self, __other) {{
                        (Test::A {{ field: ref __field }}, Test::A {{ field: ref __other_field }}) =>
                            match ::core::cmp::Ord::cmp(__field, __other_field) {{
                                ::core::cmp::Ordering::Equal => ::core::cmp::Ordering::Equal,
                                __cmp => __cmp,
                            }},
                        (Test::C(ref __0), Test::C(ref __other_0)) =>
                            match ::core::cmp::Ord::cmp(__0, __other_0) {{
                                ::core::cmp::Ordering::Equal => ::core::cmp::Ordering::Equal,
                                __cmp => __cmp,
                            }},
                        _ => ::core::cmp::Ordering::Equal,
                    }}
                }} else {{
                    {ord}
                }}
            }}
        }}

        impl<T> ::core::cmp::PartialEq for Test<T>
        {{
            #[inline]
            fn eq(&self, __other: &Self) -> bool {{
                if ::core::mem::discriminant(self) == ::core::mem::discriminant(__other) {{
                    match (self, __other) {{
                        (Test::A {{ field: ref __field }}, Test::A {{ field: ref __other_field }}) =>
                            true && ::core::cmp::PartialEq::eq(__field, __other_field),
                        (Test::C(ref __0), Test::C(ref __other_0)) =>
                            true && ::core::cmp::PartialEq::eq(__0, __other_0),
                        _ => true,
                    }}
                }} else {{
                    false
                }}
            }}
        }}

        impl<T> ::core::cmp::PartialOrd for Test<T>
        {{
            #[inline]
            fn partial_cmp(&self, __other: &Self) -> ::core::option::Option<::core::cmp::Ordering> {{
                {discriminant}

                if __self_disc == __other_disc {{
                    match (self, __other) {{
                        (Test::A {{ field: ref __field }}, Test::A {{ field: ref __other_field }}) =>
                            match ::core::cmp::PartialOrd::partial_cmp(__field, __other_field) {{
                                ::core::option::Option::Some(::core::cmp::Ordering::Equal) => ::core::option::Option::Some(::core::cmp::Ordering::Equal),
                                __cmp => __cmp,
                            }},
                        (Test::C(ref __0), Test::C(ref __other_0)) =>
                            match ::core::cmp::PartialOrd::partial_cmp(__0, __other_0) {{
                                ::core::option::Option::Some(::core::cmp::Ordering::Equal) => ::core::option::Option::Some(::core::cmp::Ordering::Equal),
                                __cmp => __cmp,
                            }},
                        _ => ::core::option::Option::Some(::core::cmp::Ordering::Equal),
                    }}
                }} else {{
                    {partial_ord}
                }}
            }}
        }}
        "#,
        discriminant = discriminant,
        ord = ord,
        partial_ord = partial_ord,
    );
    format!("{}{}", before, ord_impl)
}

#[test]
fn enum_() {
    let ord = r#"
        ::core::cmp::Ord::cmp(
            &unsafe { ::core::mem::transmute::<_, isize>(__self_disc) },
            &unsafe { ::core::mem::transmute::<_, isize>(__other_disc) },
        )
    "#;
    let partial_ord = r#"
        ::core::cmp::PartialOrd::partial_cmp(
            &unsafe { ::core::mem::transmute::<_, isize>(__self_disc) },
            &unsafe { ::core::mem::transmute::<_, isize>(__other_disc) },
        )
    "#;
    test_derive(
        five_variants(),
        Policy::Fast,
        &expected_for_five_variants(DISCRIMINANT, ord, partial_ord),
    );
}

#[test]
fn enum_with_tags_read_by_the_intrinsic() {
    test_derive(
        five_variants(),
        Policy::Nightly,
        &expected_for_five_variants(
            "
                let __self_disc = ::core::intrinsics::discriminant_value(&self);
                let __other_disc = ::core::intrinsics::discriminant_value(&__other);
            ",
            "::core::cmp::Ord::cmp(&__self_disc, &__other_disc)",
            "::core::cmp::PartialOrd::partial_cmp(&__self_disc, &__other_disc)",
        ),
    );
}

#[test]
fn enum_with_table_of_variant_pairs() {
    let ord = r#"
        match self {
            Test::A { field: ref __field } =>
                match __other {
                    Test::B { } => ::core::cmp::Ordering::Less,
                    Test::C(ref __other_0) => ::core::cmp::Ordering::Less,
                    Test::D() => ::core::cmp::Ordering::Less,
                    Test::E => ::core::cmp::Ordering::Less,
                    _ => ::core::unreachable!("comparing variants yielded unexpected results"),
                },
            Test::B { } =>
                match __other {
                    Test::A { field: ref __other_field } => ::core::cmp::Ordering::Greater,
                    Test::C(ref __other_0) => ::core::cmp::Ordering::Less,
                    Test::D() => ::core::cmp::Ordering::Less,
                    Test::E => ::core::cmp::Ordering::Less,
                    _ => ::core::unreachable!("comparing variants yielded unexpected results"),
                },
            Test::C(ref __0) =>
                match __other {
                    Test::A { field: ref __other_field } => ::core::cmp::Ordering::Greater,
                    Test::B { } => ::core::cmp::Ordering::Greater,
                    Test::D() => ::core::cmp::Ordering::Less,
                    Test::E => ::core::cmp::Ordering::Less,
                    _ => ::core::unreachable!("comparing variants yielded unexpected results"),
                },
            Test::D() =>
                match __other {
                    Test::A { field: ref __other_field } => ::core::cmp::Ordering::Greater,
                    Test::B { } => ::core::cmp::Ordering::Greater,
                    Test::C(ref __other_0) => ::core::cmp::Ordering::Greater,
                    Test::E => ::core::cmp::Ordering::Less,
                    _ => ::core::unreachable!("comparing variants yielded unexpected results"),
                },
            Test::E =>
                match __other {
                    Test::A { field: ref __other_field } => ::core::cmp::Ordering::Greater,
                    Test::B { } => ::core::cmp::Ordering::Greater,
                    Test::C(ref __other_0) => ::core::cmp::Ordering::Greater,
                    Test::D() => ::core::cmp::Ordering::Greater,
                    _ => ::core::unreachable!("comparing variants yielded unexpected results"),
                },
        }
    "#;
    let partial_ord = ord.replace(
        "::core::cmp::Ordering::Less",
        "::core::option::Option::Some(::core::cmp::Ordering::Less)",
    )
    .replace(
        "::core::cmp::Ordering::Greater",
        "::core::option::Option::Some(::core::cmp::Ordering::Greater)",
    );
    test_derive(
        five_variants(),
        Policy::Safe,
        &expected_for_five_variants(DISCRIMINANT, ord, &partial_ord),
    );
}

#[test]
fn union_() {
    test_derive(
        DeriveInput {
            attrs: vec![options(&["Clone", "Copy"])],
            ident: "Test".to_string(),
            generics: generic_over_t(),
            data: Data::Union(vec![field("a"), field("b")]),
        },
        Policy::Fast,
        r#"
            impl<T> ::core::clone::Clone for Test<T>
            {
                #[inline]
                fn clone(&self) -> Self {
                    struct __AssertCopy<__T: ::core::marker::Copy + ?::core::marker::Sized>(::core::marker::PhantomData<__T>);
                    let _: __AssertCopy<Self>;
                    *self
                }
            }

            impl<T> ::core::marker::Copy for Test<T>
            { }
        "#,
    );
}
