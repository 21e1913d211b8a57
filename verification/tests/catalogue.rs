use derive_where::input::Input;
use derive_where::span::Span;
use derive_where::syntax::{
    Attribute, Content, Data, Delimiter, DeriveInput, Field, Fields, Generics, Meta, MetaForm,
    MetaList,
};
use derive_where::trait_::clone::Clone as WriteClone;
use derive_where::trait_::copy::Copy as WriteCopy;
use derive_where::trait_::debug::Debug as WriteDebug;
use derive_where::trait_::default::Default as WriteDefault;
use derive_where::trait_::eq::Eq as WriteEq;
use derive_where::trait_::hash::Hash as WriteHash;
use derive_where::trait_::ord::Ord as WriteOrd;
use derive_where::trait_::partial_eq::PartialEq as WritePartialEq;
use derive_where::trait_::partial_ord::PartialOrd as WritePartialOrd;
use derive_where::trait_::zeroize::Zeroize as WriteZeroize;
use derive_where::trait_::zeroize_on_drop::ZeroizeOnDrop as WriteZeroizeOnDrop;
use derive_where::trait_::{Catalogue, Policy, Trait};
use std::str::FromStr;

fn tokens(code: &str) -> String {
    proc_macro2::TokenStream::from_str(code)
        .expect("code that lexes")
        .to_string()
}

fn pair() -> DeriveInput {
    let field = |name: &str| Field {
        attrs: Vec::new(),
        ident: name.to_string(),
        ty: "T".to_string(),
    };
    DeriveInput {
        attrs: vec![Attribute {
            span: Span::new(0),
            path: "derive_where".to_string(),
            content: Content::List(MetaList {
                items: vec![Meta {
                    span: Span::new(0),
                    name: "Hash".to_string(),
                    form: MetaForm::Word,
                }],
                delimiter: Delimiter::End,
                bounds: Vec::new(),
            }),
        }],
        ident: "Pair".to_string(),
        generics: Generics {
            has_params: true,
            impl_generics: "<T>".to_string(),
            type_generics: "<T>".to_string(),
            where_predicates: Vec::new(),
        },
        data: Data::Struct(Fields::Named(vec![field("first"), field("r#type")])),
    }
}

#[test]
fn every_trait_knows_its_name_and_whether_it_skips() {
    let catalogue = [
        (WriteClone.as_str(), WriteClone.supports_skip(), WriteClone.default_derive_trait(), Trait::Clone),
        (WriteCopy.as_str(), WriteCopy.supports_skip(), WriteCopy.default_derive_trait(), Trait::Copy),
        (WriteDebug.as_str(), WriteDebug.supports_skip(), WriteDebug.default_derive_trait(), Trait::Debug),
        (WriteDefault.as_str(), WriteDefault.supports_skip(), WriteDefault.default_derive_trait(), Trait::Default),
        (WriteEq.as_str(), WriteEq.supports_skip(), WriteEq.default_derive_trait(), Trait::Eq),
        (WriteHash.as_str(), WriteHash.supports_skip(), WriteHash.default_derive_trait(), Trait::Hash),
        (WriteOrd.as_str(), WriteOrd.supports_skip(), WriteOrd.default_derive_trait(), Trait::Ord),
        (WritePartialEq.as_str(), WritePartialEq.supports_skip(), WritePartialEq.default_derive_trait(), Trait::PartialEq),
        (WritePartialOrd.as_str(), WritePartialOrd.supports_skip(), WritePartialOrd.default_derive_trait(), Trait::PartialOrd),
        (WriteZeroize.as_str(), WriteZeroize.supports_skip(), WriteZeroize.default_derive_trait(), Trait::Zeroize),
        (WriteZeroizeOnDrop.as_str(), WriteZeroizeOnDrop.supports_skip(), WriteZeroizeOnDrop.default_derive_trait(), Trait::ZeroizeOnDrop),
    ];
    for (name, skips, requested, trait_) in catalogue {
        assert_eq!(name, trait_.as_str());
        assert_eq!(skips, trait_.supports_skip());
        assert_eq!(requested.trait_, trait_);
        assert_eq!(requested.crate_, None);
    }
    assert_eq!(WriteHash.as_str(), "Hash");
    assert!(WriteHash.supports_skip());
    assert!(!WriteClone.supports_skip());
    assert!(!WriteCopy.supports_skip());
    assert!(!WriteDefault.supports_skip());
    assert!(!WriteEq.supports_skip());
}

#[test]
fn only_clone_and_copy_are_for_unions() {
    for trait_ in [
        Trait::Debug,
        Trait::Default,
        Trait::Eq,
        Trait::Hash,
        Trait::Ord,
        Trait::PartialEq,
        Trait::PartialOrd,
        Trait::Zeroize,
        Trait::ZeroizeOnDrop,
    ] {
        assert!(!trait_.supports_union());
    }
    assert!(Trait::Clone.supports_union());
    assert!(Trait::Copy.supports_union());
}

#[test]
fn hash_writes_one_arm_for_a_body_and_the_method_around_it() {
    let description = pair();
    let input = Input::parse(Span::new(0), &description, Catalogue::WithZeroize).expect("a supported item");
    let trait_ = WriteHash.default_derive_trait();
    let body = WriteHash.build_body(&trait_, input.item.body(0));
    assert_eq!(
        tokens(&body),
        tokens(
            "Pair { first: ref __first, r#type: ref __type } => {
                ::core::hash::Hash::hash(__first, __state);
                ::core::hash::Hash::hash(__type, __state);
            }"
        )
    );
    assert_eq!(
        tokens(&WriteHash.build_signature(&input.item, &trait_, &body)),
        tokens(&format!(
            "fn hash<__H: ::core::hash::Hasher>(&self, __state: &mut __H) {{
                match self {{ {} }}
            }}",
            body
        ))
    );
    assert_eq!(
        WriteHash.build_signature(&input.item, &trait_, ""),
        "fn hash<__H: ::core::hash::Hasher>(&self, __state: &mut __H) { match self { } }"
    );
}

#[test]
fn traits_without_a_method_write_nothing() {
    let description = pair();
    let input = Input::parse(Span::new(0), &description, Catalogue::WithZeroize).expect("a supported item");
    let item = &input.item;
    assert_eq!(WriteCopy.build_body(&WriteCopy.default_derive_trait(), item.body(0)), "");
    assert_eq!(WriteCopy.build_signature(item, &WriteCopy.default_derive_trait(), "x"), "");
    assert_eq!(WriteEq.build_body(&WriteEq.default_derive_trait(), item.body(0)), "");
    assert_eq!(WriteEq.build_signature(item, &WriteEq.default_derive_trait(), "x"), "");
}

#[test]
fn unreachable_arms_follow_the_policy() {
    assert_eq!(
        Policy::Fast.unreachable_code(),
        "unsafe { ::core::hint::unreachable_unchecked() }"
    );
    assert_eq!(
        Policy::Nightly.unreachable_code(),
        Policy::Fast.unreachable_code()
    );
    assert_eq!(
        Policy::Safe.unreachable_code(),
        "::core::unreachable!(\"comparing variants yielded unexpected results\")"
    );
}

#[test]
fn accepted_item_keeps_what_was_read() {
    let description = pair();
    let input = Input::parse(Span::new(7), &description, Catalogue::WithZeroize).expect("a supported item");
    assert_eq!(input.span, Span::new(7));
    assert_eq!(input.item.ident(), "Pair");
    assert_eq!(input.generics.impl_generics, "<T>");
    assert_eq!(input.derive_wheres.len(), 1);
    assert_eq!(input.derive_wheres[0].traits.len(), 1);
    assert_eq!(input.derive_wheres[0].traits[0].trait_, Trait::Hash);
    assert!(input.derive_wheres[0].implements(Trait::Hash));
    assert!(!input.derive_wheres[0].implements(Trait::Clone));
    assert_eq!(input.item.count(), 1);
    let body = input.item.body(0);
    assert_eq!(body.ident, "Pair");
    assert_eq!(body.path, "Pair");
    assert_eq!(body.fields.len(), 2);
    assert_eq!(body.fields[0].member_text(), "first");
    assert_eq!(body.fields[1].binding("__other_"), "__other_type");
    assert_eq!(body.fields[1].type_, "T");
    assert_eq!(
        body.self_pattern(),
        "Pair { first: ref __first, r#type: ref __type }"
    );
    assert_eq!(
        body.self_pattern_mut(),
        "Pair { first: ref mut __first, r#type: ref mut __type }"
    );
    assert_eq!(
        body.other_pattern(),
        "Pair { first: ref __other_first, r#type: ref __other_type }"
    );
    assert!(!input.item.has_tags());
    assert!(!input.item.is_union());
    assert!(!input.item.any_skip());
    assert!(!input.item.any_default(&input.derive_wheres));
    assert!(!input.item.any_fqs());
    assert!(!input.item.is_empty(Trait::Hash));
    assert!(!input.item.any_empty(Trait::Hash));
}
