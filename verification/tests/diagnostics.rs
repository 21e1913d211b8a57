use derive_where::error::Error;
use derive_where::span::Span;
use derive_where::trait_::Catalogue;

#[test]
fn trait_list_names_the_catalogue() {
    assert_eq!(
        Error::trait_list(Catalogue::Standard),
        "Clone, Copy, Debug, Default, Eq, Hash, Ord, PartialEq, PartialOrd"
    );
    assert_eq!(
        Error::trait_list(Catalogue::WithZeroize),
        "Clone, Copy, Debug, Default, Eq, Hash, Ord, PartialEq, PartialOrd, Zeroize"
    );
}

#[test]
fn message_of_unsupported_trait_lists_the_catalogue() {
    assert_eq!(
        Error::trait_(Span::new(3), Catalogue::Standard).message(),
        "unsupported trait, expected one of expected one of Clone, Copy, Debug, Default, Eq, Hash, Ord, PartialEq, PartialOrd"
    );
    assert_eq!(
        Error::trait_(Span::new(3), Catalogue::WithZeroize).message(),
        "unsupported trait, expected one of expected one of Clone, Copy, Debug, Default, Eq, Hash, Ord, PartialEq, PartialOrd, Zeroize"
    );
    assert_eq!(
        Error::trait_syntax(Span::new(3), Catalogue::Standard).message(),
        "unsupported trait syntax, expected one of expected one of Clone, Copy, Debug, Default, Eq, Hash, Ord, PartialEq, PartialOrd"
    );
}
