use allbands::domain::ArtistName;

#[test]
fn a_256_long_grapheme_is_ok() {
    let name = "å".repeat(256);
    assert!(ArtistName::parse(name).is_ok());
}

#[test]
fn a_name_longer_than_256_is_rejected() {
    let name = "a".repeat(257);
    assert!(ArtistName::parse(name).is_err());
}

#[test]
fn whitespace_only_names_are_rejected() {
    let name = " ".to_string();
    assert!(ArtistName::parse(name).is_err());
}

#[test]
fn empty_string_is_rejected() {
    let name = "".to_string();
    assert!(ArtistName::parse(name).is_err());
}

#[test]
fn name_containing_invalid_characters_is_rejected() {
    for name in &['/', '(', ')', '"', '>', '<', '{', '}', '\\'] {
        let name = name.to_string();
        assert!(ArtistName::parse(name).is_err());
    }
}

#[test]
fn a_valid_name_is_parsed_correctly() {
    let name = "Billy Strings".to_string();
    assert!(ArtistName::parse(name).is_ok());
}

#[test]
fn a_name_of_256_ascii_characters_is_ok() {
    let name = "a".repeat(256);
    assert!(ArtistName::parse(name).is_ok());
}

#[test]
fn a_parsed_name_keeps_its_text() {
    let name = ArtistName::parse("Billy Strings".to_string()).unwrap();
    assert_eq!(name.as_str(), "Billy Strings");
}

#[test]
fn unusual_whitespace_only_names_are_rejected() {
    for name in ["\t\n", "\u{00A0}", "\u{2003}\u{2009}", "\u{3000}"] {
        assert!(ArtistName::parse(name.to_string()).is_err());
    }
}

#[test]
fn symbols_outside_the_forbidden_set_are_accepted_in_names() {
    for name in ["100% pure", "Hey!", "O'Brien", "A#B", "a,b;c"] {
        assert!(ArtistName::parse(name.to_string()).is_ok());
    }
}
