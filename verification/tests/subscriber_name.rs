use zero2prod2::domain::SubscriberName;

#[test]
fn a_256_grapheme_long_name_is_valid() {
    let name = "ё".repeat(256);
    assert!(SubscriberName::parse(name).is_ok());
}

#[test]
fn a_name_longer_than_256_graphemes_is_rejected() {
    let name = "a".repeat(257);
    assert!(SubscriberName::parse(name).is_err());
}

#[test]
fn whitespace_only_names_are_rejected() {
    let name = " ".to_string();
    assert!(SubscriberName::parse(name).is_err());
}

#[test]
fn empty_string_is_rejected() {
    let name = "".to_string();
    assert!(SubscriberName::parse(name).is_err());
}

#[test]
fn names_containing_an_invalid_character_are_rejected() {
    for name in &['/', '(', ')', '"', '<', '>', '\\', '{', '}'] {
        let name = name.to_string();
        assert!(SubscriberName::parse(name).is_err());
    }
}

#[test]
fn a_valid_name_is_parsed_successfully() {
    let name = "Ursula Le Guin".to_string();
    assert!(SubscriberName::parse(name).is_ok());
}

#[test]
fn a_parsed_name_keeps_its_text() {
    let name = SubscriberName::parse("Ursula Le Guin".to_string()).unwrap();
    assert_eq!(name.as_ref(), "Ursula Le Guin");
}

#[test]
fn blank_names_get_the_empty_field_message() {
    for name in ["", " ", "\t\n  ", "\u{3000}"] {
        assert_eq!(
            SubscriberName::parse(name.to_string()).unwrap_err(),
            "empty name field"
        );
    }
}

#[test]
fn names_with_inner_spaces_are_not_blank() {
    assert!(SubscriberName::parse("  le guin  ".to_string()).is_ok());
}

#[test]
fn too_long_names_get_the_limit_message() {
    let name = "a".repeat(257);
    assert_eq!(
        SubscriberName::parse(name.clone()).unwrap_err(),
        format!("name {name} greater than character limit 256")
    );
}

#[test]
fn combining_marks_count_as_one_grapheme() {
    // 256 clusters of `e` followed by a combining diaeresis: 512 chars.
    let name = "e\u{308}".repeat(256);
    assert!(SubscriberName::parse(name.clone()).is_ok());
    let longer = format!("{name}e\u{308}");
    assert!(SubscriberName::parse(longer).is_err());
}

#[test]
fn forbidden_characters_get_their_message() {
    assert_eq!(
        SubscriberName::parse("asdfjlk/".to_string()).unwrap_err(),
        "name asdfjlk/ contains invalid characters"
    );
}

#[test]
fn the_length_check_comes_before_the_character_check() {
    let name = format!("{}/", "a".repeat(300));
    assert_eq!(
        SubscriberName::parse(name.clone()).unwrap_err(),
        format!("name {name} greater than character limit 256")
    );
}

#[test]
fn rejection_takes_the_grapheme_count_as_given() {
    assert_eq!(SubscriberName::rejection("abc", 256), None);
    assert_eq!(
        SubscriberName::rejection("abc", 257),
        Some("name abc greater than character limit 256".to_string())
    );
    assert_eq!(
        SubscriberName::rejection("a<b", 3),
        Some("name a<b contains invalid characters".to_string())
    );
}

#[test]
fn every_unicode_white_space_character_is_blank() {
    let all = "\t\n\u{b}\u{c}\r \u{85}\u{a0}\u{1680}\u{2000}\u{2001}\u{2002}\u{2003}\u{2004}\u{2005}\u{2006}\u{2007}\u{2008}\u{2009}\u{200a}\u{2028}\u{2029}\u{202f}\u{205f}\u{3000}";
    assert_eq!(all.chars().count(), 25);
    assert_eq!(
        SubscriberName::parse(all.to_string()).unwrap_err(),
        "empty name field"
    );
}

#[test]
fn zero_width_space_is_not_white_space() {
    assert!(SubscriberName::parse("\u{200b}".to_string()).is_ok());
}
