use zero2prod::domain::SubscriberName;

#[test]
fn a_256_grapheme_long_name_is_valid() {
    let name = "A".repeat(256);
    assert!(SubscriberName::parse(name).is_ok());
}

#[test]
fn a_name_longer_than_256_graphemes_is_rejected() {
    let name = "a".repeat(257);
    assert!(SubscriberName::parse(name).is_err());
}

#[test]
fn whitespace_only_names_are_rejected() {
    let name = " ".to_string();
    assert!(SubscriberName::parse(name).is_err());
}

#[test]
fn empty_string_is_rejected() {
    let name = "".to_string();
    assert!(SubscriberName::parse(name).is_err());
}

#[test]
fn names_containing_an_invalid_character_are_rejected() {
    for name in &['/', '(', ')', '"', '<', '>', '\\', '{', '}'] {
        let name = name.to_string();
        assert!(SubscriberName::parse(name).is_err());
    }
}

#[test]
fn a_valid_name_is_parsed_successfully() {
    let name = "Ursula Le guin".to_string();
    assert!(SubscriberName::parse(name).is_ok());
}

#[test]
fn graphemes_not_chars_are_counted() {
    // "e" followed by a combining acute accent is one grapheme of two chars.
    let name = "e\u{301}".repeat(256);
    assert!(SubscriberName::parse(name).is_ok());
    let name = "e\u{301}".repeat(257);
    assert!(SubscriberName::parse(name).is_err());
}

#[test]
fn blank_names_of_other_white_space_are_rejected() {
    assert!(SubscriberName::parse("\t\n \u{3000}".to_string()).is_err());
    assert!(SubscriberName::parse(" ".repeat(256)).is_err());
}

#[test]
fn forbidden_character_inside_a_name_is_rejected() {
    assert!(SubscriberName::parse("Ursula <Le> Guin".to_string()).is_err());
    assert!(SubscriberName::parse(format!("{}/", "A".repeat(255))).is_err());
}

#[test]
fn rejection_messages_name_the_rule() {
    assert_eq!(SubscriberName::parse("  ".to_string()).unwrap_err(), "Name is empty.");
    assert_eq!(SubscriberName::parse("a".repeat(257)).unwrap_err(), "Name is too long");
    assert_eq!(
        SubscriberName::parse("a{b".to_string()).unwrap_err(),
        "Name has forbidden character."
    );
    assert_eq!(SubscriberName::check("ok", 300).unwrap_err(), "Name is too long");
    assert!(SubscriberName::check("ok", 256).is_ok());
}

#[test]
fn a_parsed_name_keeps_its_text() {
    let name = SubscriberName::parse(" le guin ".to_string()).unwrap();
    assert_eq!(name.as_ref(), " le guin ");
}
