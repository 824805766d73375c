use subscriber_intake::domain::subscriber_name::check_name;
use subscriber_intake::domain::subscriber_name::contains_forbidden;
use subscriber_intake::domain::subscriber_name::find_name_defect;
use subscriber_intake::domain::subscriber_name::is_blank_text;
use subscriber_intake::domain::subscriber_name::is_forbidden_char;
use subscriber_intake::domain::subscriber_name::is_valid_name;
use subscriber_intake::domain::subscriber_name::is_white_space_char;
use subscriber_intake::domain::subscriber_name::SubscriberName;
use subscriber_intake::domain::subscriber_name::MAX_NAME_GRAPHEMES;
use subscriber_intake::domain::validation::Defect;

#[test]
fn a_256_grapheme_long_name_is_valid() {
    let name = "ë".repeat(256);
    assert!(SubscriberName::parse(name).is_ok());
}

#[test]
fn a_name_longer_than_256_graphemes_is_rejected() {
    let name = "ë".repeat(257);
    assert!(SubscriberName::parse(name).is_err());
}

#[test]
fn whitespace_only_names_are_rejected() {
    let name = " ".to_string();
    assert!(SubscriberName::parse(name).is_err());
}

#[test]
fn empty_string_is_rejected() {
    let name = "".to_string();
    assert!(SubscriberName::parse(name).is_err());
}

#[test]
fn names_containing_forbidden_characters_are_rejected() {
    for name in &['/', '(', ')', '"', '<', '>', '\\', '{', '}'] {
        let name = name.to_string();
        assert!(SubscriberName::parse(name).is_err());
    }
}

#[test]
fn a_valid_name_is_parsed_successfully() {
    let name = "Ursula Le Guin".to_string();
    assert!(SubscriberName::parse(name).is_ok());
}

#[test]
fn a_parsed_name_reads_as_it_was_given() {
    let parsed = SubscriberName::parse("  Ursula Le Guin ".to_string());
    match parsed {
        Ok(name) => assert_eq!(name.as_ref(), "  Ursula Le Guin "),
        Err(_) => panic!("a padded name is still a name"),
    }
}

#[test]
fn a_refused_name_comes_back_with_its_defect() {
    let blank = SubscriberName::parse(" \t\n".to_string()).err().unwrap();
    assert_eq!(blank.input, " \t\n");
    assert_eq!(blank.defect, Defect::BlankName);
    assert_eq!(blank.message(), " \t\n is not a valid subscriber name.");

    let long = SubscriberName::parse("a".repeat(257)).err().unwrap();
    assert_eq!(long.input, "a".repeat(257));
    assert_eq!(long.defect, Defect::NameTooLong);

    let forbidden = SubscriberName::parse("Ursula {Le} Guin".to_string()).err().unwrap();
    assert_eq!(forbidden.input, "Ursula {Le} Guin");
    assert_eq!(forbidden.defect, Defect::ForbiddenCharacter);
    assert_eq!(forbidden.message(), "Ursula {Le} Guin is not a valid subscriber name.");
}

#[test]
fn the_first_defect_is_the_one_reported() {
    // Too long and with a forbidden character: too long comes first.
    let name = "/".repeat(300);
    assert_eq!(find_name_defect(&name), Some(Defect::NameTooLong));
    // Blank comes before everything else.
    assert_eq!(check_name("   ", 1000), Some(Defect::BlankName));
    assert_eq!(check_name("a/b", 3), Some(Defect::ForbiddenCharacter));
    assert_eq!(check_name("a/b", 257), Some(Defect::NameTooLong));
    assert_eq!(check_name("ab", 256), None);
    assert_eq!(check_name("ab", 257), Some(Defect::NameTooLong));
    assert_eq!(MAX_NAME_GRAPHEMES, 256);
}

#[test]
fn combining_sequences_count_once() {
    // Each "e" with a combining acute accent is two characters and one
    // grapheme cluster: 512 characters, 256 clusters.
    let name = "e\u{301}".repeat(256);
    assert_eq!(name.chars().count(), 512);
    assert!(SubscriberName::parse(name).is_ok());
    let name = "e\u{301}".repeat(257);
    assert!(SubscriberName::parse(name).is_err());
    // A flag is two regional indicators and one cluster.
    let flags = "\u{1F1F7}\u{1F1FA}".repeat(256);
    assert!(is_valid_name(&flags));
    let flags = "\u{1F1F7}\u{1F1FA}".repeat(257);
    assert_eq!(find_name_defect(&flags), Some(Defect::NameTooLong));
}

#[test]
fn blank_means_nothing_but_white_space() {
    assert!(is_blank_text(""));
    assert!(is_blank_text(" "));
    assert!(is_blank_text("\t\n\u{b}\u{c}\r \u{85}\u{a0}\u{1680}\u{2000}\u{200a}\u{2028}\u{2029}\u{202f}\u{205f}\u{3000}"));
    assert!(!is_blank_text(" a "));
    assert!(!is_blank_text("\u{200b}"));
    assert!(!is_blank_text("\u{180e}"));
}

#[test]
fn white_space_is_what_the_standard_library_says() {
    let mut code: u32 = 0;
    while code <= 0x10FFFF {
        if let Some(c) = char::from_u32(code) {
            assert_eq!(is_white_space_char(c), c.is_whitespace(), "U+{:04X}", code);
        }
        code += 1;
    }
}

#[test]
fn blank_agrees_with_trimming() {
    for text in ["", " ", "\u{3000}\u{2003}", " x ", "\u{feff}", "\n\n\n", "a"] {
        assert_eq!(is_blank_text(text), text.trim().is_empty(), "{:?}", text);
    }
}

#[test]
fn forbidden_characters_are_the_nine() {
    let forbidden = ['/', '(', ')', '"', '<', '>', '\\', '{', '}'];
    let mut code: u32 = 0;
    while code < 0x3000 {
        if let Some(c) = char::from_u32(code) {
            assert_eq!(is_forbidden_char(c), forbidden.contains(&c));
        }
        code += 1;
    }
    assert!(contains_forbidden("Ursula <Le> Guin"));
    assert!(contains_forbidden("}"));
    assert!(!contains_forbidden("Ursula Le Guin"));
    assert!(!contains_forbidden(""));
    assert!(!contains_forbidden("[Ursula]|'Le'"));
}

#[test]
fn validity_is_the_absence_of_a_defect() {
    for name in ["Ursula Le Guin", "", " ", "a/b", "ë", "Łukasz", "a\u{301}"] {
        assert_eq!(is_valid_name(name), find_name_defect(name).is_none());
        assert_eq!(is_valid_name(name), SubscriberName::parse(name.to_string()).is_ok());
    }
    assert!(is_valid_name("Ursula Le Guin"));
    assert!(!is_valid_name("Ursula (Le) Guin"));
}

#[test]
fn a_name_reads_as_text_wherever_text_is_asked_for() {
    fn length(text: impl AsRef<str>) -> usize {
        text.as_ref().len()
    }
    let name = SubscriberName::parse("Ursula Le Guin".to_string()).ok().unwrap();
    assert_eq!(AsRef::<str>::as_ref(&name), "Ursula Le Guin");
    assert_eq!(length(name), 14);
}
