use megamorse::MorseWord;
use megamorse::Unrepresentable;

#[test]
fn lookup_is_case_insensitive_for_all_letters() {
    for lower in 'a'..='z' {
        let upper = lower.to_ascii_uppercase();
        let from_lower = MorseWord::try_from_char(lower).unwrap();
        let from_upper = MorseWord::try_from_char(upper).unwrap();
        assert_eq!(from_lower, from_upper, "case broke for {:?}", lower);
    }
}

#[test]
fn unsupported_characters_are_unrepresentable() {
    for c in [' ', '.', ',', '!', '@', '\u{e9}'] {
        assert_eq!(MorseWord::try_from_char(c), Err(Unrepresentable), "accepted {:?}", c);
    }
}

#[test]
fn more_unsupported_characters() {
    for c in ['?', '-', '_', '\n', '\t', '\u{3042}', '\u{fffd}'] {
        assert!(MorseWord::try_from_char(c).is_err(), "accepted {:?}", c);
    }
}

#[test]
fn all_digits_are_representable() {
    for c in '0'..='9' {
        assert!(MorseWord::try_from_char(c).is_ok());
    }
}
