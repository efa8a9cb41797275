use megamorse::MorseCode;
use megamorse::MorseSequence;
use megamorse::MorseWord;

/// Decodes a word back into a dot/dash string through `to_array`.
fn pattern_of(w: MorseWord) -> String {
    let (len, codes) = w.to_array();
    let mut s = String::new();
    for i in 0..len {
        match codes[i] {
            MorseCode::Dot => s.push('.'),
            MorseCode::Dash => s.push('-'),
        }
    }
    s
}

/// The 36 supported characters with their International Morse patterns.
fn standard_table() -> Vec<(char, &'static str)> {
    vec![
        ('a', ".-"),
        ('b', "-..."),
        ('c', "-.-."),
        ('d', "-.."),
        ('e', "."),
        ('f', "..-."),
        ('g', "--."),
        ('h', "...."),
        ('i', ".."),
        ('j', ".---"),
        ('k', "-.-"),
        ('l', ".-.."),
        ('m', "--"),
        ('n', "-."),
        ('o', "---"),
        ('p', ".--."),
        ('q', "--.-"),
        ('r', ".-."),
        ('s', "..."),
        ('t', "-"),
        ('u', "..-"),
        ('v', "...-"),
        ('w', ".--"),
        ('x', "-..-"),
        ('y', "-.--"),
        ('z', "--.."),
        ('0', "-----"),
        ('1', ".----"),
        ('2', "..---"),
        ('3', "...--"),
        ('4', "....-"),
        ('5', "....."),
        ('6', "-...."),
        ('7', "--..."),
        ('8', "---.."),
        ('9', "----."),
    ]
}

#[test]
fn table_round_trip_matches_standard() {
    for (c, pat) in standard_table() {
        let w = MorseWord::try_from_char(c).unwrap();
        assert_eq!(pattern_of(w), pat, "wrong pattern for {:?}", c);
    }
}

#[test]
fn k_maps_to_dash_dot_dash() {
    let w = MorseWord::try_from_char('k').unwrap();
    assert_eq!(pattern_of(w), "-.-");
    let upper = MorseWord::try_from_char('K').unwrap();
    assert_eq!(upper, w);
}

#[test]
fn table_lengths_are_one_to_five() {
    for (c, pat) in standard_table() {
        let w = MorseWord::try_from_char(c).unwrap();
        assert!(w.len() >= 1 && w.len() <= 5);
        assert_eq!(w.len(), pat.len());
        assert!(!w.is_empty());
    }
}

#[test]
fn to_array_pads_with_dots_beyond_length() {
    let w = MorseWord::try_from_char('t').unwrap();
    let (len, codes) = w.to_array();
    assert_eq!(len, 1);
    assert_eq!(codes[0], MorseCode::Dash);
    for i in len..5 {
        assert_eq!(codes[i], MorseCode::Dot);
    }
}

#[test]
fn to_sequence_interleaves_gaps_at_odd_slots() {
    for (c, _) in standard_table() {
        let w = MorseWord::try_from_char(c).unwrap();
        let (n, codes) = w.to_array();
        let (seq_len, slots) = w.to_sequence();
        assert_eq!(seq_len, 2 * n - 1);
        assert_eq!(seq_len % 2, 1);
        assert!((1..=9).contains(&seq_len));
        for i in 0..9 {
            if i < seq_len && i % 2 == 0 {
                assert_eq!(slots[i], MorseSequence::Code(codes[i / 2]));
            } else {
                assert_eq!(slots[i], MorseSequence::Pause);
            }
        }
    }
}

#[test]
fn construct_from_decoded_array_gives_same_word() {
    for (c, _) in standard_table() {
        let w = MorseWord::try_from_char(c).unwrap();
        let (len, a) = w.to_array();
        let again = match len {
            1 => MorseWord::new([a[0]]),
            2 => MorseWord::new([a[0], a[1]]),
            3 => MorseWord::new([a[0], a[1], a[2]]),
            4 => MorseWord::new([a[0], a[1], a[2], a[3]]),
            _ => MorseWord::new([a[0], a[1], a[2], a[3], a[4]]),
        };
        assert_eq!(again, w, "round trip broke for {:?}", c);
    }
}

#[test]
fn lookup_and_decode_are_repeatable() {
    for (c, _) in standard_table() {
        let w1 = MorseWord::try_from_char(c).unwrap();
        let w2 = MorseWord::try_from_char(c).unwrap();
        assert_eq!(w1, w2);
        assert_eq!(w1.to_array(), w2.to_array());
        assert_eq!(w1.to_sequence(), w2.to_sequence());
        assert_eq!(pattern_of(w1), pattern_of(w2));
    }
}

#[test]
fn new_packs_any_pattern() {
    let w = MorseWord::new([MorseCode::Dash, MorseCode::Dash, MorseCode::Dot, MorseCode::Dash]);
    assert_eq!(pattern_of(w), "--.-");
    assert_eq!(w.len(), 4);
}
