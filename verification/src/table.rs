use vstd::prelude::*;

use crate::code::MorseCode;
use crate::code::MorseCode::Dash;
use crate::code::MorseCode::Dot;
use crate::word::MorseWord;

verus! {

/// Lookup failure: the character has no Morse representation.
#[derive(Debug, Clone, Copy, PartialEq, Eq, Structural)]
pub struct Unrepresentable;

/// The International Morse Code pattern of a character: defined for the 26
/// letters (case-insensitively) and the 10 digits, empty for every other
/// character.
pub open spec fn canonical_pattern(c: char) -> Seq<MorseCode> {
    match c {
        'a' | 'A' => seq![Dot, Dash],
        'b' | 'B' => seq![Dash, Dot, Dot, Dot],
        'c' | 'C' => seq![Dash, Dot, Dash, Dot],
        'd' | 'D' => seq![Dash, Dot, Dot],
        'e' | 'E' => seq![Dot],
        'f' | 'F' => seq![Dot, Dot, Dash, Dot],
        'g' | 'G' => seq![Dash, Dash, Dot],
        'h' | 'H' => seq![Dot, Dot, Dot, Dot],
        'i' | 'I' => seq![Dot, Dot],
        'j' | 'J' => seq![Dot, Dash, Dash, Dash],
        'k' | 'K' => seq![Dash, Dot, Dash],
        'l' | 'L' => seq![Dot, Dash, Dot, Dot],
        'm' | 'M' => seq![Dash, Dash],
        'n' | 'N' => seq![Dash, Dot],
        'o' | 'O' => seq![Dash, Dash, Dash],
        'p' | 'P' => seq![Dot, Dash, Dash, Dot],
        'q' | 'Q' => seq![Dash, Dash, Dot, Dash],
        'r' | 'R' => seq![Dot, Dash, Dot],
        's' | 'S' => seq![Dot, Dot, Dot],
        't' | 'T' => seq![Dash],
        'u' | 'U' => seq![Dot, Dot, Dash],
        'v' | 'V' => seq![Dot, Dot, Dot, Dash],
        'w' | 'W' => seq![Dot, Dash, Dash],
        'x' | 'X' => seq![Dash, Dot, Dot, Dash],
        'y' | 'Y' => seq![Dash, Dot, Dash, Dash],
        'z' | 'Z' => seq![Dash, Dash, Dot, Dot],
        '0' => seq![Dash, Dash, Dash, Dash, Dash],
        '1' => seq![Dot, Dash, Dash, Dash, Dash],
        '2' => seq![Dot, Dot, Dash, Dash, Dash],
        '3' => seq![Dot, Dot, Dot, Dash, Dash],
        '4' => seq![Dot, Dot, Dot, Dot, Dash],
        '5' => seq![Dot, Dot, Dot, Dot, Dot],
        '6' => seq![Dash, Dot, Dot, Dot, Dot],
        '7' => seq![Dash, Dash, Dot, Dot, Dot],
        '8' => seq![Dash, Dash, Dash, Dot, Dot],
        '9' => seq![Dash, Dash, Dash, Dash, Dot],
        _ => Seq::empty(),
    }
}

/// True of the 36 characters the table covers: letters of either case and
/// digits. Everything else, punctuation, whitespace and non-ASCII included,
/// has no Morse representation.
pub open spec fn representable(c: char) -> bool {
    canonical_pattern(c).len() > 0
}

/// Packs one element and proves the packed pattern equals it.
fn word1(a: MorseCode) -> (w: MorseWord)
    ensures
        w.wf(),
        w.symbols() == seq![a],
{
    let w = MorseWord::new([a]);
    proof {
        assert(w.symbols() =~= seq![a]);
    }
    w
}

/// Packs two elements and proves the packed pattern equals them.
fn word2(a: MorseCode, b: MorseCode) -> (w: MorseWord)
    ensures
        w.wf(),
        w.symbols() == seq![a, b],
{
    let w = MorseWord::new([a, b]);
    proof {
        assert(w.symbols() =~= seq![a, b]);
    }
    w
}

/// Packs three elements and proves the packed pattern equals them.
fn word3(a: MorseCode, b: MorseCode, c: MorseCode) -> (w: MorseWord)
    ensures
        w.wf(),
        w.symbols() == seq![a, b, c],
{
    let w = MorseWord::new([a, b, c]);
    proof {
        assert(w.symbols() =~= seq![a, b, c]);
    }
    w
}

/// Packs four elements and proves the packed pattern equals them.
fn word4(a: MorseCode, b: MorseCode, c: MorseCode, d: MorseCode) -> (w: MorseWord)
    ensures
        w.wf(),
        w.symbols() == seq![a, b, c, d],
{
    let w = MorseWord::new([a, b, c, d]);
    proof {
        assert(w.symbols() =~= seq![a, b, c, d]);
    }
    w
}

/// Packs five elements and proves the packed pattern equals them.
fn word5(a: MorseCode, b: MorseCode, c: MorseCode, d: MorseCode, e: MorseCode) -> (w: MorseWord)
    ensures
        w.wf(),
        w.symbols() == seq![a, b, c, d, e],
{
    let w = MorseWord::new([a, b, c, d, e]);
    proof {
        assert(w.symbols() =~= seq![a, b, c, d, e]);
    }
    w
}

impl MorseWord {
    /// Looks a character up in the International Morse table: the 26
    /// letters, matched case-insensitively, and the 10 digits. Returns the
    /// packed word carrying exactly the canonical pattern, and fails if and
    /// only if the character is unrepresentable.
    pub fn try_from_char(c: char) -> (r: Result<MorseWord, Unrepresentable>)
        ensures
            r is Ok <==> representable(c),
            (r matches Ok(w) ==> w.wf() && w.symbols() == canonical_pattern(c)),
    {
        match c {
            'a' | 'A' => Ok(word2(Dot, Dash)),
            'b' | 'B' => Ok(word4(Dash, Dot, Dot, Dot)),
            'c' | 'C' => Ok(word4(Dash, Dot, Dash, Dot)),
            'd' | 'D' => Ok(word3(Dash, Dot, Dot)),
            'e' | 'E' => Ok(word1(Dot)),
            'f' | 'F' => Ok(word4(Dot, Dot, Dash, Dot)),
            'g' | 'G' => Ok(word3(Dash, Dash, Dot)),
            'h' | 'H' => Ok(word4(Dot, Dot, Dot, Dot)),
            'i' | 'I' => Ok(word2(Dot, Dot)),
            'j' | 'J' => Ok(word4(Dot, Dash, Dash, Dash)),
            'k' | 'K' => Ok(word3(Dash, Dot, Dash)),
            'l' | 'L' => Ok(word4(Dot, Dash, Dot, Dot)),
            'm' | 'M' => Ok(word2(Dash, Dash)),
            'n' | 'N' => Ok(word2(Dash, Dot)),
            'o' | 'O' => Ok(word3(Dash, Dash, Dash)),
            'p' | 'P' => Ok(word4(Dot, Dash, Dash, Dot)),
            'q' | 'Q' => Ok(word4(Dash, Dash, Dot, Dash)),
            'r' | 'R' => Ok(word3(Dot, Dash, Dot)),
            's' | 'S' => Ok(word3(Dot, Dot, Dot)),
            't' | 'T' => Ok(word1(Dash)),
            'u' | 'U' => Ok(word3(Dot, Dot, Dash)),
            'v' | 'V' => Ok(word4(Dot, Dot, Dot, Dash)),
            'w' | 'W' => Ok(word3(Dot, Dash, Dash)),
            'x' | 'X' => Ok(word4(Dash, Dot, Dot, Dash)),
            'y' | 'Y' => Ok(word4(Dash, Dot, Dash, Dash)),
            'z' | 'Z' => Ok(word4(Dash, Dash, Dot, Dot)),
            '0' => Ok(word5(Dash, Dash, Dash, Dash, Dash)),
            '1' => Ok(word5(Dot, Dash, Dash, Dash, Dash)),
            '2' => Ok(word5(Dot, Dot, Dash, Dash, Dash)),
            '3' => Ok(word5(Dot, Dot, Dot, Dash, Dash)),
            '4' => Ok(word5(Dot, Dot, Dot, Dot, Dash)),
            '5' => Ok(word5(Dot, Dot, Dot, Dot, Dot)),
            '6' => Ok(word5(Dash, Dot, Dot, Dot, Dot)),
            '7' => Ok(word5(Dash, Dash, Dot, Dot, Dot)),
            '8' => Ok(word5(Dash, Dash, Dash, Dot, Dot)),
            '9' => Ok(word5(Dash, Dash, Dash, Dash, Dot)),
            _ => Err(Unrepresentable),
        }
    }
}

/// Every entry of the table holds between one and five elements: no
/// representable character packs to a word outside that range.
pub proof fn lemma_table_entry_length(c: char)
    requires
        representable(c),
    ensures
        1 <= canonical_pattern(c).len() <= 5,
{
}

/// Case-insensitivity of the table: an upper-case letter, which sits 32
/// code points below its lower-case form, has exactly the pattern of the
/// lower-case letter, and both are representable.
pub proof fn lemma_case_insensitive(lo: char, up: char)
    requires
        'a' <= lo <= 'z',
        up as u32 == lo as u32 - 32,
    ensures
        canonical_pattern(up) == canonical_pattern(lo),
        representable(up),
        representable(lo),
{
}

/// Lookup is pure: any two well-formed words that both carry the table's
/// pattern for the same character are the very same word, so repeated
/// lookups of one character cannot yield different words.
pub proof fn lemma_lookup_deterministic(c: char, w1: MorseWord, w2: MorseWord)
    requires
        w1.wf(),
        w2.wf(),
        w1.symbols() == canonical_pattern(c),
        w2.symbols() == canonical_pattern(c),
    ensures
        w1 == w2,
{
    crate::word::MorseWord::lemma_symbols_determine_word(w1, w2);
}

} // verus!
