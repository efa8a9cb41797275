use vstd::prelude::*;
use vstd::string::StrSliceExecFns;

use crate::code::MorseCode;
use crate::sequence::MorseSequence;
use crate::table::canonical_pattern;
use crate::table::representable;
use crate::table::Unrepresentable;
use crate::word::MorseWord;

verus! {

/// One timed signal handed to the output: the line held on, or held off,
/// for the given number of time units.
#[derive(Debug, Clone, Copy, PartialEq, Eq, Structural)]
pub enum Pulse {
    On(usize),
    Off(usize),
}

/// The pulse that plays one Morse element: one unit of "on" for a dot,
/// three units for a dash.
pub open spec fn symbol_pulse(c: MorseCode) -> Pulse {
    match c {
        MorseCode::Dot => Pulse::On(1),
        MorseCode::Dash => Pulse::On(3),
    }
}

/// The pulses that play a pattern of Morse elements: the elements at the
/// even positions, a one-unit pause between each pair of neighbours, and
/// no leading or trailing pause, for `2 * n - 1` pulses in all.
pub open spec fn code_pulses(syms: Seq<MorseCode>) -> Seq<Pulse> {
    Seq::new(
        if syms.len() == 0 {
            0
        } else {
            (2 * syms.len() - 1) as nat
        },
        |k: int|
            if k % 2 == 0 {
                symbol_pulse(syms[k / 2])
            } else {
                Pulse::Off(1)
            },
    )
}

/// The pulses that play one character of text.
pub open spec fn char_pulses(c: char) -> Seq<Pulse> {
    code_pulses(canonical_pattern(c))
}

/// Whether a character separates tokens: the meaning of core's
/// char::is_whitespace, the Unicode White_Space property.
pub uninterp spec fn is_unicode_space(c: char) -> bool;

/// Relies on core's char::is_whitespace: true exactly of the characters
/// with the Unicode White_Space property, a function of the character
/// alone.
pub assume_specification[ char::is_whitespace ](c: char) -> (r: bool)
    ensures
        r == is_unicode_space(c),
;

/// A text plays to the end exactly when each of its characters either
/// separates tokens or has a Morse representation.
pub open spec fn text_ok(s: Seq<char>) -> bool {
    forall|i: int| 0 <= i < s.len() ==> is_unicode_space(#[trigger] s[i]) || representable(s[i])
}

/// A blank text: empty or whitespace throughout. It holds no token, so
/// playing it owes nothing to the decoder and must succeed.
pub open spec fn text_blank(s: Seq<char>) -> bool {
    forall|i: int| 0 <= i < s.len() ==> is_unicode_space(#[trigger] s[i])
}

/// The gap owed before a character that starts or continues a token: a
/// three-unit pause between two characters of one token, a seven-unit
/// pause between two tokens, and nothing before the very first token.
pub open spec fn gap_pulses(seen: bool, in_token: bool) -> Seq<Pulse> {
    if in_token {
        seq![Pulse::Off(3)]
    } else if seen {
        seq![Pulse::Off(7)]
    } else {
        Seq::empty()
    }
}

/// The pulses that playing a text emits, character by character. `seen`
/// says whether some token has already been played, `in_token` whether the
/// character before belongs to a still-open token. Whitespace only closes
/// the open token, so runs of it collapse and leading or trailing
/// whitespace plays nothing; a representable character first pays the gap
/// it owes, then plays its pattern; playback stops at the first
/// unrepresentable character, with the gap it owed already emitted.
pub open spec fn text_pulses(s: Seq<char>, seen: bool, in_token: bool) -> Seq<Pulse>
    decreases s.len(),
{
    if s.len() == 0 {
        Seq::empty()
    } else if is_unicode_space(s[0]) {
        text_pulses(s.skip(1), seen, false)
    } else if representable(s[0]) {
        gap_pulses(seen, in_token) + char_pulses(s[0]) + text_pulses(s.skip(1), true, true)
    } else {
        gap_pulses(seen, in_token)
    }
}

/// One step of `text_ok`: a text plays to the end exactly when its first
/// character is acceptable and the rest plays to the end.
proof fn lemma_text_ok_step(s: Seq<char>)
    requires
        s.len() > 0,
    ensures
        text_ok(s) == ((is_unicode_space(s[0]) || representable(s[0])) && text_ok(s.skip(1))),
{
    if text_ok(s) {
        assert forall|j: int| 0 <= j < s.skip(1).len() implies is_unicode_space(
            #[trigger] s.skip(1)[j],
        ) || representable(s.skip(1)[j]) by {
            assert(s.skip(1)[j] == s[j + 1]);
        }
    }
    if (is_unicode_space(s[0]) || representable(s[0])) && text_ok(s.skip(1)) {
        assert forall|j: int| 0 <= j < s.len() implies is_unicode_space(#[trigger] s[j])
            || representable(s[j]) by {
            if j > 0 {
                assert(s.skip(1)[j - 1] == s[j]);
            }
        }
    }
}

/// Dropping one leading character from a suffix is the next suffix.
proof fn lemma_skip_one(s: Seq<char>, i: int)
    requires
        0 <= i < s.len(),
    ensures
        s.skip(i)[0] == s[i],
        s.skip(i).skip(1) =~= s.skip(i + 1),
        s.skip(i).len() == s.len() - i,
{
    assert(s.skip(i).skip(1) =~= s.skip(i + 1));
}

/// The output capability that playback drives: a device or program outside
/// this crate that holds its line on or off for a requested number of time
/// units and returns once they have elapsed. `emitted` is the abstract
/// history of pulses the device has performed; an operation that returns
/// success accounts for exactly the one pulse asked of it, while after a
/// reported failure nothing is promised of the history. An error aborts
/// playback and is handed back to the player's caller unchanged.
pub trait MorseDecoder {
    /// The error type that the decoder can fail with.
    type Error;

    /// The history of pulses this decoder has performed so far. A decoder
    /// written against verified callers overrides this with its own
    /// accounting; the default, an empty history, lets implementations
    /// outside verified code leave it out.
    open spec fn emitted(&self) -> Seq<Pulse> {
        Seq::empty()
    }

    /// Hold the output on for the given number of time units, then return.
    fn on(&mut self, timeunits: usize) -> (r: Result<(), Self::Error>)
        ensures
            r is Ok ==> final (self).emitted() == old(self).emitted().push(Pulse::On(timeunits)),
    ;

    /// Pause the output for the given number of time units, then return.
    fn off(&mut self, timeunits: usize) -> (r: Result<(), Self::Error>)
        ensures
            r is Ok ==> final (self).emitted() == old(self).emitted().push(Pulse::Off(timeunits)),
    ;
}

/// Errors of Morse playback.
#[derive(Debug)]
pub enum MorsePlayerError<DecoderError> {
    /// The text holds a character with no Morse representation.
    InvalidCharacter,
    /// The decoder itself failed; its error is handed back unchanged.
    DecoderError(DecoderError),
}

impl<DecoderError> From<DecoderError> for MorsePlayerError<DecoderError> {
    /// A bare decoder error converts to playback's wrapping of it.
    fn from(error: DecoderError) -> (r: MorsePlayerError<DecoderError>) {
        MorsePlayerError::DecoderError(error)
    }
}

impl<DecoderError> vstd::std_specs::convert::FromSpecImpl<DecoderError> for MorsePlayerError<DecoderError> {
    open spec fn obeys_from_spec() -> bool {
        true
    }

    open spec fn from_spec(t: DecoderError) -> Self {
        MorsePlayerError::DecoderError(t)
    }
}

/// Plays Morse words or whole texts as timed pulses through an output
/// decoder that it owns exclusively.
pub struct MorsePlayer<T: MorseDecoder> {
    decoder: T,
}

impl<T: MorseDecoder> MorsePlayer<T> {
    /// The history of pulses the owned decoder has performed.
    pub closed spec fn emitted(&self) -> Seq<Pulse> {
        self.decoder.emitted()
    }

    /// Creates a player that owns the given decoder.
    pub fn new(decoder: T) -> (p: MorsePlayer<T>)
        ensures
            p.emitted() == decoder.emitted(),
    {
        MorsePlayer { decoder }
    }

    /// Plays one word: each element one unit of "on" for a dot or three
    /// for a dash, one unit of "off" between neighbouring elements, and no
    /// leading or trailing gap, so that callers can compose words with
    /// gaps of their own. On success exactly those pulses have been
    /// emitted, in order; if the decoder fails, its error comes back
    /// wrapped and playback of the word stops where it was.
    pub fn play_word(&mut self, word: MorseWord) -> (r: Result<(), MorsePlayerError<T::Error>>)
        requires
            word.wf(),
        ensures
            (match r {
                Ok(()) => final (self).emitted() == old(self).emitted() + code_pulses(
                    word.symbols(),
                ),
                Err(e) => e is DecoderError,
            }),
    {
        let (seq_len, slots) = word.to_sequence();
        let ghost target = code_pulses(word.symbols());
        proof {
            word.lemma_symbols_len();
            assert(target.len() == seq_len);
            assert(self.emitted() =~= old(self).emitted() + target.take(0));
        }
        let mut j: usize = 0;
        while j < seq_len
            invariant
                word.wf(),
                seq_len == 2 * word.spec_len() - 1,
                1 <= seq_len <= 9,
                j <= seq_len,
                forall|i: int|
                    0 <= i < seq_len && i % 2 == 0 ==> slots@[i] == MorseSequence::Code(
                        word.symbols()[i / 2],
                    ),
                forall|i: int| 0 <= i < 9 && i % 2 == 1 ==> slots@[i] == MorseSequence::Pause,
                target == code_pulses(word.symbols()),
                target.len() == seq_len,
                self.emitted() == old(self).emitted() + target.take(j as int),
            decreases seq_len - j,
        {
            let res = match slots[j] {
                MorseSequence::Code(MorseCode::Dot) => self.decoder.on(1),
                MorseSequence::Code(MorseCode::Dash) => self.decoder.on(3),
                MorseSequence::Pause => self.decoder.off(1),
            };
            match res {
                Ok(()) => {},
                Err(e) => {
                    return Err(MorsePlayerError::DecoderError(e));
                },
            }
            proof {
                if j % 2 == 0 {
                    assert(j / 2 < word.spec_len());
                    assert(target[j as int] == symbol_pulse(word.symbols()[j as int / 2]));
                } else {
                    assert(target[j as int] == Pulse::Off(1));
                }
                assert(self.emitted() =~= old(self).emitted() + target.take(j as int + 1));
            }
            j = j + 1;
        }
        proof {
            assert(target.take(seq_len as int) =~= target);
        }
        Ok(())
    }

    /// Plays a whole text. The text is cut into tokens at runs of
    /// whitespace; tokens are separated by a seven-unit pause, characters
    /// within a token by a three-unit pause, and each character plays its
    /// word as `play_word` does. Leading, trailing and repeated whitespace
    /// produce no extra pauses, and a blank text — empty or whitespace
    /// throughout — reaches no decoder call at all and succeeds with
    /// nothing emitted. The first unrepresentable character aborts
    /// playback with `InvalidCharacter`: everything before it, including
    /// the pause it owed, has already reached the decoder and stays
    /// emitted. A decoder failure aborts playback with the decoder's own
    /// error, wrapped unchanged.
    pub fn play_str(&mut self, source: &str) -> (r: Result<(), MorsePlayerError<T::Error>>)
        ensures
            (match r {
                Ok(()) => text_ok(source@) && final (self).emitted() == old(self).emitted()
                    + text_pulses(source@, false, false),
                Err(MorsePlayerError::InvalidCharacter) => !text_ok(source@) && final (self).emitted()
                    == old(self).emitted() + text_pulses(source@, false, false),
                Err(MorsePlayerError::DecoderError(_)) => true,
            }),
            !text_ok(source@) ==> r is Err,
            text_blank(source@) ==> r is Ok,
    {
        let n = source.unicode_len();
        let mut i: usize = 0;
        let mut seen: bool = false;
        let mut in_token: bool = false;
        let ghost mut acc: Seq<Pulse> = Seq::empty();
        proof {
            assert(source@.skip(0) =~= source@);
            assert(self.emitted() =~= old(self).emitted() + acc);
            assert(acc + text_pulses(source@.skip(0), false, false) =~= text_pulses(
                source@,
                false,
                false,
            ));
        }
        while i < n
            invariant
                n == source@.len(),
                i <= n,
                self.emitted() == old(self).emitted() + acc,
                text_pulses(source@, false, false) == acc + text_pulses(
                    source@.skip(i as int),
                    seen,
                    in_token,
                ),
                text_ok(source@) == text_ok(source@.skip(i as int)),
            decreases n - i,
        {
            let c = source.get_char(i);
            let ghost rest = source@.skip(i as int);
            proof {
                lemma_skip_one(source@, i as int);
                lemma_text_ok_step(rest);
            }
            if c.is_whitespace() {
                in_token = false;
                proof {
                    assert(text_pulses(rest, seen, in_token) == text_pulses(
                        source@.skip(i as int + 1),
                        seen,
                        false,
                    ));
                }
            } else {
                let ghost gap = gap_pulses(seen, in_token);
                if in_token {
                    match self.decoder.off(3) {
                        Ok(()) => {},
                        Err(e) => {
                            return Err(MorsePlayerError::DecoderError(e));
                        },
                    }
                } else if seen {
                    match self.decoder.off(7) {
                        Ok(()) => {},
                        Err(e) => {
                            return Err(MorsePlayerError::DecoderError(e));
                        },
                    }
                }
                proof {
                    acc = acc + gap;
                    assert(self.emitted() =~= old(self).emitted() + acc);
                }
                match MorseWord::try_from_char(c) {
                    Err(Unrepresentable) => {
                        proof {
                            assert(text_pulses(rest, seen, in_token) == gap);
                            assert(acc =~= text_pulses(source@, false, false));
                            assert(!text_ok(rest));
                        }
                        return Err(MorsePlayerError::InvalidCharacter);
                    },
                    Ok(w) => {
                        match self.play_word(w) {
                            Ok(()) => {},
                            Err(e) => {
                                return Err(e);
                            },
                        }
                        proof {
                            assert(text_pulses(rest, seen, in_token) == gap + char_pulses(c)
                                + text_pulses(source@.skip(i as int + 1), true, true));
                            acc = acc + char_pulses(c);
                            assert(self.emitted() =~= old(self).emitted() + acc);
                            assert(acc + text_pulses(source@.skip(i as int + 1), true, true)
                                =~= text_pulses(source@, false, false));
                        }
                        seen = true;
                        in_token = true;
                    },
                }
            }
            i = i + 1;
        }
        proof {
            assert(source@.skip(n as int).len() == 0);
            assert(text_pulses(source@.skip(n as int), seen, in_token) =~= Seq::<Pulse>::empty());
            assert(acc + text_pulses(source@.skip(n as int), seen, in_token) =~= acc);
            assert(text_ok(source@.skip(n as int)));
        }
        Ok(())
    }
}

} // verus!
