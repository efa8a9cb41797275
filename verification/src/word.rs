use vstd::prelude::*;

use crate::code::MorseCode;
use crate::sequence::MorseSequence;

verus! {

/// The bit at position `sh` of a packed byte, as 0 or 1.
spec fn bit_of(code: u8, sh: u8) -> u8 {
    (code >> sh) & 1
}

/// The Morse pattern of one character, packed into a single byte: the low
/// three bits hold the number of elements (1 to 5), and for each element
/// `i` the bit at position `3 + i` holds that element's value (0 for a dot,
/// 1 for a dash). All bits above the last element are zero.
#[derive(Debug, Clone, Copy, PartialEq, Eq, Structural)]
pub struct MorseWord {
    code: u8,
}

impl MorseWord {
    /// Number of Morse elements stored in the word.
    pub closed spec fn spec_len(self) -> nat {
        (self.code & 0x07) as nat
    }

    /// The element stored at position `i`, read from bit `3 + i`.
    pub closed spec fn spec_symbol(self, i: int) -> MorseCode {
        if bit_of(self.code, (3 + i) as u8) == 1 {
            MorseCode::Dash
        } else {
            MorseCode::Dot
        }
    }

    /// The word's pattern as a mathematical sequence of elements.
    pub closed spec fn symbols(self) -> Seq<MorseCode> {
        Seq::new(self.spec_len(), |i: int| self.spec_symbol(i))
    }

    /// Well-formedness: between one and five elements, and every bit above
    /// the last element is zero, so that equal patterns are equal bytes.
    pub closed spec fn wf(self) -> bool {
        &&& 1 <= self.spec_len() <= 5
        &&& self.code >> ((3 + self.spec_len()) as u8) == 0
    }

    /// Packs between one and five Morse elements into a word.
    pub fn new<const N: usize>(codes: [MorseCode; N]) -> (w: MorseWord)
        requires
            1 <= N <= 5,
        ensures
            w.wf(),
            w.spec_len() == N,
            w.symbols() == codes@,
    {
        // the bit-level proofs below need the element count as a value
        let n: usize = N;
        let mut code: u8 = (n as u8) & 0x07;
        proof {
            assert(((n as u8) & 0x07) == (n as u8) && ((n as u8) & 0x07) >> 3 == 0)
                by (bit_vector)
                requires
                    n <= 5,
            ;
        }
        let mut i: usize = 0;
        while i < N
            invariant
                1 <= N <= 5,
                i <= N,
                code & 0x07 == N as u8,
                code >> ((3 + i) as u8) == 0,
                forall|j: int|
                    0 <= j < i ==> bit_of(code, (3 + j) as u8) == (#[trigger] codes@[j]).spec_bit(),
            decreases N - i,
        {
            let b: u8 = codes[i].to_bit();
            let sh: u8 = 3 + (i as u8);
            let ghost code0 = code;
            code = code | (b << sh);
            proof {
                assert(sh == (3 + i as int) as u8);
                assert((code0 | (b << sh)) & 0x07 == code0 & 0x07) by (bit_vector)
                    requires
                        3 <= sh < 8,
                        b <= 1,
                ;
                assert(bit_of(code0 | (b << sh), sh) == b) by (bit_vector)
                    requires
                        sh < 8,
                        b <= 1,
                        code0 >> sh == 0,
                ;
                assert((code0 | (b << sh)) >> ((sh + 1) as u8) == 0) by (bit_vector)
                    requires
                        sh < 8,
                        b <= 1,
                        code0 >> sh == 0,
                ;
                assert forall|j: int| 0 <= j < i implies bit_of(code, (3 + j) as u8) == (
                #[trigger] codes@[j]).spec_bit() by {
                    let k = (3 + j) as u8;
                    assert(bit_of(code0 | (b << sh), k) == bit_of(code0, k)) by (bit_vector)
                        requires
                            k < sh,
                            sh < 8,
                            b <= 1,
                    ;
                }
                assert(bit_of(code, (3 + i as int) as u8) == codes@[i as int].spec_bit());
            }
            i = i + 1;
        }
        let w = MorseWord { code };
        proof {
            assert(w.spec_len() == N);
            assert(w.wf());
            assert forall|j: int| 0 <= j < N implies w.spec_symbol(j) == codes@[j] by {
                assert(bit_of(code, (3 + j) as u8) == codes@[j].spec_bit());
            }
            assert(w.symbols() =~= codes@);
        }
        w
    }

    /// The pattern has exactly as many elements as the stored length.
    pub proof fn lemma_symbols_len(self)
        ensures
            self.symbols().len() == self.spec_len(),
    {
    }

    /// Every well-formed word carries between one and five elements, and
    /// its pattern has exactly that many.
    pub proof fn lemma_wf_len(self)
        requires
            self.wf(),
        ensures
            1 <= self.spec_len() <= 5,
            self.symbols().len() == self.spec_len(),
    {
    }

    /// The packed byte is determined by the pattern: two well-formed words
    /// with the same element sequence are the same word. Re-packing a
    /// decoded pattern therefore gives back exactly the word it came from.
    pub proof fn lemma_symbols_determine_word(w1: MorseWord, w2: MorseWord)
        requires
            w1.wf(),
            w2.wf(),
            w1.symbols() == w2.symbols(),
        ensures
            w1 == w2,
    {
        let c1 = w1.code;
        let c2 = w2.code;
        let n = w1.spec_len();
        assert(w1.symbols().len() == w1.spec_len());
        assert(w2.symbols().len() == w2.spec_len());
        assert(w2.spec_len() == n);
        assert(c1 & 0x07 == c2 & 0x07);
        assert(w1.symbols()[0] == w1.spec_symbol(0));
        assert(w2.symbols()[0] == w2.spec_symbol(0));
        assert(w1.spec_symbol(0) == w2.spec_symbol(0));
        if n >= 2 {
            assert(w1.symbols()[1] == w1.spec_symbol(1));
            assert(w2.symbols()[1] == w2.spec_symbol(1));
            assert(w1.spec_symbol(1) == w2.spec_symbol(1));
        }
        if n >= 3 {
            assert(w1.symbols()[2] == w1.spec_symbol(2));
            assert(w2.symbols()[2] == w2.spec_symbol(2));
            assert(w1.spec_symbol(2) == w2.spec_symbol(2));
        }
        if n >= 4 {
            assert(w1.symbols()[3] == w1.spec_symbol(3));
            assert(w2.symbols()[3] == w2.spec_symbol(3));
            assert(w1.spec_symbol(3) == w2.spec_symbol(3));
        }
        if n == 5 {
            assert(w1.symbols()[4] == w1.spec_symbol(4));
            assert(w2.symbols()[4] == w2.spec_symbol(4));
            assert(w1.spec_symbol(4) == w2.spec_symbol(4));
        }
        if n == 1 {
            assert(c1 == c2) by (bit_vector)
                requires
                    c1 & 0x07 == c2 & 0x07,
                    ((c1 >> 3) & 1 == 1 <==> (c2 >> 3) & 1 == 1),
                    c1 >> 4 == 0,
                    c2 >> 4 == 0,
            ;
        } else if n == 2 {
            assert(c1 == c2) by (bit_vector)
                requires
                    c1 & 0x07 == c2 & 0x07,
                    ((c1 >> 3) & 1 == 1 <==> (c2 >> 3) & 1 == 1),
                    ((c1 >> 4) & 1 == 1 <==> (c2 >> 4) & 1 == 1),
                    c1 >> 5 == 0,
                    c2 >> 5 == 0,
            ;
        } else if n == 3 {
            assert(c1 == c2) by (bit_vector)
                requires
                    c1 & 0x07 == c2 & 0x07,
                    ((c1 >> 3) & 1 == 1 <==> (c2 >> 3) & 1 == 1),
                    ((c1 >> 4) & 1 == 1 <==> (c2 >> 4) & 1 == 1),
                    ((c1 >> 5) & 1 == 1 <==> (c2 >> 5) & 1 == 1),
                    c1 >> 6 == 0,
                    c2 >> 6 == 0,
            ;
        } else if n == 4 {
            assert(c1 == c2) by (bit_vector)
                requires
                    c1 & 0x07 == c2 & 0x07,
                    ((c1 >> 3) & 1 == 1 <==> (c2 >> 3) & 1 == 1),
                    ((c1 >> 4) & 1 == 1 <==> (c2 >> 4) & 1 == 1),
                    ((c1 >> 5) & 1 == 1 <==> (c2 >> 5) & 1 == 1),
                    ((c1 >> 6) & 1 == 1 <==> (c2 >> 6) & 1 == 1),
                    c1 >> 7 == 0,
                    c2 >> 7 == 0,
            ;
        } else {
            assert(c1 == c2) by (bit_vector)
                requires
                    c1 & 0x07 == c2 & 0x07,
                    ((c1 >> 3) & 1 == 1 <==> (c2 >> 3) & 1 == 1),
                    ((c1 >> 4) & 1 == 1 <==> (c2 >> 4) & 1 == 1),
                    ((c1 >> 5) & 1 == 1 <==> (c2 >> 5) & 1 == 1),
                    ((c1 >> 6) & 1 == 1 <==> (c2 >> 6) & 1 == 1),
                    ((c1 >> 7) & 1 == 1 <==> (c2 >> 7) & 1 == 1),
            ;
        }
    }

    /// Number of elements in the word.
    pub fn len(&self) -> (n: usize)
        ensures
            n == self.spec_len(),
    {
        (self.code & 0x07) as usize
    }

    /// True only for a zero-length word. No constructor of this crate can
    /// produce one, so on any word it hands out this returns false; the
    /// accessor is kept as a defensive companion to `len`.
    pub fn is_empty(&self) -> (e: bool)
        ensures
            e == (self.spec_len() == 0),
    {
        self.len() == 0
    }

    /// The element stored at position `i`; a filler dot above the length.
    fn symbol_at(&self, i: usize) -> (c: MorseCode)
        requires
            i < 5,
        ensures
            c == self.spec_symbol(i as int),
    {
        let sh: u8 = 3 + (i as u8);
        proof {
            assert(sh == (3 + i as int) as u8);
        }
        if (self.code >> sh) & 1 == 1 {
            MorseCode::Dash
        } else {
            MorseCode::Dot
        }
    }

    /// Every position at and above the word's length reads as a dot, since
    /// a well-formed word has all high bits zero.
    proof fn lemma_filler_is_dot(self, i: int)
        requires
            self.wf(),
            self.spec_len() <= i < 5,
        ensures
            self.spec_symbol(i) == MorseCode::Dot,
    {
        let c = self.code;
        let lo = (3 + self.spec_len()) as u8;
        let sh = (3 + i) as u8;
        assert((c >> sh) & 1 == 0) by (bit_vector)
            requires
                c >> lo == 0,
                lo <= sh < 8,
        ;
    }

    /// Unpacks the word into its element count and a fixed five-slot array.
    /// Exactly the first `len` slots carry the word's pattern; the slots at
    /// and above `len` are defined filler dots, which callers must not read
    /// as pattern.
    pub fn to_array(self) -> (r: (usize, [MorseCode; 5]))
        requires
            self.wf(),
        ensures
            r.0 == self.spec_len(),
            1 <= r.0 <= 5,
            forall|i: int| 0 <= i < r.0 ==> r.1@[i] == self.symbols()[i],
            forall|i: int| r.0 <= i < 5 ==> r.1@[i] == MorseCode::Dot,
    {
        let n = self.len();
        let codes = [
            self.symbol_at(0),
            self.symbol_at(1),
            self.symbol_at(2),
            self.symbol_at(3),
            self.symbol_at(4),
        ];
        proof {
            assert forall|i: int| self.spec_len() <= i < 5 implies self.spec_symbol(i)
                == MorseCode::Dot by {
                self.lemma_filler_is_dot(i);
            }
        }
        (n, codes)
    }

    /// Expands the word into playable slots: its elements at the even
    /// positions and a one-unit pause at every odd position in between.
    /// The logical length is `2 * len - 1`, always odd and at most 9; the
    /// slots at and above it are defined filler pauses, which callers must
    /// not read as pattern.
    pub fn to_sequence(self) -> (r: (usize, [MorseSequence; 9]))
        requires
            self.wf(),
        ensures
            r.0 == 2 * self.spec_len() - 1,
            1 <= r.0 <= 9,
            r.0 % 2 == 1,
            forall|i: int|
                0 <= i < r.0 && i % 2 == 0 ==> r.1@[i] == MorseSequence::Code(
                    self.symbols()[i / 2],
                ),
            forall|i: int| 0 <= i < 9 && i % 2 == 1 ==> r.1@[i] == MorseSequence::Pause,
            forall|i: int| r.0 <= i < 9 ==> r.1@[i] == MorseSequence::Pause,
    {
        let n = self.len();
        let (_, codes) = self.to_array();
        let mut sequence = [MorseSequence::Pause; 9];
        let mut k: usize = 0;
        while k < n
            invariant
                n == self.spec_len(),
                self.wf(),
                k <= n <= 5,
                forall|i: int| 0 <= i < n ==> codes@[i] == self.symbols()[i],
                sequence@.len() == 9,
                forall|i: int|
                    0 <= i < 9 && i % 2 == 1 ==> #[trigger] sequence@[i] == MorseSequence::Pause,
                forall|i: int|
                    0 <= i < 9 && i % 2 == 0 && i / 2 < k ==> #[trigger] sequence@[i]
                        == MorseSequence::Code(self.symbols()[i / 2]),
                forall|i: int|
                    0 <= i < 9 && i % 2 == 0 && i / 2 >= k ==> #[trigger] sequence@[i]
                        == MorseSequence::Pause,
            decreases n - k,
        {
            sequence[2 * k] = MorseSequence::Code(codes[k]);
            k = k + 1;
        }
        (2 * n - 1, sequence)
    }
}

} // verus!
