use vstd::prelude::*;

verus! {

/// One Morse element: a short pulse (dot) or a long pulse (dash).
#[derive(Debug, Clone, Copy, PartialEq, Eq, Structural)]
pub enum MorseCode {
    Dot,
    Dash,
}

impl MorseCode {
    /// The bit value that stands for this element inside a packed word:
    /// 0 for a dot, 1 for a dash.
    pub open spec fn spec_bit(self) -> u8 {
        match self {
            MorseCode::Dot => 0,
            MorseCode::Dash => 1,
        }
    }

    /// Bit value stored for this element when packing a word.
    pub(crate) fn to_bit(self) -> (b: u8)
        ensures
            b == self.spec_bit(),
    {
        match self {
            MorseCode::Dot => 0,
            MorseCode::Dash => 1,
        }
    }
}

} // verus!
