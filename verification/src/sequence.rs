use vstd::prelude::*;

use crate::code::MorseCode;

verus! {

/// One playable slot of an expanded word: either a Morse element or the
/// one-unit pause that separates two elements of the same character.
#[derive(Debug, Clone, Copy, PartialEq, Eq, Structural)]
pub enum MorseSequence {
    Code(MorseCode),
    Pause,
}

} // verus!
