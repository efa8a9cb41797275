//! International Morse code as verified data: a bit-packed codec that maps
//! one character's dot/dash pattern into a single byte, a lookup table for
//! the 36 supported characters, and a playback driver that expands words
//! into timed on/off pulses through a caller-supplied output.

mod code;
mod player;
mod sequence;
mod table;
mod word;

pub use code::MorseCode;
pub use player::char_pulses;
pub use player::code_pulses;
pub use player::gap_pulses;
pub use player::is_unicode_space;
pub use player::symbol_pulse;
pub use player::text_blank;
pub use player::text_ok;
pub use player::text_pulses;
pub use player::MorseDecoder;
pub use player::MorsePlayer;
pub use player::MorsePlayerError;
pub use player::Pulse;
pub use sequence::MorseSequence;
pub use table::canonical_pattern;
pub use table::lemma_case_insensitive;
pub use table::lemma_lookup_deterministic;
pub use table::lemma_table_entry_length;
pub use table::representable;
pub use table::Unrepresentable;
pub use word::MorseWord;
