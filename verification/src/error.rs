//! The ways in which reading a sentence can fail.

use vstd::prelude::*;

use crate::sentence_type::SentenceType;

verus! {

/// Why a sentence could not be read.
#[derive(Debug, Clone, Copy, PartialEq, Eq, Structural)]
pub enum Error {
    /// The sentence or one of its fields does not follow the grammar.
    ParsingError,
    /// The sentence is longer than `SENTENCE_MAX_LEN` bytes; the length is given.
    SentenceLength(usize),
    /// The checksum after `*` is not the one computed over the sentence.
    ChecksumMismatch { calculated: u8, found: u8 },
    /// A sentence parser was handed a sentence of another type.
    WrongSentenceHeader { expected: SentenceType, found: SentenceType },
    /// The input holds a character outside ASCII.
    ASCII,
    /// The input bytes are not valid UTF-8.
    Utf8Decoding,
    /// The sentence type is known but its parser is switched off.
    DisabledSentence,
    /// A text parameter is longer than the space kept for it.
    ParameterLength { max_length: usize, parameter_length: usize },
    /// The sentence is well formed but carries no usable data.
    Unknown(UnknownReason),
}

/// The cases in which a well-formed sentence is still refused.
#[derive(Debug, Clone, Copy, PartialEq, Eq, Structural)]
pub enum UnknownReason {
    /// A DBS sentence gives the depth in none of its three units.
    NoWaterDepth,
}

} // verus!
