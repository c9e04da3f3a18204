//! Reading and writing NMEA 0183 sentences.

pub mod bounded;
pub mod error;
pub mod names;
pub mod generate;
pub mod parse;
pub mod position;
pub mod readback;
pub mod roundtrip;
pub mod text;
pub mod sentence_type;
pub mod sentences;
pub mod strings;

pub use error::{Error, UnknownReason};
pub use sentence_type::SentenceType;
pub use generate::{GenerateNmeaBody, generate_sentence};
pub use parse::{NmeaSentence, ParseResult, SENTENCE_MAX_LEN, TEXT_PARAMETER_MAX_LEN, parse_bytes, parse_nmea_sentence, parse_str};
pub use position::{Hms, LatLon};
pub use text::Number;
