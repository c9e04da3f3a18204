//! ROT - Rate Of Turn: `$--ROT,x.x,A*hh`
//! 1. Rate of turn, degrees per minute, negative when the bow turns to port;
//! 2. Status, `A` when the data is valid.

use vstd::prelude::*;
use vstd::string::*;

use crate::error::Error;
use crate::generate::GenerateNmeaBody;
use crate::parse::NmeaSentence;
use crate::sentence_type::SentenceType;
use crate::strings::{decimal, opt_number_text, push_char, push_opt_number};
use crate::text::{
    Number, chars_of, exec_field_starts, field_spans, field_starts, fnum, opt_float_field,
    opt_num_is, opt_num_view, opt_std_float_field, read_opt_float_field, split_fields,
};

verus! {

/// The data of an ROT sentence.
#[derive(Debug, Clone, PartialEq)]
pub struct RotData {
    /// Rate of turn in degrees per minute, negative when the bow turns to port.
    pub rate: Option<Number>,
    /// Whether the data is marked valid.
    pub valid: Option<bool>,
}

/// The ROT grammar over the comma-separated fields.
pub open spec fn rot_accepts(f: Seq<Seq<char>>) -> bool {
    &&& f.len() >= 2
    &&& opt_float_field(f[0]) is Some
}

/// What reading the data `data` of an ROT sentence gives: the fields it
/// holds when the grammar accepts the data, a parsing error otherwise.
pub open spec fn rot_data_result(data: Seq<char>, r: Result<RotData, Error>) -> bool {
    let f = split_fields(data);
    if rot_accepts(f) {
        r matches Ok(d) && {
            &&& opt_num_is(d.rate, fnum(f[0]))
            &&& d.valid == Some(field_starts(f[1], 'A'))
        }
    } else {
        r == Err::<RotData, Error>(Error::ParsingError)
    }
}

/// What [`parse_rot`] gives for a sentence.
pub open spec fn rot_result(s: NmeaSentence, r: Result<RotData, Error>) -> bool {
    if s.message_id != SentenceType::ROT {
        r == Err::<RotData, Error>(
            Error::WrongSentenceHeader { expected: SentenceType::ROT, found: s.message_id },
        )
    } else {
        rot_data_result(s.data@, r)
    }
}

/// Reads the data of an ROT sentence.
pub fn parse_rot(sentence: NmeaSentence<'_>) -> (r: Result<RotData, Error>)
    ensures
        rot_result(sentence, r),
{
    if sentence.message_id != SentenceType::ROT {
        return Err(Error::WrongSentenceHeader { expected: SentenceType::ROT, found: sentence.message_id });
    }
    let d = sentence.data;
    let s = chars_of(d);
    let sp = field_spans(&s);
    if sp.len() < 2 {
        return Err(Error::ParsingError);
    }
    let rate = read_opt_float_field(d, &s, sp[0].0, sp[0].1);
    let valid = exec_field_starts(&s, sp[1].0, sp[1].1, 'A');
    if rate.is_none() {
        return Err(Error::ParsingError);
    }
    Ok(RotData { rate: rate.unwrap(), valid: Some(valid) })
}

/// The body an ROT value is written as.
pub open spec fn rot_body(d: RotData) -> Seq<char> {
    opt_number_text(d.rate) + seq![','] + (if d.valid == Some(true) { seq!['A'] } else { seq!['V'] })
}

impl GenerateNmeaBody for RotData {
    open spec fn spec_sentence_type(&self) -> SentenceType {
        SentenceType::ROT
    }

    open spec fn spec_body(&self) -> Seq<char> {
        rot_body(*self)
    }

    fn sentence_type(&self) -> (t: SentenceType) {
        SentenceType::ROT
    }

    fn write_body(&self, f: &mut String) {
        push_opt_number(f, &self.rate);
        push_char(f, ',');
        if self.valid == Some(true) { push_char(f, 'A'); } else { push_char(f, 'V'); }
        assert(f@ =~= old(f)@ + rot_body(*self));
    }
}

/// The body of an ROT value is its parts joined with commas.
#[verifier::spinoff_prover]
proof fn lemma_rot_body_parts(d: RotData)
    ensures
        rot_body(d) == opt_number_text(d.rate) + seq![','] + (if d.valid == Some(true) { seq!['A'] } else { seq!['V'] }),
{
    let t0 = opt_number_text(d.rate);
    let t1 = (if d.valid == Some(true) { seq!['A'] } else { seq!['V'] });
    
    assert(t0 + seq![','] + t1 =~= rot_body(d));
}

/// The fields of an written ROT value are its parts, none
/// holding a comma or `*`.
#[verifier::spinoff_prover]
proof fn lemma_rot_fields(d: RotData)
    requires
        d.valid is Some,
        crate::readback::valid_opt_number(d.rate),
    ensures
        split_fields(rot_body(d)) == seq![opt_number_text(d.rate), (if d.valid == Some(true) { seq!['A'] } else { seq!['V'] })],
{
    let t0 = opt_number_text(d.rate);
    let t1 = (if d.valid == Some(true) { seq!['A'] } else { seq!['V'] });
    crate::readback::lemma_opt_number_plain(d.rate);
    crate::readback::lemma_char_plain('A');
    crate::readback::lemma_char_plain('V');
    crate::readback::lemma_split_fields_2(t0, t1);
    lemma_rot_body_parts(d);
}

/// A written ROT value reads back as itself, when its rate is a decimal
/// literal and its validity is known; an unknown validity is written `V`
/// and reads back as invalid.
#[verifier::spinoff_prover]
pub proof fn lemma_rot_reads_back(d: RotData)
    requires
        d.valid is Some,
        crate::readback::valid_opt_number(d.rate),
    ensures
        rot_data_result(rot_body(d), Ok(d)),
        !rot_body(d).contains('*'),
        vstd::utf8::is_ascii_chars(rot_body(d)),
{
    lemma_rot_fields(d);
    assert(crate::readback::plain_fields(split_fields(rot_body(d)))) by {
        crate::readback::lemma_opt_number_plain(d.rate);
        crate::readback::lemma_char_plain('A');
        crate::readback::lemma_char_plain('V');
    }
    crate::readback::lemma_plain_from_fields(rot_body(d));
    assert(opt_float_field(opt_number_text(d.rate)) == Some(crate::text::opt_num_view(d.rate)) && opt_std_float_field(opt_number_text(d.rate)) == Some(crate::text::opt_num_view(d.rate))) by {
        crate::readback::lemma_opt_number_reads_back(d.rate);
    }
    if d.valid == Some(true) {
        assert(crate::text::field_starts(seq!['A'], 'A'));
    } else {
        assert(!crate::text::field_starts(seq!['V'], 'A'));
    }
    let f = split_fields(rot_body(d));
    assert(f.len() == 2);
    assert(rot_accepts(f));
    assert(opt_num_is(d.rate, fnum(f[0])));
    assert(d.valid == Some(crate::text::field_starts(f[1], 'A')));
}

} // verus!
