//! HDM - Heading, Magnetic: `$--HDM,x.x,M*hh`
//! 1. Heading, degrees magnetic; 2. `M`.

use vstd::prelude::*;
use vstd::string::*;

use crate::error::Error;
use crate::generate::GenerateNmeaBody;
use crate::parse::NmeaSentence;
use crate::sentence_type::SentenceType;
use crate::strings::{decimal, opt_number_text, push_char, push_opt_number};
use crate::text::{
    Number, chars_of, exec_field_starts, field_spans, field_starts, fstd, opt_float_field,
    opt_num_is, opt_num_view, opt_std_float_field, read_opt_std_float_field, split_fields,
};

verus! {

/// The data of an HDM sentence.
#[derive(Debug, Clone, PartialEq)]
pub struct HdmData {
    pub heading: Option<Number>,
}

/// The HDM grammar over the comma-separated fields.
pub open spec fn hdm_accepts(f: Seq<Seq<char>>) -> bool {
    &&& f.len() >= 2
    &&& opt_std_float_field(f[0]) is Some
    &&& field_starts(f[1], 'M')
}

/// What reading the data `data` of an HDM sentence gives: the fields it
/// holds when the grammar accepts the data, a parsing error otherwise.
pub open spec fn hdm_data_result(data: Seq<char>, r: Result<HdmData, Error>) -> bool {
    let f = split_fields(data);
    if hdm_accepts(f) {
        r matches Ok(d) && {
            opt_num_is(d.heading, fstd(f[0]))
        }
    } else {
        r == Err::<HdmData, Error>(Error::ParsingError)
    }
}

/// What [`parse_hdm`] gives for a sentence.
pub open spec fn hdm_result(s: NmeaSentence, r: Result<HdmData, Error>) -> bool {
    if s.message_id != SentenceType::HDM {
        r == Err::<HdmData, Error>(
            Error::WrongSentenceHeader { expected: SentenceType::HDM, found: s.message_id },
        )
    } else {
        hdm_data_result(s.data@, r)
    }
}

/// Reads the data of an HDM sentence.
pub fn parse_hdm(sentence: NmeaSentence<'_>) -> (r: Result<HdmData, Error>)
    ensures
        hdm_result(sentence, r),
{
    if sentence.message_id != SentenceType::HDM {
        return Err(Error::WrongSentenceHeader { expected: SentenceType::HDM, found: sentence.message_id });
    }
    let d = sentence.data;
    let s = chars_of(d);
    let sp = field_spans(&s);
    if sp.len() < 2 {
        return Err(Error::ParsingError);
    }
    let h = read_opt_std_float_field(d, &s, sp[0].0, sp[0].1);
    if h.is_none() || !exec_field_starts(&s, sp[1].0, sp[1].1, 'M') {
        return Err(Error::ParsingError);
    }
    Ok(HdmData { heading: h.unwrap() })
}

/// The body an HDM value is written as.
pub open spec fn hdm_body(d: HdmData) -> Seq<char> {
    opt_number_text(d.heading) + seq![',', 'M']
}

impl GenerateNmeaBody for HdmData {
    open spec fn spec_sentence_type(&self) -> SentenceType {
        SentenceType::HDM
    }

    open spec fn spec_body(&self) -> Seq<char> {
        hdm_body(*self)
    }

    fn sentence_type(&self) -> (t: SentenceType) {
        SentenceType::HDM
    }

    fn write_body(&self, f: &mut String) {
        push_opt_number(f, &self.heading);
        push_char(f, ',');
        push_char(f, 'M');
        assert(f@ =~= old(f)@ + hdm_body(*self));
    }
}


/// The body of an HDM value is its parts joined with commas.
#[verifier::spinoff_prover]
proof fn lemma_hdm_body_parts(d: HdmData)
    ensures
        hdm_body(d) == opt_number_text(d.heading) + seq![','] + seq!['M'],
{
    let t0 = opt_number_text(d.heading);
    let t1 = seq!['M'];
    
    assert(t0 + seq![','] + t1 =~= hdm_body(d));
}

/// The fields of an written HDM value are its parts, none
/// holding a comma or `*`.
#[verifier::spinoff_prover]
proof fn lemma_hdm_fields(d: HdmData)
    requires
        crate::readback::valid_opt_number(d.heading),
    ensures
        split_fields(hdm_body(d)) == seq![opt_number_text(d.heading), seq!['M']],
{
    let t0 = opt_number_text(d.heading);
    let t1 = seq!['M'];
    crate::readback::lemma_opt_number_plain(d.heading);
    crate::readback::lemma_char_plain('M');
    crate::readback::lemma_split_fields_2(t0, t1);
    lemma_hdm_body_parts(d);
}

/// A written HDM value reads back as itself, when its numbers are decimal
/// literals.
#[verifier::spinoff_prover]
pub proof fn lemma_hdm_reads_back(d: HdmData)
    requires
        crate::readback::valid_opt_number(d.heading),
    ensures
        hdm_data_result(hdm_body(d), Ok(d)),
        !hdm_body(d).contains('*'),
        vstd::utf8::is_ascii_chars(hdm_body(d)),
{
    lemma_hdm_fields(d);
    assert(crate::readback::plain_fields(split_fields(hdm_body(d)))) by {
        crate::readback::lemma_opt_number_plain(d.heading);
        crate::readback::lemma_char_plain('M');
    }
    crate::readback::lemma_plain_from_fields(hdm_body(d));
    assert(opt_float_field(opt_number_text(d.heading)) == Some(crate::text::opt_num_view(d.heading)) && opt_std_float_field(opt_number_text(d.heading)) == Some(crate::text::opt_num_view(d.heading))) by {
        crate::readback::lemma_opt_number_reads_back(d.heading);
    }
}

} // verus!
