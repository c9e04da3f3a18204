//! HSC - Heading Steering Command: `$--HSC,x.x,T,x.x,M*hh`
//! 1. Heading, degrees true; 2. `T`; 3. Heading, degrees magnetic; 4. `M`.

use vstd::prelude::*;
use vstd::string::*;

use crate::error::Error;
use crate::generate::GenerateNmeaBody;
use crate::parse::NmeaSentence;
use crate::sentence_type::SentenceType;
use crate::strings::{decimal, opt_number_text, push_char, push_opt_number};
use crate::text::{
    Number, chars_of, exec_opt_char_field, field_spans, fnum, opt_char_field, opt_float_field,
    opt_num_is, opt_num_view, opt_std_float_field, read_opt_float_field, split_fields,
};

verus! {

/// The data of an HSC sentence.
#[derive(Debug, Clone, PartialEq)]
pub struct HscData {
    pub heading_true: Option<Number>,
    pub heading_magnetic: Option<Number>,
}

/// The HSC grammar over the comma-separated fields.
pub open spec fn hsc_accepts(f: Seq<Seq<char>>) -> bool {
    &&& f.len() >= 4
    &&& opt_float_field(f[0]) is Some
    &&& opt_char_field(f[1], 'T')
    &&& opt_float_field(f[2]) is Some
}

/// What reading the data `data` of an HSC sentence gives: the fields it
/// holds when the grammar accepts the data, a parsing error otherwise.
pub open spec fn hsc_data_result(data: Seq<char>, r: Result<HscData, Error>) -> bool {
    let f = split_fields(data);
    if hsc_accepts(f) {
        r matches Ok(d) && {
            &&& opt_num_is(d.heading_true, fnum(f[0]))
            &&& opt_num_is(d.heading_magnetic, fnum(f[2]))
        }
    } else {
        r == Err::<HscData, Error>(Error::ParsingError)
    }
}

/// What [`parse_hsc`] gives for a sentence.
pub open spec fn hsc_result(s: NmeaSentence, r: Result<HscData, Error>) -> bool {
    if s.message_id != SentenceType::HSC {
        r == Err::<HscData, Error>(
            Error::WrongSentenceHeader { expected: SentenceType::HSC, found: s.message_id },
        )
    } else {
        hsc_data_result(s.data@, r)
    }
}

/// Reads the data of an HSC sentence.
pub fn parse_hsc(sentence: NmeaSentence<'_>) -> (r: Result<HscData, Error>)
    ensures
        hsc_result(sentence, r),
{
    if sentence.message_id != SentenceType::HSC {
        return Err(Error::WrongSentenceHeader { expected: SentenceType::HSC, found: sentence.message_id });
    }
    let d = sentence.data;
    let s = chars_of(d);
    let sp = field_spans(&s);
    if sp.len() < 4 {
        return Err(Error::ParsingError);
    }
    let heading_true = read_opt_float_field(d, &s, sp[0].0, sp[0].1);
    let heading_magnetic = read_opt_float_field(d, &s, sp[2].0, sp[2].1);
    if heading_true.is_none() || !exec_opt_char_field(&s, sp[1].0, sp[1].1, 'T') || heading_magnetic.is_none() {
        return Err(Error::ParsingError);
    }
    Ok(HscData { heading_true: heading_true.unwrap(), heading_magnetic: heading_magnetic.unwrap() })
}

/// The body an HSC value is written as.
pub open spec fn hsc_body(d: HscData) -> Seq<char> {
    opt_number_text(d.heading_true) + seq![',', 'T', ','] + opt_number_text(d.heading_magnetic) + seq![',', 'M']
}

impl GenerateNmeaBody for HscData {
    open spec fn spec_sentence_type(&self) -> SentenceType {
        SentenceType::HSC
    }

    open spec fn spec_body(&self) -> Seq<char> {
        hsc_body(*self)
    }

    fn sentence_type(&self) -> (t: SentenceType) {
        SentenceType::HSC
    }

    fn write_body(&self, f: &mut String) {
        push_opt_number(f, &self.heading_true);
        push_char(f, ',');
        push_char(f, 'T');
        push_char(f, ',');
        push_opt_number(f, &self.heading_magnetic);
        push_char(f, ',');
        push_char(f, 'M');
        assert(f@ =~= old(f)@ + hsc_body(*self));
    }
}

/// The body of an HSC value is its parts joined with commas.
#[verifier::spinoff_prover]
proof fn lemma_hsc_body_parts(d: HscData)
    ensures
        hsc_body(d) == opt_number_text(d.heading_true) + seq![','] + seq!['T'] + seq![','] + opt_number_text(d.heading_magnetic) + seq![','] + seq!['M'],
{
    let t0 = opt_number_text(d.heading_true);
    let t1 = seq!['T'];
    let t2 = opt_number_text(d.heading_magnetic);
    let t3 = seq!['M'];
    
    assert(t0 + seq![','] + t1 + seq![','] + t2 + seq![','] + t3 =~= hsc_body(d));
}

/// The fields of an written HSC value are its parts, none
/// holding a comma or `*`.
#[verifier::spinoff_prover]
proof fn lemma_hsc_fields(d: HscData)
    requires
        crate::readback::valid_opt_number(d.heading_true),
        crate::readback::valid_opt_number(d.heading_magnetic),
    ensures
        split_fields(hsc_body(d)) == seq![opt_number_text(d.heading_true), seq!['T'], opt_number_text(d.heading_magnetic), seq!['M']],
{
    let t0 = opt_number_text(d.heading_true);
    let t1 = seq!['T'];
    let t2 = opt_number_text(d.heading_magnetic);
    let t3 = seq!['M'];
    crate::readback::lemma_opt_number_plain(d.heading_true);
    crate::readback::lemma_char_plain('T');
    crate::readback::lemma_opt_number_plain(d.heading_magnetic);
    crate::readback::lemma_char_plain('M');
    crate::readback::lemma_split_fields_4(t0, t1, t2, t3);
    lemma_hsc_body_parts(d);
}

/// A written HSC value reads back as itself, when its numbers are decimal
/// literals.
#[verifier::spinoff_prover]
pub proof fn lemma_hsc_reads_back(d: HscData)
    requires
        crate::readback::valid_opt_number(d.heading_true),
        crate::readback::valid_opt_number(d.heading_magnetic),
    ensures
        hsc_data_result(hsc_body(d), Ok(d)),
        !hsc_body(d).contains('*'),
        vstd::utf8::is_ascii_chars(hsc_body(d)),
{
    lemma_hsc_fields(d);
    assert(crate::readback::plain_fields(split_fields(hsc_body(d)))) by {
        crate::readback::lemma_opt_number_plain(d.heading_true);
        crate::readback::lemma_char_plain('T');
        crate::readback::lemma_opt_number_plain(d.heading_magnetic);
        crate::readback::lemma_char_plain('M');
    }
    crate::readback::lemma_plain_from_fields(hsc_body(d));
    assert(opt_float_field(opt_number_text(d.heading_true)) == Some(crate::text::opt_num_view(d.heading_true)) && opt_std_float_field(opt_number_text(d.heading_true)) == Some(crate::text::opt_num_view(d.heading_true))) by {
        crate::readback::lemma_opt_number_reads_back(d.heading_true);
    }
    assert(opt_float_field(opt_number_text(d.heading_magnetic)) == Some(crate::text::opt_num_view(d.heading_magnetic)) && opt_std_float_field(opt_number_text(d.heading_magnetic)) == Some(crate::text::opt_num_view(d.heading_magnetic))) by {
        crate::readback::lemma_opt_number_reads_back(d.heading_magnetic);
    }
}

} // verus!
