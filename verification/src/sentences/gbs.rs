//! GBS - GNSS Satellite Fault Detection:
//! `$--GBS,hhmmss.ss,x.x,x.x,x.x,x.x,x.x,x.x,x.x*hh`
//! 1. UTC time; 2. Expected error in latitude; 3. in longitude; 4. in
//! altitude (meters); 5. ID of the most likely failed satellite;
//! 6. Probability of missed detection; 7. Estimated bias; 8. Standard
//! deviation of the bias.

use vstd::prelude::*;
use vstd::string::*;

use crate::error::Error;
use crate::generate::GenerateNmeaBody;
use crate::parse::NmeaSentence;
use crate::position::{Hms, fhms, opt_hms_chars, opt_hms_field, opt_hms_is, read_opt_hms, write_hms};
use crate::sentence_type::SentenceType;
use crate::strings::{opt_text, push_char, write_field, write_opt};
use crate::text::{
    Number, chars_of, field_spans, fnum, fprefix, funs, opt_float_field, opt_float_prefix, opt_num_is,
    opt_u8_is, opt_unsigned_field, read_opt_float_field, read_opt_float_prefix, read_opt_unsigned,
    split_fields,
};

verus! {

/// The data of a GBS sentence.
#[derive(Debug, Clone, PartialEq)]
pub struct GbsData {
    pub time: Option<Hms>,
    pub lat_error: Option<Number>,
    pub lon_error: Option<Number>,
    pub alt_error: Option<Number>,
    pub most_likely_failed_sat: Option<u8>,
    pub missed_probability: Option<Number>,
    pub bias_estimate: Option<Number>,
    pub bias_standard_deviation: Option<Number>,
}

/// The GBS grammar over the comma-separated fields: a time, then
/// number fields; the last is read at its start, what follows being ignored.
pub open spec fn gbs_accepts(f: Seq<Seq<char>>) -> bool {
    &&& f.len() >= 8
    &&& opt_hms_field(f[0]) is Some
    &&& opt_float_field(f[1]) is Some
    &&& opt_float_field(f[2]) is Some
    &&& opt_float_field(f[3]) is Some
    &&& opt_unsigned_field(f[4], 255) is Some
    &&& opt_float_field(f[5]) is Some
    &&& opt_float_field(f[6]) is Some
    &&& opt_float_prefix(f[7]) is Some
}

/// What reading the data `data` of a GBS sentence gives.
pub open spec fn gbs_data_result(data: Seq<char>, r: Result<GbsData, Error>) -> bool {
    let f = split_fields(data);
    if gbs_accepts(f) {
        r matches Ok(d) && {
            &&& opt_hms_is(d.time, fhms(f[0]))
            &&& opt_num_is(d.lat_error, fnum(f[1]))
            &&& opt_num_is(d.lon_error, fnum(f[2]))
            &&& opt_num_is(d.alt_error, fnum(f[3]))
            &&& opt_u8_is(d.most_likely_failed_sat, funs(f[4], 255))
            &&& opt_num_is(d.missed_probability, fnum(f[5]))
            &&& opt_num_is(d.bias_estimate, fnum(f[6]))
            &&& opt_num_is(d.bias_standard_deviation, fprefix(f[7]))
        }
    } else {
        r == Err::<GbsData, Error>(Error::ParsingError)
    }
}

/// What [`parse_gbs`] gives for a sentence.
pub open spec fn gbs_result(s: NmeaSentence, r: Result<GbsData, Error>) -> bool {
    if s.message_id != SentenceType::GBS {
        r == Err::<GbsData, Error>(
            Error::WrongSentenceHeader { expected: SentenceType::GBS, found: s.message_id },
        )
    } else {
        gbs_data_result(s.data@, r)
    }
}

/// Reads the data of a GBS sentence.
pub fn parse_gbs(sentence: NmeaSentence<'_>) -> (r: Result<GbsData, Error>)
    ensures
        gbs_result(sentence, r),
{
    if sentence.message_id != SentenceType::GBS {
        return Err(Error::WrongSentenceHeader { expected: SentenceType::GBS, found: sentence.message_id });
    }
    let d = sentence.data;
    let s = chars_of(d);
    let sp = field_spans(&s);
    if sp.len() < 8 {
        return Err(Error::ParsingError);
    }
    let time = match read_opt_hms(d, &s, sp[0].0, sp[0].1) {
        Some(t) => t,
        None => return Err(Error::ParsingError),
    };
    let lat_error = match read_opt_float_field(d, &s, sp[1].0, sp[1].1) {
        Some(o) => o,
        None => return Err(Error::ParsingError),
    };
    let lon_error = match read_opt_float_field(d, &s, sp[2].0, sp[2].1) {
        Some(o) => o,
        None => return Err(Error::ParsingError),
    };
    let alt_error = match read_opt_float_field(d, &s, sp[3].0, sp[3].1) {
        Some(o) => o,
        None => return Err(Error::ParsingError),
    };
    let most_likely_failed_sat = match read_opt_unsigned(&s, sp[4].0, sp[4].1, 255) {
        Some(o) => match o {
            Some(v) => Some(v as u8),
            None => None,
        },
        None => return Err(Error::ParsingError),
    };
    let missed_probability = match read_opt_float_field(d, &s, sp[5].0, sp[5].1) {
        Some(o) => o,
        None => return Err(Error::ParsingError),
    };
    let bias_estimate = match read_opt_float_field(d, &s, sp[6].0, sp[6].1) {
        Some(o) => o,
        None => return Err(Error::ParsingError),
    };
    let bias_standard_deviation = match read_opt_float_prefix(d, &s, sp[7].0, sp[7].1) {
        Some(o) => o,
        None => return Err(Error::ParsingError),
    };
    Ok(GbsData { time, lat_error, lon_error, alt_error, most_likely_failed_sat, missed_probability, bias_estimate, bias_standard_deviation })
}

/// The body a GBS value is written as.
pub open spec fn gbs_body(d: GbsData) -> Seq<char> {
    opt_hms_chars(d.time) + seq![','] + opt_text(d.lat_error) + seq![','] + opt_text(d.lon_error) + seq![','] + opt_text(d.alt_error) + seq![','] + opt_text(d.most_likely_failed_sat) + seq![','] + opt_text(d.missed_probability) + seq![','] + opt_text(d.bias_estimate) + seq![','] + opt_text(d.bias_standard_deviation)
}

impl GenerateNmeaBody for GbsData {
    open spec fn spec_sentence_type(&self) -> SentenceType {
        SentenceType::GBS
    }

    open spec fn spec_body(&self) -> Seq<char> {
        gbs_body(*self)
    }

    fn sentence_type(&self) -> (t: SentenceType) {
        SentenceType::GBS
    }

    fn write_body(&self, f: &mut String) {
        write_hms(f, &self.time);
        push_char(f, ',');
        write_field(f, &self.lat_error);
        write_field(f, &self.lon_error);
        write_field(f, &self.alt_error);
        write_field(f, &self.most_likely_failed_sat);
        write_field(f, &self.missed_probability);
        write_field(f, &self.bias_estimate);
        write_opt(f, &self.bias_standard_deviation);
        assert(f@ =~= old(f)@ + gbs_body(*self));
    }
}

/// The body of a GBS value is its parts joined with commas.
#[verifier::spinoff_prover]
proof fn lemma_gbs_body_parts(d: GbsData)
    ensures
        gbs_body(d) == opt_hms_chars(d.time) + seq![','] + opt_text(d.lat_error) + seq![','] + opt_text(d.lon_error) + seq![','] + opt_text(d.alt_error) + seq![','] + opt_text(d.most_likely_failed_sat) + seq![','] + opt_text(d.missed_probability) + seq![','] + opt_text(d.bias_estimate) + seq![','] + opt_text(d.bias_standard_deviation),
{
    let t0 = opt_hms_chars(d.time);
    let t1 = opt_text(d.lat_error);
    let t2 = opt_text(d.lon_error);
    let t3 = opt_text(d.alt_error);
    let t4 = opt_text(d.most_likely_failed_sat);
    let t5 = opt_text(d.missed_probability);
    let t6 = opt_text(d.bias_estimate);
    let t7 = opt_text(d.bias_standard_deviation);
    
    assert(t0 + seq![','] + t1 + seq![','] + t2 + seq![','] + t3 + seq![','] + t4 + seq![','] + t5 + seq![','] + t6 + seq![','] + t7 =~= gbs_body(d));
}

/// The fields of a written GBS value are its parts, none
/// holding a comma or `*`.
#[verifier::spinoff_prover]
proof fn lemma_gbs_fields(d: GbsData)
    requires
        crate::readback::valid_opt_hms(d.time),
        crate::readback::valid_opt_number(d.lat_error),
        crate::readback::valid_opt_number(d.lon_error),
        crate::readback::valid_opt_number(d.alt_error),
        crate::readback::valid_opt_number(d.missed_probability),
        crate::readback::valid_opt_number(d.bias_estimate),
        crate::readback::valid_opt_number(d.bias_standard_deviation),
    ensures
        split_fields(gbs_body(d)) == seq![opt_hms_chars(d.time), opt_text(d.lat_error), opt_text(d.lon_error), opt_text(d.alt_error), opt_text(d.most_likely_failed_sat), opt_text(d.missed_probability), opt_text(d.bias_estimate), opt_text(d.bias_standard_deviation)],
{
    let t0 = opt_hms_chars(d.time);
    let t1 = opt_text(d.lat_error);
    let t2 = opt_text(d.lon_error);
    let t3 = opt_text(d.alt_error);
    let t4 = opt_text(d.most_likely_failed_sat);
    let t5 = opt_text(d.missed_probability);
    let t6 = opt_text(d.bias_estimate);
    let t7 = opt_text(d.bias_standard_deviation);
    crate::readback::lemma_opt_hms_reads_back(d.time);
    crate::readback::lemma_opt_number_reads_back(d.lat_error);
    crate::readback::lemma_opt_number_reads_back(d.lon_error);
    crate::readback::lemma_opt_number_reads_back(d.alt_error);
    crate::readback::lemma_opt_u8_reads_back(d.most_likely_failed_sat, 255);
    crate::readback::lemma_opt_number_reads_back(d.missed_probability);
    crate::readback::lemma_opt_number_reads_back(d.bias_estimate);
    crate::readback::lemma_opt_number_reads_back(d.bias_standard_deviation);
    crate::readback::lemma_split_fields_8(t0, t1, t2, t3, t4, t5, t6, t7);
    lemma_gbs_body_parts(d);
}

/// A written GBS value reads back as itself, when its numbers are decimal
/// literals and its times are times of day with seconds that are not
/// negative.
#[verifier::spinoff_prover]
#[verifier::rlimit(50)]
pub proof fn lemma_gbs_reads_back(d: GbsData)
    requires
        crate::readback::valid_opt_hms(d.time),
        crate::readback::valid_opt_number(d.lat_error),
        crate::readback::valid_opt_number(d.lon_error),
        crate::readback::valid_opt_number(d.alt_error),
        crate::readback::valid_opt_number(d.missed_probability),
        crate::readback::valid_opt_number(d.bias_estimate),
        crate::readback::valid_opt_number(d.bias_standard_deviation),
    ensures
        gbs_data_result(gbs_body(d), Ok(d)),
        !gbs_body(d).contains('*'),
        vstd::utf8::is_ascii_chars(gbs_body(d)),
{
    lemma_gbs_fields(d);
    assert(crate::readback::plain_fields(split_fields(gbs_body(d)))) by {
        crate::readback::lemma_opt_hms_reads_back(d.time);
        crate::readback::lemma_opt_number_reads_back(d.lat_error);
        crate::readback::lemma_opt_number_reads_back(d.lon_error);
        crate::readback::lemma_opt_number_reads_back(d.alt_error);
        crate::readback::lemma_opt_u8_reads_back(d.most_likely_failed_sat, 255);
        crate::readback::lemma_opt_number_reads_back(d.missed_probability);
        crate::readback::lemma_opt_number_reads_back(d.bias_estimate);
        crate::readback::lemma_opt_number_reads_back(d.bias_standard_deviation);
    }
    crate::readback::lemma_plain_from_fields(gbs_body(d));
    crate::readback::lemma_opt_hms_reads_back(d.time);
    crate::readback::lemma_opt_number_reads_back(d.lat_error);
    crate::readback::lemma_opt_number_reads_back(d.lon_error);
    crate::readback::lemma_opt_number_reads_back(d.alt_error);
    crate::readback::lemma_opt_u8_reads_back(d.most_likely_failed_sat, 255);
    crate::readback::lemma_opt_number_reads_back(d.missed_probability);
    crate::readback::lemma_opt_number_reads_back(d.bias_estimate);
    crate::readback::lemma_opt_number_prefix_reads_back(d.bias_standard_deviation);
}

} // verus!
