//! GST - GNSS Pseudorange Error Statistics:
//! `$--GST,hhmmss.ss,x.x,x.x,x.x,x.x,x.x,x.x,x.x*hh`
//! 1. UTC time; 2. RMS of the standard deviation of the ranges; 3. Semi-major
//! and 4. semi-minor axis of the error ellipse; 5. Orientation of the
//! semi-major axis; 6. Standard deviation of the latitude, 7. of the
//! longitude, 8. of the altitude (meters).

use vstd::prelude::*;
use vstd::string::*;

use crate::error::Error;
use crate::generate::GenerateNmeaBody;
use crate::parse::NmeaSentence;
use crate::position::{Hms, fhms, opt_hms_chars, opt_hms_field, opt_hms_is, read_opt_hms, write_hms};
use crate::sentence_type::SentenceType;
use crate::strings::{opt_text, push_char, write_field, write_opt};
use crate::text::{
    Number, chars_of, field_spans, fnum, fprefix, opt_float_field, opt_float_prefix, opt_num_is,
    read_opt_float_field, read_opt_float_prefix, split_fields,
};

verus! {

/// The data of a GST sentence.
#[derive(Debug, Clone, PartialEq)]
pub struct GstData {
    pub time: Option<Hms>,
    pub rms_sd: Option<Number>,
    pub ellipse_semi_major_sd: Option<Number>,
    pub ellipse_semi_minor_sd: Option<Number>,
    pub err_ellipse_orientation: Option<Number>,
    pub lat_sd: Option<Number>,
    pub long_sd: Option<Number>,
    pub alt_sd: Option<Number>,
}

/// The GST grammar over the comma-separated fields: a time, then
/// number fields; the last is read at its start, what follows being ignored.
pub open spec fn gst_accepts(f: Seq<Seq<char>>) -> bool {
    &&& f.len() >= 8
    &&& opt_hms_field(f[0]) is Some
    &&& opt_float_field(f[1]) is Some
    &&& opt_float_field(f[2]) is Some
    &&& opt_float_field(f[3]) is Some
    &&& opt_float_field(f[4]) is Some
    &&& opt_float_field(f[5]) is Some
    &&& opt_float_field(f[6]) is Some
    &&& opt_float_prefix(f[7]) is Some
}

/// What reading the data `data` of a GST sentence gives.
pub open spec fn gst_data_result(data: Seq<char>, r: Result<GstData, Error>) -> bool {
    let f = split_fields(data);
    if gst_accepts(f) {
        r matches Ok(d) && {
            &&& opt_hms_is(d.time, fhms(f[0]))
            &&& opt_num_is(d.rms_sd, fnum(f[1]))
            &&& opt_num_is(d.ellipse_semi_major_sd, fnum(f[2]))
            &&& opt_num_is(d.ellipse_semi_minor_sd, fnum(f[3]))
            &&& opt_num_is(d.err_ellipse_orientation, fnum(f[4]))
            &&& opt_num_is(d.lat_sd, fnum(f[5]))
            &&& opt_num_is(d.long_sd, fnum(f[6]))
            &&& opt_num_is(d.alt_sd, fprefix(f[7]))
        }
    } else {
        r == Err::<GstData, Error>(Error::ParsingError)
    }
}

/// What [`parse_gst`] gives for a sentence.
pub open spec fn gst_result(s: NmeaSentence, r: Result<GstData, Error>) -> bool {
    if s.message_id != SentenceType::GST {
        r == Err::<GstData, Error>(
            Error::WrongSentenceHeader { expected: SentenceType::GST, found: s.message_id },
        )
    } else {
        gst_data_result(s.data@, r)
    }
}

/// Reads the data of a GST sentence.
pub fn parse_gst(sentence: NmeaSentence<'_>) -> (r: Result<GstData, Error>)
    ensures
        gst_result(sentence, r),
{
    if sentence.message_id != SentenceType::GST {
        return Err(Error::WrongSentenceHeader { expected: SentenceType::GST, found: sentence.message_id });
    }
    let d = sentence.data;
    let s = chars_of(d);
    let sp = field_spans(&s);
    if sp.len() < 8 {
        return Err(Error::ParsingError);
    }
    let time = match read_opt_hms(d, &s, sp[0].0, sp[0].1) {
        Some(t) => t,
        None => return Err(Error::ParsingError),
    };
    let rms_sd = match read_opt_float_field(d, &s, sp[1].0, sp[1].1) {
        Some(o) => o,
        None => return Err(Error::ParsingError),
    };
    let ellipse_semi_major_sd = match read_opt_float_field(d, &s, sp[2].0, sp[2].1) {
        Some(o) => o,
        None => return Err(Error::ParsingError),
    };
    let ellipse_semi_minor_sd = match read_opt_float_field(d, &s, sp[3].0, sp[3].1) {
        Some(o) => o,
        None => return Err(Error::ParsingError),
    };
    let err_ellipse_orientation = match read_opt_float_field(d, &s, sp[4].0, sp[4].1) {
        Some(o) => o,
        None => return Err(Error::ParsingError),
    };
    let lat_sd = match read_opt_float_field(d, &s, sp[5].0, sp[5].1) {
        Some(o) => o,
        None => return Err(Error::ParsingError),
    };
    let long_sd = match read_opt_float_field(d, &s, sp[6].0, sp[6].1) {
        Some(o) => o,
        None => return Err(Error::ParsingError),
    };
    let alt_sd = match read_opt_float_prefix(d, &s, sp[7].0, sp[7].1) {
        Some(o) => o,
        None => return Err(Error::ParsingError),
    };
    Ok(GstData { time, rms_sd, ellipse_semi_major_sd, ellipse_semi_minor_sd, err_ellipse_orientation, lat_sd, long_sd, alt_sd })
}

/// The body a GST value is written as.
pub open spec fn gst_body(d: GstData) -> Seq<char> {
    opt_hms_chars(d.time) + seq![','] + opt_text(d.rms_sd) + seq![','] + opt_text(d.ellipse_semi_major_sd) + seq![','] + opt_text(d.ellipse_semi_minor_sd) + seq![','] + opt_text(d.err_ellipse_orientation) + seq![','] + opt_text(d.lat_sd) + seq![','] + opt_text(d.long_sd) + seq![','] + opt_text(d.alt_sd)
}

impl GenerateNmeaBody for GstData {
    open spec fn spec_sentence_type(&self) -> SentenceType {
        SentenceType::GST
    }

    open spec fn spec_body(&self) -> Seq<char> {
        gst_body(*self)
    }

    fn sentence_type(&self) -> (t: SentenceType) {
        SentenceType::GST
    }

    #[verifier::rlimit(30)]
    fn write_body(&self, f: &mut String) {
        write_hms(f, &self.time);
        push_char(f, ',');
        write_field(f, &self.rms_sd);
        write_field(f, &self.ellipse_semi_major_sd);
        write_field(f, &self.ellipse_semi_minor_sd);
        write_field(f, &self.err_ellipse_orientation);
        write_field(f, &self.lat_sd);
        write_field(f, &self.long_sd);
        write_opt(f, &self.alt_sd);
        assert(f@ =~= old(f)@ + gst_body(*self));
    }
}

/// The body of a GST value is its parts joined with commas.
#[verifier::spinoff_prover]
proof fn lemma_gst_body_parts(d: GstData)
    ensures
        gst_body(d) == opt_hms_chars(d.time) + seq![','] + opt_text(d.rms_sd) + seq![','] + opt_text(d.ellipse_semi_major_sd) + seq![','] + opt_text(d.ellipse_semi_minor_sd) + seq![','] + opt_text(d.err_ellipse_orientation) + seq![','] + opt_text(d.lat_sd) + seq![','] + opt_text(d.long_sd) + seq![','] + opt_text(d.alt_sd),
{
    let t0 = opt_hms_chars(d.time);
    let t1 = opt_text(d.rms_sd);
    let t2 = opt_text(d.ellipse_semi_major_sd);
    let t3 = opt_text(d.ellipse_semi_minor_sd);
    let t4 = opt_text(d.err_ellipse_orientation);
    let t5 = opt_text(d.lat_sd);
    let t6 = opt_text(d.long_sd);
    let t7 = opt_text(d.alt_sd);
    
    assert(t0 + seq![','] + t1 + seq![','] + t2 + seq![','] + t3 + seq![','] + t4 + seq![','] + t5 + seq![','] + t6 + seq![','] + t7 =~= gst_body(d));
}

/// The fields of a written GST value are its parts, none
/// holding a comma or `*`.
#[verifier::spinoff_prover]
proof fn lemma_gst_fields(d: GstData)
    requires
        crate::readback::valid_opt_hms(d.time),
        crate::readback::valid_opt_number(d.rms_sd),
        crate::readback::valid_opt_number(d.ellipse_semi_major_sd),
        crate::readback::valid_opt_number(d.ellipse_semi_minor_sd),
        crate::readback::valid_opt_number(d.err_ellipse_orientation),
        crate::readback::valid_opt_number(d.lat_sd),
        crate::readback::valid_opt_number(d.long_sd),
        crate::readback::valid_opt_number(d.alt_sd),
    ensures
        split_fields(gst_body(d)) == seq![opt_hms_chars(d.time), opt_text(d.rms_sd), opt_text(d.ellipse_semi_major_sd), opt_text(d.ellipse_semi_minor_sd), opt_text(d.err_ellipse_orientation), opt_text(d.lat_sd), opt_text(d.long_sd), opt_text(d.alt_sd)],
{
    let t0 = opt_hms_chars(d.time);
    let t1 = opt_text(d.rms_sd);
    let t2 = opt_text(d.ellipse_semi_major_sd);
    let t3 = opt_text(d.ellipse_semi_minor_sd);
    let t4 = opt_text(d.err_ellipse_orientation);
    let t5 = opt_text(d.lat_sd);
    let t6 = opt_text(d.long_sd);
    let t7 = opt_text(d.alt_sd);
    crate::readback::lemma_opt_hms_reads_back(d.time);
    crate::readback::lemma_opt_number_reads_back(d.rms_sd);
    crate::readback::lemma_opt_number_reads_back(d.ellipse_semi_major_sd);
    crate::readback::lemma_opt_number_reads_back(d.ellipse_semi_minor_sd);
    crate::readback::lemma_opt_number_reads_back(d.err_ellipse_orientation);
    crate::readback::lemma_opt_number_reads_back(d.lat_sd);
    crate::readback::lemma_opt_number_reads_back(d.long_sd);
    crate::readback::lemma_opt_number_reads_back(d.alt_sd);
    crate::readback::lemma_split_fields_8(t0, t1, t2, t3, t4, t5, t6, t7);
    lemma_gst_body_parts(d);
}

/// A written GST value reads back as itself, when its numbers are decimal
/// literals and its times are times of day with seconds that are not
/// negative.
#[verifier::spinoff_prover]
#[verifier::rlimit(50)]
pub proof fn lemma_gst_reads_back(d: GstData)
    requires
        crate::readback::valid_opt_hms(d.time),
        crate::readback::valid_opt_number(d.rms_sd),
        crate::readback::valid_opt_number(d.ellipse_semi_major_sd),
        crate::readback::valid_opt_number(d.ellipse_semi_minor_sd),
        crate::readback::valid_opt_number(d.err_ellipse_orientation),
        crate::readback::valid_opt_number(d.lat_sd),
        crate::readback::valid_opt_number(d.long_sd),
        crate::readback::valid_opt_number(d.alt_sd),
    ensures
        gst_data_result(gst_body(d), Ok(d)),
        !gst_body(d).contains('*'),
        vstd::utf8::is_ascii_chars(gst_body(d)),
{
    lemma_gst_fields(d);
    assert(crate::readback::plain_fields(split_fields(gst_body(d)))) by {
        crate::readback::lemma_opt_hms_reads_back(d.time);
        crate::readback::lemma_opt_number_reads_back(d.rms_sd);
        crate::readback::lemma_opt_number_reads_back(d.ellipse_semi_major_sd);
        crate::readback::lemma_opt_number_reads_back(d.ellipse_semi_minor_sd);
        crate::readback::lemma_opt_number_reads_back(d.err_ellipse_orientation);
        crate::readback::lemma_opt_number_reads_back(d.lat_sd);
        crate::readback::lemma_opt_number_reads_back(d.long_sd);
        crate::readback::lemma_opt_number_reads_back(d.alt_sd);
    }
    crate::readback::lemma_plain_from_fields(gst_body(d));
    crate::readback::lemma_opt_hms_reads_back(d.time);
    crate::readback::lemma_opt_number_reads_back(d.rms_sd);
    crate::readback::lemma_opt_number_reads_back(d.ellipse_semi_major_sd);
    crate::readback::lemma_opt_number_reads_back(d.ellipse_semi_minor_sd);
    crate::readback::lemma_opt_number_reads_back(d.err_ellipse_orientation);
    crate::readback::lemma_opt_number_reads_back(d.lat_sd);
    crate::readback::lemma_opt_number_reads_back(d.long_sd);
    crate::readback::lemma_opt_number_prefix_reads_back(d.alt_sd);
}

} // verus!
