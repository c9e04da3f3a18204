//! ZTG - UTC and Time to Destination Waypoint:
//! `$--ZTG,hhmmss.ss,hhmmss.ss,c--c*hh`
//! 1. UTC time of the observation; 2. Time remaining to the waypoint, as
//! hours, minutes and seconds; 3. Destination waypoint id.

use vstd::prelude::*;
use vstd::string::*;
use arrayvec::ArrayString;

use crate::bounded::{array_string64, as_str64};
use crate::error::Error;
use crate::generate::GenerateNmeaBody;
use crate::names::{opt_chars64, opt_name_chars};
use crate::parse::NmeaSentence;
use crate::position::{
    Hms, HmsDuration, duration_of_hms, fhms, opt_duration_chars, opt_duration_is, opt_hms_chars,
    opt_hms_field, opt_hms_is, read_opt_hms, write_duration, write_hms,
};
use crate::sentence_type::SentenceType;
use crate::strings::{push_char, push_str};
use crate::text::{chars_of, field_spans, lemma_utf8_len_is_encoding_len, split_fields, utf8_len};

verus! {

/// The data of a ZTG sentence.
#[derive(Debug, Clone, PartialEq)]
pub struct ZtgData {
    pub fix_time: Option<Hms>,
    /// Time remaining: hours, minutes and the seconds literal.
    pub fix_duration: Option<HmsDuration>,
    pub waypoint_id: Option<ArrayString<64>>,
}

/// The ZTG grammar over the comma-separated fields: two times, then the
/// waypoint id, the third field, which must take at most 64 bytes.
pub open spec fn ztg_accepts(f: Seq<Seq<char>>) -> bool {
    &&& f.len() >= 3
    &&& opt_hms_field(f[0]) is Some
    &&& opt_hms_field(f[1]) is Some
}

/// What reading the data `data` of a ZTG sentence gives: a parsing error
/// when the grammar rejects it, a length error when the waypoint id is too
/// long, the fields otherwise.
pub open spec fn ztg_data_result(data: Seq<char>, r: Result<ZtgData, Error>) -> bool {
    let f = split_fields(data);
    if !ztg_accepts(f) {
        r == Err::<ZtgData, Error>(Error::ParsingError)
    } else if utf8_len(f[2]) > 64 {
        r == Err::<ZtgData, Error>(
            Error::ParameterLength { max_length: 64, parameter_length: utf8_len(f[2]) as usize },
        )
    } else {
        r matches Ok(d) && {
            &&& opt_hms_is(d.fix_time, fhms(f[0]))
            &&& opt_duration_is(d.fix_duration, fhms(f[1]))
            &&& opt_chars64(d.waypoint_id) == if f[2].len() == 0 { None } else { Some(f[2]) }
        }
    }
}

/// What [`parse_ztg`] gives for a sentence.
pub open spec fn ztg_result(s: NmeaSentence, r: Result<ZtgData, Error>) -> bool {
    if s.message_id != SentenceType::ZTG {
        r == Err::<ZtgData, Error>(
            Error::WrongSentenceHeader { expected: SentenceType::ZTG, found: s.message_id },
        )
    } else {
        ztg_data_result(s.data@, r)
    }
}

/// Reads the data of a ZTG sentence.
pub fn parse_ztg(sentence: NmeaSentence<'_>) -> (r: Result<ZtgData, Error>)
    ensures
        ztg_result(sentence, r),
{
    if sentence.message_id != SentenceType::ZTG {
        return Err(Error::WrongSentenceHeader { expected: SentenceType::ZTG, found: sentence.message_id });
    }
    let d = sentence.data;
    let s = chars_of(d);
    let sp = field_spans(&s);
    let ghost f = split_fields(s@);
    if sp.len() < 3 {
        return Err(Error::ParsingError);
    }
    let fix_time = match read_opt_hms(d, &s, sp[0].0, sp[0].1) {
        Some(t) => t,
        None => return Err(Error::ParsingError),
    };
    let fix_duration = match read_opt_hms(d, &s, sp[1].0, sp[1].1) {
        Some(t) => duration_of_hms(t),
        None => return Err(Error::ParsingError),
    };
    let w = d.substring_char(sp[2].0, sp[2].1);
    proof {
        lemma_utf8_len_is_encoding_len(w@);
        assert(w@ =~= f[2]);
    }
    let len = w.as_bytes().len();
    if len > 64 {
        return Err(Error::ParameterLength { max_length: 64, parameter_length: len });
    }
    let waypoint_id = if sp[2].0 == sp[2].1 {
        None
    } else {
        match array_string64(w) {
            Some(a) => Some(a),
            None => return Err(Error::ParameterLength { max_length: 64, parameter_length: len }),
        }
    };
    Ok(ZtgData { fix_time, fix_duration, waypoint_id })
}

/// The body a ZTG value is written as.
pub open spec fn ztg_body(d: ZtgData) -> Seq<char> {
    opt_hms_chars(d.fix_time) + seq![','] + opt_duration_chars(d.fix_duration) + seq![','] + opt_name_chars(
        opt_chars64(d.waypoint_id),
    )
}

impl GenerateNmeaBody for ZtgData {
    open spec fn spec_sentence_type(&self) -> SentenceType {
        SentenceType::ZTG
    }

    open spec fn spec_body(&self) -> Seq<char> {
        ztg_body(*self)
    }

    fn sentence_type(&self) -> (t: SentenceType) {
        SentenceType::ZTG
    }

    fn write_body(&self, f: &mut String) {
        write_hms(f, &self.fix_time);
        push_char(f, ',');
        write_duration(f, &self.fix_duration);
        push_char(f, ',');
        match &self.waypoint_id {
            Some(a) => push_str(f, as_str64(a)),
            None => {},
        }
        assert(f@ =~= old(f)@ + ztg_body(*self));
    }
}

/// The body of a ZTG value is its parts joined with commas.
#[verifier::spinoff_prover]
proof fn lemma_ztg_body_parts(d: ZtgData)
    ensures
        ztg_body(d) == opt_hms_chars(d.fix_time) + seq![','] + opt_duration_chars(d.fix_duration) + seq![','] + opt_name_chars(opt_chars64(d.waypoint_id)),
{
    let t0 = opt_hms_chars(d.fix_time);
    let t1 = opt_duration_chars(d.fix_duration);
    let t2 = opt_name_chars(opt_chars64(d.waypoint_id));
    
    assert(t0 + seq![','] + t1 + seq![','] + t2 =~= ztg_body(d));
}

/// The fields of a written ZTG value are its parts, none
/// holding a comma or `*`.
#[verifier::spinoff_prover]
proof fn lemma_ztg_fields(d: ZtgData)
    requires
        crate::readback::valid_opt_hms(d.fix_time),
        crate::readback::valid_opt_duration(d.fix_duration),
        crate::readback::valid_opt_name(opt_chars64(d.waypoint_id), 64),
    ensures
        split_fields(ztg_body(d)) == seq![opt_hms_chars(d.fix_time), opt_duration_chars(d.fix_duration), opt_name_chars(opt_chars64(d.waypoint_id))],
{
    let t0 = opt_hms_chars(d.fix_time);
    let t1 = opt_duration_chars(d.fix_duration);
    let t2 = opt_name_chars(opt_chars64(d.waypoint_id));
    crate::readback::lemma_opt_hms_reads_back(d.fix_time);
    crate::readback::lemma_opt_duration_reads_back(d.fix_duration);
    crate::readback::lemma_opt_name_reads_back(opt_chars64(d.waypoint_id), 64);
    crate::readback::lemma_split_fields_3(t0, t1, t2);
    lemma_ztg_body_parts(d);
}

/// A written ZTG value reads back as itself, when its time and its time
/// remaining have the parts of a time of day, with seconds that are not
/// negative, and its waypoint id is ASCII, not empty and free of commas and
/// `*`.
#[verifier::spinoff_prover]
pub proof fn lemma_ztg_reads_back(d: ZtgData)
    requires
        crate::readback::valid_opt_hms(d.fix_time),
        crate::readback::valid_opt_duration(d.fix_duration),
        crate::readback::valid_opt_name(opt_chars64(d.waypoint_id), 64),
    ensures
        ztg_data_result(ztg_body(d), Ok(d)),
        !ztg_body(d).contains('*'),
        vstd::utf8::is_ascii_chars(ztg_body(d)),
{
    lemma_ztg_fields(d);
    assert(crate::readback::plain_fields(split_fields(ztg_body(d)))) by {
        crate::readback::lemma_opt_hms_reads_back(d.fix_time);
        crate::readback::lemma_opt_duration_reads_back(d.fix_duration);
        crate::readback::lemma_opt_name_reads_back(opt_chars64(d.waypoint_id), 64);
    }
    crate::readback::lemma_plain_from_fields(ztg_body(d));
    crate::readback::lemma_opt_hms_reads_back(d.fix_time);
    crate::readback::lemma_opt_duration_reads_back(d.fix_duration);
    crate::readback::lemma_opt_name_reads_back(opt_chars64(d.waypoint_id), 64);
}

} // verus!
