//! DBS - Depth Below Surface
//!
//! ```text
//!         1   2 3   4 5   6 7
//!         |   | |   | |   | |
//!  $--DBS,x.x,f,x.x,M,x.x,F*hh<CR><LF>
//! ```
//! 1. Water depth, feet; 2. `f`; 3. Water depth, meters; 4. `M`;
//! 5. Water depth, fathoms; 6. `F`.
//! Sensors often report only some of the three units.

use vstd::prelude::*;
use vstd::string::*;

use crate::error::{Error, UnknownReason};
use crate::generate::GenerateNmeaBody;
use crate::parse::NmeaSentence;
use crate::sentence_type::SentenceType;
use crate::strings::{decimal, opt_number_text, push_char, push_opt_number};
use crate::text::{
    NumV, Number, chars_of, exec_field_is, exec_field_starts, field_is, field_spans,
    field_starts, opt_float_field, opt_num_is, opt_num_view, opt_std_float_field,
    read_opt_float_field, split_fields,
};

verus! {

/// Water depth below the surface, in three units.
#[derive(Debug, Clone, PartialEq)]
pub struct DbsData {
    pub water_depth_feet: Option<Number>,
    pub water_depth_meters: Option<Number>,
    pub water_depth_fathoms: Option<Number>,
}

/// The content of a DBS sentence.
pub struct DbsV {
    pub feet: Option<NumV>,
    pub meters: Option<NumV>,
    pub fathoms: Option<NumV>,
}

pub open spec fn dbs_is(d: DbsData, v: DbsV) -> bool {
    &&& opt_num_is(d.water_depth_feet, v.feet)
    &&& opt_num_is(d.water_depth_meters, v.meters)
    &&& opt_num_is(d.water_depth_fathoms, v.fathoms)
}

/// The DBS grammar over the comma-separated fields: three optional depths,
/// each followed by its unit letter; the field after the last depth must
/// start with `F`. A sentence with none of the three depths is refused.
pub open spec fn spec_dbs(f: Seq<Seq<char>>) -> Result<DbsV, Error> {
    if f.len() >= 6 && opt_float_field(f[0]) is Some && field_is(f[1], 'f') && opt_float_field(
        f[2],
    ) is Some && field_is(f[3], 'M') && opt_float_field(f[4]) is Some && field_starts(f[5], 'F') {
        let v = DbsV {
            feet: opt_float_field(f[0]).unwrap(),
            meters: opt_float_field(f[2]).unwrap(),
            fathoms: opt_float_field(f[4]).unwrap(),
        };
        if v.feet is None && v.meters is None && v.fathoms is None {
            Err(Error::Unknown(UnknownReason::NoWaterDepth))
        } else {
            Ok(v)
        }
    } else {
        Err(Error::ParsingError)
    }
}

/// What reading the data `data` of a DBS sentence gives.
pub open spec fn dbs_data_result(data: Seq<char>, r: Result<DbsData, Error>) -> bool {
    match spec_dbs(split_fields(data)) {
        Ok(v) => r matches Ok(d) && dbs_is(d, v),
        Err(e) => r == Err::<DbsData, Error>(e),
    }
}

/// What [`parse_dbs`] gives for a sentence.
pub open spec fn dbs_result(s: NmeaSentence, r: Result<DbsData, Error>) -> bool {
    if s.message_id != SentenceType::DBS {
        r == Err::<DbsData, Error>(
            Error::WrongSentenceHeader { expected: SentenceType::DBS, found: s.message_id },
        )
    } else {
        dbs_data_result(s.data@, r)
    }
}

/// Reads the data of a DBS sentence.
pub fn parse_dbs(sentence: NmeaSentence<'_>) -> (r: Result<DbsData, Error>)
    ensures
        dbs_result(sentence, r),
{
    if sentence.message_id != SentenceType::DBS {
        return Err(Error::WrongSentenceHeader { expected: SentenceType::DBS, found: sentence.message_id });
    }
    let d = sentence.data;
    let s = chars_of(d);
    let sp = field_spans(&s);
    let ghost f = split_fields(s@);
    if sp.len() < 6 {
        return Err(Error::ParsingError);
    }
    let feet = read_opt_float_field(d, &s, sp[0].0, sp[0].1);
    let meters = read_opt_float_field(d, &s, sp[2].0, sp[2].1);
    let fathoms = read_opt_float_field(d, &s, sp[4].0, sp[4].1);
    if feet.is_none() || !exec_field_is(&s, sp[1].0, sp[1].1, 'f') || meters.is_none()
        || !exec_field_is(&s, sp[3].0, sp[3].1, 'M') || fathoms.is_none() || !exec_field_starts(
        &s,
        sp[5].0,
        sp[5].1,
        'F',
    ) {
        return Err(Error::ParsingError);
    }
    let water_depth_feet = feet.unwrap();
    let water_depth_meters = meters.unwrap();
    let water_depth_fathoms = fathoms.unwrap();
    if water_depth_feet.is_none() && water_depth_meters.is_none() && water_depth_fathoms.is_none() {
        return Err(Error::Unknown(UnknownReason::NoWaterDepth));
    }
    Ok(DbsData { water_depth_feet, water_depth_meters, water_depth_fathoms })
}

/// The body a DBS value is written as: `feet,f,meters,M,fathoms,F`.
pub open spec fn dbs_body(d: DbsData) -> Seq<char> {
    opt_number_text(d.water_depth_feet) + seq![',', 'f', ','] + opt_number_text(d.water_depth_meters)
        + seq![',', 'M', ','] + opt_number_text(d.water_depth_fathoms) + seq![',', 'F']
}

impl GenerateNmeaBody for DbsData {
    open spec fn spec_sentence_type(&self) -> SentenceType {
        SentenceType::DBS
    }

    open spec fn spec_body(&self) -> Seq<char> {
        dbs_body(*self)
    }

    fn sentence_type(&self) -> (t: SentenceType) {
        SentenceType::DBS
    }

    fn write_body(&self, f: &mut String) {
        push_opt_number(f, &self.water_depth_feet);
        push_char(f, ',');
        push_char(f, 'f');
        push_char(f, ',');
        push_opt_number(f, &self.water_depth_meters);
        push_char(f, ',');
        push_char(f, 'M');
        push_char(f, ',');
        push_opt_number(f, &self.water_depth_fathoms);
        push_char(f, ',');
        push_char(f, 'F');
        assert(f@ =~= old(f)@ + dbs_body(*self));
    }
}

/// The body of a DBS value is its parts joined with commas.
#[verifier::spinoff_prover]
proof fn lemma_dbs_body_parts(d: DbsData)
    ensures
        dbs_body(d) == opt_number_text(d.water_depth_feet) + seq![','] + seq!['f'] + seq![','] + opt_number_text(d.water_depth_meters) + seq![','] + seq!['M'] + seq![','] + opt_number_text(d.water_depth_fathoms) + seq![','] + seq!['F'],
{
    let t0 = opt_number_text(d.water_depth_feet);
    let t1 = seq!['f'];
    let t2 = opt_number_text(d.water_depth_meters);
    let t3 = seq!['M'];
    let t4 = opt_number_text(d.water_depth_fathoms);
    let t5 = seq!['F'];
    
    assert(t0 + seq![','] + t1 + seq![','] + t2 + seq![','] + t3 + seq![','] + t4 + seq![','] + t5 =~= dbs_body(d));
}

/// The fields of a written DBS value are its parts, none
/// holding a comma or `*`.
#[verifier::spinoff_prover]
proof fn lemma_dbs_fields(d: DbsData)
    requires
        d.water_depth_feet is Some || d.water_depth_meters is Some || d.water_depth_fathoms is Some,
        crate::readback::valid_opt_number(d.water_depth_feet),
        crate::readback::valid_opt_number(d.water_depth_meters),
        crate::readback::valid_opt_number(d.water_depth_fathoms),
    ensures
        split_fields(dbs_body(d)) == seq![opt_number_text(d.water_depth_feet), seq!['f'], opt_number_text(d.water_depth_meters), seq!['M'], opt_number_text(d.water_depth_fathoms), seq!['F']],
{
    let t0 = opt_number_text(d.water_depth_feet);
    let t1 = seq!['f'];
    let t2 = opt_number_text(d.water_depth_meters);
    let t3 = seq!['M'];
    let t4 = opt_number_text(d.water_depth_fathoms);
    let t5 = seq!['F'];
    crate::readback::lemma_opt_number_plain(d.water_depth_feet);
    crate::readback::lemma_char_plain('f');
    crate::readback::lemma_opt_number_plain(d.water_depth_meters);
    crate::readback::lemma_char_plain('M');
    crate::readback::lemma_opt_number_plain(d.water_depth_fathoms);
    crate::readback::lemma_char_plain('F');
    crate::readback::lemma_split_fields_6(t0, t1, t2, t3, t4, t5);
    lemma_dbs_body_parts(d);
}

/// A written DBS value reads back as itself, when its numbers are decimal
/// literals and at least one depth is present; with none, reading gives
/// `Unknown(NoWaterDepth)`.
#[verifier::spinoff_prover]
pub proof fn lemma_dbs_reads_back(d: DbsData)
    requires
        d.water_depth_feet is Some || d.water_depth_meters is Some || d.water_depth_fathoms is Some,
        crate::readback::valid_opt_number(d.water_depth_feet),
        crate::readback::valid_opt_number(d.water_depth_meters),
        crate::readback::valid_opt_number(d.water_depth_fathoms),
    ensures
        dbs_data_result(dbs_body(d), Ok(d)),
        !dbs_body(d).contains('*'),
        vstd::utf8::is_ascii_chars(dbs_body(d)),
{
    lemma_dbs_fields(d);
    assert(crate::readback::plain_fields(split_fields(dbs_body(d)))) by {
        crate::readback::lemma_opt_number_plain(d.water_depth_feet);
        crate::readback::lemma_char_plain('f');
        crate::readback::lemma_opt_number_plain(d.water_depth_meters);
        crate::readback::lemma_char_plain('M');
        crate::readback::lemma_opt_number_plain(d.water_depth_fathoms);
        crate::readback::lemma_char_plain('F');
    }
    crate::readback::lemma_plain_from_fields(dbs_body(d));
    assert(opt_float_field(opt_number_text(d.water_depth_feet)) == Some(crate::text::opt_num_view(d.water_depth_feet)) && opt_std_float_field(opt_number_text(d.water_depth_feet)) == Some(crate::text::opt_num_view(d.water_depth_feet))) by {
        crate::readback::lemma_opt_number_reads_back(d.water_depth_feet);
    }
    assert(opt_float_field(opt_number_text(d.water_depth_meters)) == Some(crate::text::opt_num_view(d.water_depth_meters)) && opt_std_float_field(opt_number_text(d.water_depth_meters)) == Some(crate::text::opt_num_view(d.water_depth_meters))) by {
        crate::readback::lemma_opt_number_reads_back(d.water_depth_meters);
    }
    assert(opt_float_field(opt_number_text(d.water_depth_fathoms)) == Some(crate::text::opt_num_view(d.water_depth_fathoms)) && opt_std_float_field(opt_number_text(d.water_depth_fathoms)) == Some(crate::text::opt_num_view(d.water_depth_fathoms))) by {
        crate::readback::lemma_opt_number_reads_back(d.water_depth_fathoms);
    }
}

} // verus!
