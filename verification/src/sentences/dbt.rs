//! DBT - Depth Below Transducer: `$--DBT,x.x,f,x.x,M,x.x,F*hh`
//! 1. Depth, feet; 2. `f`; 3. Depth, meters; 4. `M`; 5. Depth, fathoms; 6. `F`.

use vstd::prelude::*;
use vstd::string::*;

use crate::error::Error;
use crate::generate::GenerateNmeaBody;
use crate::parse::NmeaSentence;
use crate::sentence_type::SentenceType;
use crate::strings::{decimal, opt_number_text, push_char, push_opt_number};
use crate::text::{
    Number, chars_of, exec_field_is, exec_field_starts, field_is, field_spans, field_starts,
    fnum, opt_float_field, opt_num_is, opt_num_view, opt_std_float_field, read_opt_float_field,
    split_fields,
};

verus! {

/// The data of a DBT sentence.
#[derive(Debug, Clone, PartialEq)]
pub struct DbtData {
    pub depth_feet: Option<Number>,
    pub depth_meters: Option<Number>,
    pub depth_fathoms: Option<Number>,
}

/// The DBT grammar over the comma-separated fields.
pub open spec fn dbt_accepts(f: Seq<Seq<char>>) -> bool {
    &&& f.len() >= 6
    &&& opt_float_field(f[0]) is Some
    &&& field_is(f[1], 'f')
    &&& opt_float_field(f[2]) is Some
    &&& field_is(f[3], 'M')
    &&& opt_float_field(f[4]) is Some
    &&& field_starts(f[5], 'F')
}

/// What reading the data `data` of a DBT sentence gives: the fields it
/// holds when the grammar accepts the data, a parsing error otherwise.
pub open spec fn dbt_data_result(data: Seq<char>, r: Result<DbtData, Error>) -> bool {
    let f = split_fields(data);
    if dbt_accepts(f) {
        r matches Ok(d) && {
            &&& opt_num_is(d.depth_feet, fnum(f[0]))
            &&& opt_num_is(d.depth_meters, fnum(f[2]))
            &&& opt_num_is(d.depth_fathoms, fnum(f[4]))
        }
    } else {
        r == Err::<DbtData, Error>(Error::ParsingError)
    }
}

/// What [`parse_dbt`] gives for a sentence.
pub open spec fn dbt_result(s: NmeaSentence, r: Result<DbtData, Error>) -> bool {
    if s.message_id != SentenceType::DBT {
        r == Err::<DbtData, Error>(
            Error::WrongSentenceHeader { expected: SentenceType::DBT, found: s.message_id },
        )
    } else {
        dbt_data_result(s.data@, r)
    }
}

/// Reads the data of a DBT sentence.
pub fn parse_dbt(sentence: NmeaSentence<'_>) -> (r: Result<DbtData, Error>)
    ensures
        dbt_result(sentence, r),
{
    if sentence.message_id != SentenceType::DBT {
        return Err(Error::WrongSentenceHeader { expected: SentenceType::DBT, found: sentence.message_id });
    }
    let d = sentence.data;
    let s = chars_of(d);
    let sp = field_spans(&s);
    let ghost f = split_fields(s@);
    if sp.len() < 6 {
        return Err(Error::ParsingError);
    }
    let feet = read_opt_float_field(d, &s, sp[0].0, sp[0].1);
    let meters = read_opt_float_field(d, &s, sp[2].0, sp[2].1);
    let fathoms = read_opt_float_field(d, &s, sp[4].0, sp[4].1);
    if feet.is_none() || !exec_field_is(&s, sp[1].0, sp[1].1, 'f') || meters.is_none() || !exec_field_is(&s, sp[3].0, sp[3].1, 'M') || fathoms.is_none() || !exec_field_starts(&s, sp[5].0, sp[5].1, 'F') {
        return Err(Error::ParsingError);
    }
    Ok(DbtData { depth_feet: feet.unwrap(), depth_meters: meters.unwrap(), depth_fathoms: fathoms.unwrap() })
}

/// The body a DBT value is written as.
pub open spec fn dbt_body(d: DbtData) -> Seq<char> {
    opt_number_text(d.depth_feet) + seq![',', 'f', ','] + opt_number_text(d.depth_meters) + seq![',', 'M', ','] + opt_number_text(d.depth_fathoms) + seq![',', 'F']
}

impl GenerateNmeaBody for DbtData {
    open spec fn spec_sentence_type(&self) -> SentenceType {
        SentenceType::DBT
    }

    open spec fn spec_body(&self) -> Seq<char> {
        dbt_body(*self)
    }

    fn sentence_type(&self) -> (t: SentenceType) {
        SentenceType::DBT
    }

    fn write_body(&self, f: &mut String) {
        push_opt_number(f, &self.depth_feet);
        push_char(f, ',');
        push_char(f, 'f');
        push_char(f, ',');
        push_opt_number(f, &self.depth_meters);
        push_char(f, ',');
        push_char(f, 'M');
        push_char(f, ',');
        push_opt_number(f, &self.depth_fathoms);
        push_char(f, ',');
        push_char(f, 'F');
        assert(f@ =~= old(f)@ + dbt_body(*self));
    }
}

/// The body of a DBT value is its parts joined with commas.
#[verifier::spinoff_prover]
proof fn lemma_dbt_body_parts(d: DbtData)
    ensures
        dbt_body(d) == opt_number_text(d.depth_feet) + seq![','] + seq!['f'] + seq![','] + opt_number_text(d.depth_meters) + seq![','] + seq!['M'] + seq![','] + opt_number_text(d.depth_fathoms) + seq![','] + seq!['F'],
{
    let t0 = opt_number_text(d.depth_feet);
    let t1 = seq!['f'];
    let t2 = opt_number_text(d.depth_meters);
    let t3 = seq!['M'];
    let t4 = opt_number_text(d.depth_fathoms);
    let t5 = seq!['F'];
    
    assert(t0 + seq![','] + t1 + seq![','] + t2 + seq![','] + t3 + seq![','] + t4 + seq![','] + t5 =~= dbt_body(d));
}

/// The fields of a written DBT value are its parts, none
/// holding a comma or `*`.
#[verifier::spinoff_prover]
proof fn lemma_dbt_fields(d: DbtData)
    requires
        crate::readback::valid_opt_number(d.depth_feet),
        crate::readback::valid_opt_number(d.depth_meters),
        crate::readback::valid_opt_number(d.depth_fathoms),
    ensures
        split_fields(dbt_body(d)) == seq![opt_number_text(d.depth_feet), seq!['f'], opt_number_text(d.depth_meters), seq!['M'], opt_number_text(d.depth_fathoms), seq!['F']],
{
    let t0 = opt_number_text(d.depth_feet);
    let t1 = seq!['f'];
    let t2 = opt_number_text(d.depth_meters);
    let t3 = seq!['M'];
    let t4 = opt_number_text(d.depth_fathoms);
    let t5 = seq!['F'];
    crate::readback::lemma_opt_number_plain(d.depth_feet);
    crate::readback::lemma_char_plain('f');
    crate::readback::lemma_opt_number_plain(d.depth_meters);
    crate::readback::lemma_char_plain('M');
    crate::readback::lemma_opt_number_plain(d.depth_fathoms);
    crate::readback::lemma_char_plain('F');
    crate::readback::lemma_split_fields_6(t0, t1, t2, t3, t4, t5);
    lemma_dbt_body_parts(d);
}

/// A written DBT value reads back as itself, when its numbers are decimal
/// literals.
#[verifier::spinoff_prover]
pub proof fn lemma_dbt_reads_back(d: DbtData)
    requires
        crate::readback::valid_opt_number(d.depth_feet),
        crate::readback::valid_opt_number(d.depth_meters),
        crate::readback::valid_opt_number(d.depth_fathoms),
    ensures
        dbt_data_result(dbt_body(d), Ok(d)),
        !dbt_body(d).contains('*'),
        vstd::utf8::is_ascii_chars(dbt_body(d)),
{
    lemma_dbt_fields(d);
    assert(crate::readback::plain_fields(split_fields(dbt_body(d)))) by {
        crate::readback::lemma_opt_number_plain(d.depth_feet);
        crate::readback::lemma_char_plain('f');
        crate::readback::lemma_opt_number_plain(d.depth_meters);
        crate::readback::lemma_char_plain('M');
        crate::readback::lemma_opt_number_plain(d.depth_fathoms);
        crate::readback::lemma_char_plain('F');
    }
    crate::readback::lemma_plain_from_fields(dbt_body(d));
    assert(opt_float_field(opt_number_text(d.depth_feet)) == Some(crate::text::opt_num_view(d.depth_feet)) && opt_std_float_field(opt_number_text(d.depth_feet)) == Some(crate::text::opt_num_view(d.depth_feet))) by {
        crate::readback::lemma_opt_number_reads_back(d.depth_feet);
    }
    assert(opt_float_field(opt_number_text(d.depth_meters)) == Some(crate::text::opt_num_view(d.depth_meters)) && opt_std_float_field(opt_number_text(d.depth_meters)) == Some(crate::text::opt_num_view(d.depth_meters))) by {
        crate::readback::lemma_opt_number_reads_back(d.depth_meters);
    }
    assert(opt_float_field(opt_number_text(d.depth_fathoms)) == Some(crate::text::opt_num_view(d.depth_fathoms)) && opt_std_float_field(opt_number_text(d.depth_fathoms)) == Some(crate::text::opt_num_view(d.depth_fathoms))) by {
        crate::readback::lemma_opt_number_reads_back(d.depth_fathoms);
    }
}

} // verus!
