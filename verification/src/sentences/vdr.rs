//! VDR - Set and Drift: `$--VDR,x.x,T,x.x,M,x.x,N*hh`
//! 1. Direction, degrees true; 2. `T`; 3. Direction, degrees magnetic; 4. `M`;
//! 5. Current speed, knots; 6. `N`.

use vstd::prelude::*;
use vstd::string::*;

use crate::error::Error;
use crate::generate::GenerateNmeaBody;
use crate::parse::NmeaSentence;
use crate::sentence_type::SentenceType;
use crate::strings::{decimal, opt_number_text, push_char, push_opt_number};
use crate::text::{
    Number, chars_of, exec_opt_char_field, field_spans, fnum, opt_char_field, opt_float_field,
    opt_num_is, opt_num_view, opt_std_float_field, read_opt_float_field, split_fields,
};

verus! {

/// The data of a VDR sentence.
#[derive(Debug, Clone, PartialEq)]
pub struct VdrData {
    pub direction_true: Option<Number>,
    pub direction_magnetic: Option<Number>,
    pub speed: Option<Number>,
}

/// The VDR grammar over the comma-separated fields.
pub open spec fn vdr_accepts(f: Seq<Seq<char>>) -> bool {
    &&& f.len() >= 6
    &&& opt_float_field(f[0]) is Some
    &&& opt_char_field(f[1], 'T')
    &&& opt_float_field(f[2]) is Some
    &&& opt_char_field(f[3], 'M')
    &&& opt_float_field(f[4]) is Some
}

/// What reading the data `data` of a VDR sentence gives: the fields it
/// holds when the grammar accepts the data, a parsing error otherwise.
pub open spec fn vdr_data_result(data: Seq<char>, r: Result<VdrData, Error>) -> bool {
    let f = split_fields(data);
    if vdr_accepts(f) {
        r matches Ok(d) && {
            &&& opt_num_is(d.direction_true, fnum(f[0]))
            &&& opt_num_is(d.direction_magnetic, fnum(f[2]))
            &&& opt_num_is(d.speed, fnum(f[4]))
        }
    } else {
        r == Err::<VdrData, Error>(Error::ParsingError)
    }
}

/// What [`parse_vdr`] gives for a sentence.
pub open spec fn vdr_result(s: NmeaSentence, r: Result<VdrData, Error>) -> bool {
    if s.message_id != SentenceType::VDR {
        r == Err::<VdrData, Error>(
            Error::WrongSentenceHeader { expected: SentenceType::VDR, found: s.message_id },
        )
    } else {
        vdr_data_result(s.data@, r)
    }
}

/// Reads the data of a VDR sentence.
pub fn parse_vdr(sentence: NmeaSentence<'_>) -> (r: Result<VdrData, Error>)
    ensures
        vdr_result(sentence, r),
{
    if sentence.message_id != SentenceType::VDR {
        return Err(Error::WrongSentenceHeader { expected: SentenceType::VDR, found: sentence.message_id });
    }
    let d = sentence.data;
    let s = chars_of(d);
    let sp = field_spans(&s);
    if sp.len() < 6 {
        return Err(Error::ParsingError);
    }
    let direction_true = read_opt_float_field(d, &s, sp[0].0, sp[0].1);
    let direction_magnetic = read_opt_float_field(d, &s, sp[2].0, sp[2].1);
    let speed = read_opt_float_field(d, &s, sp[4].0, sp[4].1);
    if direction_true.is_none() || !exec_opt_char_field(&s, sp[1].0, sp[1].1, 'T') || direction_magnetic.is_none() || !exec_opt_char_field(&s, sp[3].0, sp[3].1, 'M') || speed.is_none() {
        return Err(Error::ParsingError);
    }
    Ok(VdrData { direction_true: direction_true.unwrap(), direction_magnetic: direction_magnetic.unwrap(), speed: speed.unwrap() })
}

/// The body a VDR value is written as.
pub open spec fn vdr_body(d: VdrData) -> Seq<char> {
    opt_number_text(d.direction_true) + seq![',', 'T', ','] + opt_number_text(d.direction_magnetic) + seq![',', 'M', ','] + opt_number_text(d.speed) + seq![',', 'N']
}

impl GenerateNmeaBody for VdrData {
    open spec fn spec_sentence_type(&self) -> SentenceType {
        SentenceType::VDR
    }

    open spec fn spec_body(&self) -> Seq<char> {
        vdr_body(*self)
    }

    fn sentence_type(&self) -> (t: SentenceType) {
        SentenceType::VDR
    }

    fn write_body(&self, f: &mut String) {
        push_opt_number(f, &self.direction_true);
        push_char(f, ',');
        push_char(f, 'T');
        push_char(f, ',');
        push_opt_number(f, &self.direction_magnetic);
        push_char(f, ',');
        push_char(f, 'M');
        push_char(f, ',');
        push_opt_number(f, &self.speed);
        push_char(f, ',');
        push_char(f, 'N');
        assert(f@ =~= old(f)@ + vdr_body(*self));
    }
}

/// The body of a VDR value is its parts joined with commas.
#[verifier::spinoff_prover]
proof fn lemma_vdr_body_parts(d: VdrData)
    ensures
        vdr_body(d) == opt_number_text(d.direction_true) + seq![','] + seq!['T'] + seq![','] + opt_number_text(d.direction_magnetic) + seq![','] + seq!['M'] + seq![','] + opt_number_text(d.speed) + seq![','] + seq!['N'],
{
    let t0 = opt_number_text(d.direction_true);
    let t1 = seq!['T'];
    let t2 = opt_number_text(d.direction_magnetic);
    let t3 = seq!['M'];
    let t4 = opt_number_text(d.speed);
    let t5 = seq!['N'];
    
    assert(t0 + seq![','] + t1 + seq![','] + t2 + seq![','] + t3 + seq![','] + t4 + seq![','] + t5 =~= vdr_body(d));
}

/// The fields of a written VDR value are its parts, none
/// holding a comma or `*`.
#[verifier::spinoff_prover]
proof fn lemma_vdr_fields(d: VdrData)
    requires
        crate::readback::valid_opt_number(d.direction_true),
        crate::readback::valid_opt_number(d.direction_magnetic),
        crate::readback::valid_opt_number(d.speed),
    ensures
        split_fields(vdr_body(d)) == seq![opt_number_text(d.direction_true), seq!['T'], opt_number_text(d.direction_magnetic), seq!['M'], opt_number_text(d.speed), seq!['N']],
{
    let t0 = opt_number_text(d.direction_true);
    let t1 = seq!['T'];
    let t2 = opt_number_text(d.direction_magnetic);
    let t3 = seq!['M'];
    let t4 = opt_number_text(d.speed);
    let t5 = seq!['N'];
    crate::readback::lemma_opt_number_plain(d.direction_true);
    crate::readback::lemma_char_plain('T');
    crate::readback::lemma_opt_number_plain(d.direction_magnetic);
    crate::readback::lemma_char_plain('M');
    crate::readback::lemma_opt_number_plain(d.speed);
    crate::readback::lemma_char_plain('N');
    crate::readback::lemma_split_fields_6(t0, t1, t2, t3, t4, t5);
    lemma_vdr_body_parts(d);
}

/// A written VDR value reads back as itself, when its numbers are decimal
/// literals.
#[verifier::spinoff_prover]
pub proof fn lemma_vdr_reads_back(d: VdrData)
    requires
        crate::readback::valid_opt_number(d.direction_true),
        crate::readback::valid_opt_number(d.direction_magnetic),
        crate::readback::valid_opt_number(d.speed),
    ensures
        vdr_data_result(vdr_body(d), Ok(d)),
        !vdr_body(d).contains('*'),
        vstd::utf8::is_ascii_chars(vdr_body(d)),
{
    lemma_vdr_fields(d);
    assert(crate::readback::plain_fields(split_fields(vdr_body(d)))) by {
        crate::readback::lemma_opt_number_plain(d.direction_true);
        crate::readback::lemma_char_plain('T');
        crate::readback::lemma_opt_number_plain(d.direction_magnetic);
        crate::readback::lemma_char_plain('M');
        crate::readback::lemma_opt_number_plain(d.speed);
        crate::readback::lemma_char_plain('N');
    }
    crate::readback::lemma_plain_from_fields(vdr_body(d));
    assert(opt_float_field(opt_number_text(d.direction_true)) == Some(crate::text::opt_num_view(d.direction_true)) && opt_std_float_field(opt_number_text(d.direction_true)) == Some(crate::text::opt_num_view(d.direction_true))) by {
        crate::readback::lemma_opt_number_reads_back(d.direction_true);
    }
    assert(opt_float_field(opt_number_text(d.direction_magnetic)) == Some(crate::text::opt_num_view(d.direction_magnetic)) && opt_std_float_field(opt_number_text(d.direction_magnetic)) == Some(crate::text::opt_num_view(d.direction_magnetic))) by {
        crate::readback::lemma_opt_number_reads_back(d.direction_magnetic);
    }
    assert(opt_float_field(opt_number_text(d.speed)) == Some(crate::text::opt_num_view(d.speed)) && opt_std_float_field(opt_number_text(d.speed)) == Some(crate::text::opt_num_view(d.speed))) by {
        crate::readback::lemma_opt_number_reads_back(d.speed);
    }
}

} // verus!
