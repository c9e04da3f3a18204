//! VPW - Speed Measured Parallel to Wind: `$--VPW,x.x,N,x.x,M*hh`
//! 1. Speed, knots; 2. `N`; 3. Speed, meters per second; 4. `M`.

use vstd::prelude::*;
use vstd::string::*;

use crate::error::Error;
use crate::generate::GenerateNmeaBody;
use crate::parse::NmeaSentence;
use crate::sentence_type::SentenceType;
use crate::strings::{decimal, opt_number_text, push_char, push_opt_number};
use crate::text::{
    Number, chars_of, exec_opt_char_field, field_spans, fnum, opt_char_field, opt_float_field,
    opt_num_is, opt_num_view, opt_std_float_field, read_opt_float_field, split_fields,
};

verus! {

/// The data of a VPW sentence.
#[derive(Debug, Clone, PartialEq)]
pub struct VpwData {
    pub speed_knots: Option<Number>,
    pub speed_mps: Option<Number>,
}

/// The VPW grammar over the comma-separated fields.
pub open spec fn vpw_accepts(f: Seq<Seq<char>>) -> bool {
    &&& f.len() >= 4
    &&& opt_float_field(f[0]) is Some
    &&& opt_char_field(f[1], 'N')
    &&& opt_float_field(f[2]) is Some
}

/// What reading the data `data` of a VPW sentence gives: the fields it
/// holds when the grammar accepts the data, a parsing error otherwise.
pub open spec fn vpw_data_result(data: Seq<char>, r: Result<VpwData, Error>) -> bool {
    let f = split_fields(data);
    if vpw_accepts(f) {
        r matches Ok(d) && {
            &&& opt_num_is(d.speed_knots, fnum(f[0]))
            &&& opt_num_is(d.speed_mps, fnum(f[2]))
        }
    } else {
        r == Err::<VpwData, Error>(Error::ParsingError)
    }
}

/// What [`parse_vpw`] gives for a sentence.
pub open spec fn vpw_result(s: NmeaSentence, r: Result<VpwData, Error>) -> bool {
    if s.message_id != SentenceType::VPW {
        r == Err::<VpwData, Error>(
            Error::WrongSentenceHeader { expected: SentenceType::VPW, found: s.message_id },
        )
    } else {
        vpw_data_result(s.data@, r)
    }
}

/// Reads the data of a VPW sentence.
pub fn parse_vpw(sentence: NmeaSentence<'_>) -> (r: Result<VpwData, Error>)
    ensures
        vpw_result(sentence, r),
{
    if sentence.message_id != SentenceType::VPW {
        return Err(Error::WrongSentenceHeader { expected: SentenceType::VPW, found: sentence.message_id });
    }
    let d = sentence.data;
    let s = chars_of(d);
    let sp = field_spans(&s);
    if sp.len() < 4 {
        return Err(Error::ParsingError);
    }
    let speed_knots = read_opt_float_field(d, &s, sp[0].0, sp[0].1);
    let speed_mps = read_opt_float_field(d, &s, sp[2].0, sp[2].1);
    if speed_knots.is_none() || !exec_opt_char_field(&s, sp[1].0, sp[1].1, 'N') || speed_mps.is_none() {
        return Err(Error::ParsingError);
    }
    Ok(VpwData { speed_knots: speed_knots.unwrap(), speed_mps: speed_mps.unwrap() })
}

/// The body a VPW value is written as.
pub open spec fn vpw_body(d: VpwData) -> Seq<char> {
    opt_number_text(d.speed_knots) + seq![',', 'N', ','] + opt_number_text(d.speed_mps) + seq![',', 'M']
}

impl GenerateNmeaBody for VpwData {
    open spec fn spec_sentence_type(&self) -> SentenceType {
        SentenceType::VPW
    }

    open spec fn spec_body(&self) -> Seq<char> {
        vpw_body(*self)
    }

    fn sentence_type(&self) -> (t: SentenceType) {
        SentenceType::VPW
    }

    fn write_body(&self, f: &mut String) {
        push_opt_number(f, &self.speed_knots);
        push_char(f, ',');
        push_char(f, 'N');
        push_char(f, ',');
        push_opt_number(f, &self.speed_mps);
        push_char(f, ',');
        push_char(f, 'M');
        assert(f@ =~= old(f)@ + vpw_body(*self));
    }
}

/// The body of a VPW value is its parts joined with commas.
#[verifier::spinoff_prover]
proof fn lemma_vpw_body_parts(d: VpwData)
    ensures
        vpw_body(d) == opt_number_text(d.speed_knots) + seq![','] + seq!['N'] + seq![','] + opt_number_text(d.speed_mps) + seq![','] + seq!['M'],
{
    let t0 = opt_number_text(d.speed_knots);
    let t1 = seq!['N'];
    let t2 = opt_number_text(d.speed_mps);
    let t3 = seq!['M'];
    
    assert(t0 + seq![','] + t1 + seq![','] + t2 + seq![','] + t3 =~= vpw_body(d));
}

/// The fields of a written VPW value are its parts, none
/// holding a comma or `*`.
#[verifier::spinoff_prover]
proof fn lemma_vpw_fields(d: VpwData)
    requires
        crate::readback::valid_opt_number(d.speed_knots),
        crate::readback::valid_opt_number(d.speed_mps),
    ensures
        split_fields(vpw_body(d)) == seq![opt_number_text(d.speed_knots), seq!['N'], opt_number_text(d.speed_mps), seq!['M']],
{
    let t0 = opt_number_text(d.speed_knots);
    let t1 = seq!['N'];
    let t2 = opt_number_text(d.speed_mps);
    let t3 = seq!['M'];
    crate::readback::lemma_opt_number_plain(d.speed_knots);
    crate::readback::lemma_char_plain('N');
    crate::readback::lemma_opt_number_plain(d.speed_mps);
    crate::readback::lemma_char_plain('M');
    crate::readback::lemma_split_fields_4(t0, t1, t2, t3);
    lemma_vpw_body_parts(d);
}

/// A written VPW value reads back as itself, when its numbers are decimal
/// literals.
#[verifier::spinoff_prover]
pub proof fn lemma_vpw_reads_back(d: VpwData)
    requires
        crate::readback::valid_opt_number(d.speed_knots),
        crate::readback::valid_opt_number(d.speed_mps),
    ensures
        vpw_data_result(vpw_body(d), Ok(d)),
        !vpw_body(d).contains('*'),
        vstd::utf8::is_ascii_chars(vpw_body(d)),
{
    lemma_vpw_fields(d);
    assert(crate::readback::plain_fields(split_fields(vpw_body(d)))) by {
        crate::readback::lemma_opt_number_plain(d.speed_knots);
        crate::readback::lemma_char_plain('N');
        crate::readback::lemma_opt_number_plain(d.speed_mps);
        crate::readback::lemma_char_plain('M');
    }
    crate::readback::lemma_plain_from_fields(vpw_body(d));
    assert(opt_float_field(opt_number_text(d.speed_knots)) == Some(crate::text::opt_num_view(d.speed_knots)) && opt_std_float_field(opt_number_text(d.speed_knots)) == Some(crate::text::opt_num_view(d.speed_knots))) by {
        crate::readback::lemma_opt_number_reads_back(d.speed_knots);
    }
    assert(opt_float_field(opt_number_text(d.speed_mps)) == Some(crate::text::opt_num_view(d.speed_mps)) && opt_std_float_field(opt_number_text(d.speed_mps)) == Some(crate::text::opt_num_view(d.speed_mps))) by {
        crate::readback::lemma_opt_number_reads_back(d.speed_mps);
    }
}

} // verus!
