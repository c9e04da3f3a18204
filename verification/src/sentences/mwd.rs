//! MWD - Wind Direction and Speed: `$--MWD,x.x,T,x.x,M,x.x,N,x.x,M*hh`
//! 1. Wind direction, degrees true; 2. `T`; 3. Wind direction, degrees
//! magnetic; 4. `M`; 5. Wind speed, knots; 6. `N`; 7. Wind speed, meters per
//! second; 8. `M`.

use vstd::prelude::*;
use vstd::string::*;

use crate::error::Error;
use crate::generate::GenerateNmeaBody;
use crate::parse::NmeaSentence;
use crate::sentence_type::SentenceType;
use crate::strings::{decimal, opt_number_text, push_char, push_opt_number};
use crate::text::{
    Number, chars_of, exec_opt_char_field, field_spans, fnum, opt_char_field, opt_float_field,
    opt_num_is, opt_num_view, opt_std_float_field, read_opt_float_field, split_fields,
};

verus! {

/// The data of an MWD sentence.
#[derive(Debug, Clone, PartialEq)]
pub struct MwdData {
    pub wind_direction_true: Option<Number>,
    pub wind_direction_magnetic: Option<Number>,
    pub wind_speed_knots: Option<Number>,
    pub wind_speed_mps: Option<Number>,
}

/// The MWD grammar over the comma-separated fields.
pub open spec fn mwd_accepts(f: Seq<Seq<char>>) -> bool {
    &&& f.len() >= 8
    &&& opt_float_field(f[0]) is Some
    &&& opt_char_field(f[1], 'T')
    &&& opt_float_field(f[2]) is Some
    &&& opt_char_field(f[3], 'M')
    &&& opt_float_field(f[4]) is Some
    &&& opt_char_field(f[5], 'N')
    &&& opt_float_field(f[6]) is Some
}

/// What reading the data `data` of an MWD sentence gives: the fields it
/// holds when the grammar accepts the data, a parsing error otherwise.
pub open spec fn mwd_data_result(data: Seq<char>, r: Result<MwdData, Error>) -> bool {
    let f = split_fields(data);
    if mwd_accepts(f) {
        r matches Ok(d) && {
            &&& opt_num_is(d.wind_direction_true, fnum(f[0]))
            &&& opt_num_is(d.wind_direction_magnetic, fnum(f[2]))
            &&& opt_num_is(d.wind_speed_knots, fnum(f[4]))
            &&& opt_num_is(d.wind_speed_mps, fnum(f[6]))
        }
    } else {
        r == Err::<MwdData, Error>(Error::ParsingError)
    }
}

/// What [`parse_mwd`] gives for a sentence.
pub open spec fn mwd_result(s: NmeaSentence, r: Result<MwdData, Error>) -> bool {
    if s.message_id != SentenceType::MWD {
        r == Err::<MwdData, Error>(
            Error::WrongSentenceHeader { expected: SentenceType::MWD, found: s.message_id },
        )
    } else {
        mwd_data_result(s.data@, r)
    }
}

/// Reads the data of an MWD sentence.
pub fn parse_mwd(sentence: NmeaSentence<'_>) -> (r: Result<MwdData, Error>)
    ensures
        mwd_result(sentence, r),
{
    if sentence.message_id != SentenceType::MWD {
        return Err(Error::WrongSentenceHeader { expected: SentenceType::MWD, found: sentence.message_id });
    }
    let d = sentence.data;
    let s = chars_of(d);
    let sp = field_spans(&s);
    if sp.len() < 8 {
        return Err(Error::ParsingError);
    }
    let wind_direction_true = read_opt_float_field(d, &s, sp[0].0, sp[0].1);
    let wind_direction_magnetic = read_opt_float_field(d, &s, sp[2].0, sp[2].1);
    let wind_speed_knots = read_opt_float_field(d, &s, sp[4].0, sp[4].1);
    let wind_speed_mps = read_opt_float_field(d, &s, sp[6].0, sp[6].1);
    if wind_direction_true.is_none() || !exec_opt_char_field(&s, sp[1].0, sp[1].1, 'T') || wind_direction_magnetic.is_none() || !exec_opt_char_field(&s, sp[3].0, sp[3].1, 'M') || wind_speed_knots.is_none() || !exec_opt_char_field(&s, sp[5].0, sp[5].1, 'N') || wind_speed_mps.is_none() {
        return Err(Error::ParsingError);
    }
    Ok(MwdData { wind_direction_true: wind_direction_true.unwrap(), wind_direction_magnetic: wind_direction_magnetic.unwrap(), wind_speed_knots: wind_speed_knots.unwrap(), wind_speed_mps: wind_speed_mps.unwrap() })
}

/// The body an MWD value is written as.
pub open spec fn mwd_body(d: MwdData) -> Seq<char> {
    opt_number_text(d.wind_direction_true) + seq![',', 'T', ','] + opt_number_text(d.wind_direction_magnetic) + seq![',', 'M', ','] + opt_number_text(d.wind_speed_knots) + seq![',', 'N', ','] + opt_number_text(d.wind_speed_mps) + seq![',', 'M']
}

impl GenerateNmeaBody for MwdData {
    open spec fn spec_sentence_type(&self) -> SentenceType {
        SentenceType::MWD
    }

    open spec fn spec_body(&self) -> Seq<char> {
        mwd_body(*self)
    }

    fn sentence_type(&self) -> (t: SentenceType) {
        SentenceType::MWD
    }

    fn write_body(&self, f: &mut String) {
        push_opt_number(f, &self.wind_direction_true);
        push_char(f, ',');
        push_char(f, 'T');
        push_char(f, ',');
        push_opt_number(f, &self.wind_direction_magnetic);
        push_char(f, ',');
        push_char(f, 'M');
        push_char(f, ',');
        push_opt_number(f, &self.wind_speed_knots);
        push_char(f, ',');
        push_char(f, 'N');
        push_char(f, ',');
        push_opt_number(f, &self.wind_speed_mps);
        push_char(f, ',');
        push_char(f, 'M');
        assert(f@ =~= old(f)@ + mwd_body(*self));
    }
}

/// The body of an MWD value is its parts joined with commas.
#[verifier::spinoff_prover]
proof fn lemma_mwd_body_parts(d: MwdData)
    ensures
        mwd_body(d) == opt_number_text(d.wind_direction_true) + seq![','] + seq!['T'] + seq![','] + opt_number_text(d.wind_direction_magnetic) + seq![','] + seq!['M'] + seq![','] + opt_number_text(d.wind_speed_knots) + seq![','] + seq!['N'] + seq![','] + opt_number_text(d.wind_speed_mps) + seq![','] + seq!['M'],
{
    let t0 = opt_number_text(d.wind_direction_true);
    let t1 = seq!['T'];
    let t2 = opt_number_text(d.wind_direction_magnetic);
    let t3 = seq!['M'];
    let t4 = opt_number_text(d.wind_speed_knots);
    let t5 = seq!['N'];
    let t6 = opt_number_text(d.wind_speed_mps);
    let t7 = seq!['M'];
    
    assert(t0 + seq![','] + t1 + seq![','] + t2 + seq![','] + t3 + seq![','] + t4 + seq![','] + t5 + seq![','] + t6 + seq![','] + t7 =~= mwd_body(d));
}

/// The fields of an written MWD value are its parts, none
/// holding a comma or `*`.
#[verifier::spinoff_prover]
proof fn lemma_mwd_fields(d: MwdData)
    requires
        crate::readback::valid_opt_number(d.wind_direction_true),
        crate::readback::valid_opt_number(d.wind_direction_magnetic),
        crate::readback::valid_opt_number(d.wind_speed_knots),
        crate::readback::valid_opt_number(d.wind_speed_mps),
    ensures
        split_fields(mwd_body(d)) == seq![opt_number_text(d.wind_direction_true), seq!['T'], opt_number_text(d.wind_direction_magnetic), seq!['M'], opt_number_text(d.wind_speed_knots), seq!['N'], opt_number_text(d.wind_speed_mps), seq!['M']],
{
    let t0 = opt_number_text(d.wind_direction_true);
    let t1 = seq!['T'];
    let t2 = opt_number_text(d.wind_direction_magnetic);
    let t3 = seq!['M'];
    let t4 = opt_number_text(d.wind_speed_knots);
    let t5 = seq!['N'];
    let t6 = opt_number_text(d.wind_speed_mps);
    let t7 = seq!['M'];
    crate::readback::lemma_opt_number_plain(d.wind_direction_true);
    crate::readback::lemma_char_plain('T');
    crate::readback::lemma_opt_number_plain(d.wind_direction_magnetic);
    crate::readback::lemma_char_plain('M');
    crate::readback::lemma_opt_number_plain(d.wind_speed_knots);
    crate::readback::lemma_char_plain('N');
    crate::readback::lemma_opt_number_plain(d.wind_speed_mps);
    crate::readback::lemma_char_plain('M');
    crate::readback::lemma_split_fields_8(t0, t1, t2, t3, t4, t5, t6, t7);
    lemma_mwd_body_parts(d);
}

/// A written MWD value reads back as itself, when its numbers are decimal
/// literals.
#[verifier::spinoff_prover]
#[verifier::rlimit(50)]
pub proof fn lemma_mwd_reads_back(d: MwdData)
    requires
        crate::readback::valid_opt_number(d.wind_direction_true),
        crate::readback::valid_opt_number(d.wind_direction_magnetic),
        crate::readback::valid_opt_number(d.wind_speed_knots),
        crate::readback::valid_opt_number(d.wind_speed_mps),
    ensures
        mwd_data_result(mwd_body(d), Ok(d)),
        !mwd_body(d).contains('*'),
        vstd::utf8::is_ascii_chars(mwd_body(d)),
{
    lemma_mwd_fields(d);
    assert(crate::readback::plain_fields(split_fields(mwd_body(d)))) by {
        crate::readback::lemma_opt_number_plain(d.wind_direction_true);
        crate::readback::lemma_char_plain('T');
        crate::readback::lemma_opt_number_plain(d.wind_direction_magnetic);
        crate::readback::lemma_char_plain('M');
        crate::readback::lemma_opt_number_plain(d.wind_speed_knots);
        crate::readback::lemma_char_plain('N');
        crate::readback::lemma_opt_number_plain(d.wind_speed_mps);
        crate::readback::lemma_char_plain('M');
    }
    crate::readback::lemma_plain_from_fields(mwd_body(d));
    assert(opt_float_field(opt_number_text(d.wind_direction_true)) == Some(crate::text::opt_num_view(d.wind_direction_true)) && opt_std_float_field(opt_number_text(d.wind_direction_true)) == Some(crate::text::opt_num_view(d.wind_direction_true))) by {
        crate::readback::lemma_opt_number_reads_back(d.wind_direction_true);
    }
    assert(opt_float_field(opt_number_text(d.wind_direction_magnetic)) == Some(crate::text::opt_num_view(d.wind_direction_magnetic)) && opt_std_float_field(opt_number_text(d.wind_direction_magnetic)) == Some(crate::text::opt_num_view(d.wind_direction_magnetic))) by {
        crate::readback::lemma_opt_number_reads_back(d.wind_direction_magnetic);
    }
    assert(opt_float_field(opt_number_text(d.wind_speed_knots)) == Some(crate::text::opt_num_view(d.wind_speed_knots)) && opt_std_float_field(opt_number_text(d.wind_speed_knots)) == Some(crate::text::opt_num_view(d.wind_speed_knots))) by {
        crate::readback::lemma_opt_number_reads_back(d.wind_speed_knots);
    }
    assert(opt_float_field(opt_number_text(d.wind_speed_mps)) == Some(crate::text::opt_num_view(d.wind_speed_mps)) && opt_std_float_field(opt_number_text(d.wind_speed_mps)) == Some(crate::text::opt_num_view(d.wind_speed_mps))) by {
        crate::readback::lemma_opt_number_reads_back(d.wind_speed_mps);
    }
}

} // verus!
