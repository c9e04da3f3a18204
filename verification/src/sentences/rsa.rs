//! RSA - Rudder Sensor Angle: `$--RSA,x.x,A,x.x,A*hh`
//! 1. Starboard (or single) rudder sensor; 2. Status, `A` valid;
//! 3. Port rudder sensor; 4. Status, `A` valid.

use vstd::prelude::*;
use vstd::string::*;

use crate::error::Error;
use crate::generate::GenerateNmeaBody;
use crate::parse::NmeaSentence;
use crate::sentence_type::SentenceType;
use crate::strings::{decimal, opt_number_text, push_char, push_opt_number};
use crate::text::{
    Number, chars_of, exec_field_is, exec_field_starts, exec_opt_char_field, field_is,
    field_spans, field_starts, fnum, opt_char_field, opt_float_field, opt_num_is, opt_num_view,
    opt_std_float_field, read_opt_float_field, split_fields,
};

verus! {

/// The data of an RSA sentence.
#[derive(Debug, Clone, PartialEq)]
pub struct RsaData {
    pub starboard: Option<Number>,
    pub starboard_valid: bool,
    pub port: Option<Number>,
    pub port_valid: bool,
}

/// The RSA grammar over the comma-separated fields.
pub open spec fn rsa_accepts(f: Seq<Seq<char>>) -> bool {
    &&& f.len() >= 4
    &&& opt_float_field(f[0]) is Some
    &&& opt_char_field(f[1], 'A')
    &&& opt_float_field(f[2]) is Some
}

/// What reading the data `data` of an RSA sentence gives: the fields it
/// holds when the grammar accepts the data, a parsing error otherwise.
pub open spec fn rsa_data_result(data: Seq<char>, r: Result<RsaData, Error>) -> bool {
    let f = split_fields(data);
    if rsa_accepts(f) {
        r matches Ok(d) && {
            &&& opt_num_is(d.starboard, fnum(f[0]))
            &&& d.starboard_valid == field_is(f[1], 'A')
            &&& opt_num_is(d.port, fnum(f[2]))
            &&& d.port_valid == field_starts(f[3], 'A')
        }
    } else {
        r == Err::<RsaData, Error>(Error::ParsingError)
    }
}

/// What [`parse_rsa`] gives for a sentence.
pub open spec fn rsa_result(s: NmeaSentence, r: Result<RsaData, Error>) -> bool {
    if s.message_id != SentenceType::RSA {
        r == Err::<RsaData, Error>(
            Error::WrongSentenceHeader { expected: SentenceType::RSA, found: s.message_id },
        )
    } else {
        rsa_data_result(s.data@, r)
    }
}

/// Reads the data of an RSA sentence.
pub fn parse_rsa(sentence: NmeaSentence<'_>) -> (r: Result<RsaData, Error>)
    ensures
        rsa_result(sentence, r),
{
    if sentence.message_id != SentenceType::RSA {
        return Err(Error::WrongSentenceHeader { expected: SentenceType::RSA, found: sentence.message_id });
    }
    let d = sentence.data;
    let s = chars_of(d);
    let sp = field_spans(&s);
    if sp.len() < 4 {
        return Err(Error::ParsingError);
    }
    let starboard = read_opt_float_field(d, &s, sp[0].0, sp[0].1);
    let port = read_opt_float_field(d, &s, sp[2].0, sp[2].1);
    if starboard.is_none() || !exec_opt_char_field(&s, sp[1].0, sp[1].1, 'A') || port.is_none() {
        return Err(Error::ParsingError);
    }
    let starboard_valid = exec_field_is(&s, sp[1].0, sp[1].1, 'A');
    let port_valid = exec_field_starts(&s, sp[3].0, sp[3].1, 'A');
    Ok(RsaData { starboard: starboard.unwrap(), starboard_valid, port: port.unwrap(), port_valid })
}

/// The body an RSA value is written as.
pub open spec fn rsa_body(d: RsaData) -> Seq<char> {
    opt_number_text(d.starboard) + seq![','] + (if d.starboard_valid { seq!['A'] } else { seq!['V'] }) + seq![','] + opt_number_text(d.port) + seq![','] + (if d.port_valid { seq!['A'] } else { seq!['V'] })
}

impl GenerateNmeaBody for RsaData {
    open spec fn spec_sentence_type(&self) -> SentenceType {
        SentenceType::RSA
    }

    open spec fn spec_body(&self) -> Seq<char> {
        rsa_body(*self)
    }

    fn sentence_type(&self) -> (t: SentenceType) {
        SentenceType::RSA
    }

    fn write_body(&self, f: &mut String) {
        push_opt_number(f, &self.starboard);
        push_char(f, ',');
        if self.starboard_valid { push_char(f, 'A'); } else { push_char(f, 'V'); }
        push_char(f, ',');
        push_opt_number(f, &self.port);
        push_char(f, ',');
        if self.port_valid { push_char(f, 'A'); } else { push_char(f, 'V'); }
        assert(f@ =~= old(f)@ + rsa_body(*self));
    }
}

/// The body of an RSA value is its parts joined with commas.
#[verifier::spinoff_prover]
proof fn lemma_rsa_body_parts(d: RsaData)
    ensures
        rsa_body(d) == opt_number_text(d.starboard) + seq![','] + (if d.starboard_valid { seq!['A'] } else { seq!['V'] }) + seq![','] + opt_number_text(d.port) + seq![','] + (if d.port_valid { seq!['A'] } else { seq!['V'] }),
{
    let t0 = opt_number_text(d.starboard);
    let t1 = (if d.starboard_valid { seq!['A'] } else { seq!['V'] });
    let t2 = opt_number_text(d.port);
    let t3 = (if d.port_valid { seq!['A'] } else { seq!['V'] });
    
    assert(t0 + seq![','] + t1 + seq![','] + t2 + seq![','] + t3 =~= rsa_body(d));
}

/// The fields of an written RSA value are its parts, none
/// holding a comma or `*`.
#[verifier::spinoff_prover]
proof fn lemma_rsa_fields(d: RsaData)
    requires
        d.starboard_valid,
        crate::readback::valid_opt_number(d.starboard),
        crate::readback::valid_opt_number(d.port),
    ensures
        split_fields(rsa_body(d)) == seq![opt_number_text(d.starboard), (if d.starboard_valid { seq!['A'] } else { seq!['V'] }), opt_number_text(d.port), (if d.port_valid { seq!['A'] } else { seq!['V'] })],
{
    let t0 = opt_number_text(d.starboard);
    let t1 = (if d.starboard_valid { seq!['A'] } else { seq!['V'] });
    let t2 = opt_number_text(d.port);
    let t3 = (if d.port_valid { seq!['A'] } else { seq!['V'] });
    crate::readback::lemma_opt_number_plain(d.starboard);
    crate::readback::lemma_flag_plain(d.starboard_valid, 'A', 'V');
    crate::readback::lemma_opt_number_plain(d.port);
    crate::readback::lemma_flag_plain(d.port_valid, 'A', 'V');
    crate::readback::lemma_split_fields_4(t0, t1, t2, t3);
    lemma_rsa_body_parts(d);
}

/// A written RSA value reads back as itself, when its numbers are decimal
/// literals and its starboard sensor is valid; a starboard `V` is written
/// but not read.
#[verifier::spinoff_prover]
pub proof fn lemma_rsa_reads_back(d: RsaData)
    requires
        d.starboard_valid,
        crate::readback::valid_opt_number(d.starboard),
        crate::readback::valid_opt_number(d.port),
    ensures
        rsa_data_result(rsa_body(d), Ok(d)),
        !rsa_body(d).contains('*'),
        vstd::utf8::is_ascii_chars(rsa_body(d)),
{
    lemma_rsa_fields(d);
    assert(crate::readback::plain_fields(split_fields(rsa_body(d)))) by {
        crate::readback::lemma_opt_number_plain(d.starboard);
        crate::readback::lemma_flag_plain(d.starboard_valid, 'A', 'V');
        crate::readback::lemma_opt_number_plain(d.port);
        crate::readback::lemma_flag_plain(d.port_valid, 'A', 'V');
    }
    crate::readback::lemma_plain_from_fields(rsa_body(d));
    assert(opt_float_field(opt_number_text(d.starboard)) == Some(crate::text::opt_num_view(d.starboard)) && opt_std_float_field(opt_number_text(d.starboard)) == Some(crate::text::opt_num_view(d.starboard))) by {
        crate::readback::lemma_opt_number_reads_back(d.starboard);
    }
    assert(opt_float_field(opt_number_text(d.port)) == Some(crate::text::opt_num_view(d.port)) && opt_std_float_field(opt_number_text(d.port)) == Some(crate::text::opt_num_view(d.port))) by {
        crate::readback::lemma_opt_number_reads_back(d.port);
    }
}

} // verus!
