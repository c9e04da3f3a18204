//! RPM - Revolutions: `$--RPM,a,x,x.x,x.x,A*hh`
//! 1. Source, `S` shaft or `E` engine; 2. Engine or shaft number;
//! 3. Speed, revolutions per minute; 4. Propeller pitch, percent of maximum,
//! negative astern; 5. Status, `A` valid.

use vstd::prelude::*;
use vstd::string::*;

use crate::error::Error;
use crate::generate::GenerateNmeaBody;
use crate::parse::NmeaSentence;
use crate::sentence_type::SentenceType;
use crate::strings::{
    decimal, opt_decimal, opt_number_text, push_char, push_opt_decimal, push_opt_number,
};
use crate::text::{
    Number, chars_of, exec_opt_one_of_field, exec_opt_one_of_prefix, field_spans, fnum, funs,
    opt_float_field, opt_num_is, opt_num_view, opt_one_of_field, opt_one_of_prefix,
    opt_std_float_field, opt_u8_is, opt_unsigned_field, read_opt_float_field, read_opt_unsigned,
    split_fields,
};

verus! {

/// The data of an RPM sentence.
#[derive(Debug, Clone, PartialEq)]
pub struct RpmData {
    pub source: Option<RpmSource>,
    /// Engine or shaft number.
    pub source_number: Option<u8>,
    /// Revolutions per minute.
    pub rpm: Option<Number>,
    /// Propeller pitch, percent of maximum; negative astern.
    pub pitch: Option<Number>,
    pub valid: bool,
}

/// The RPM grammar over the comma-separated fields.
pub open spec fn rpm_accepts(f: Seq<Seq<char>>) -> bool {
    &&& f.len() >= 5
    &&& opt_one_of_field(f[0], seq!['S', 'E']) is Some
    &&& opt_unsigned_field(f[1], 255) is Some
    &&& opt_float_field(f[2]) is Some
    &&& opt_float_field(f[3]) is Some
}

/// What reading the data `data` of an RPM sentence gives: the fields it
/// holds when the grammar accepts the data, a parsing error otherwise.
pub open spec fn rpm_data_result(data: Seq<char>, r: Result<RpmData, Error>) -> bool {
    let f = split_fields(data);
    if rpm_accepts(f) {
        r matches Ok(d) && {
            &&& d.source == rpm_source(opt_one_of_field(f[0], seq!['S', 'E']).unwrap())
            &&& opt_u8_is(d.source_number, funs(f[1], 255))
            &&& opt_num_is(d.rpm, fnum(f[2]))
            &&& opt_num_is(d.pitch, fnum(f[3]))
            &&& d.valid == (opt_one_of_prefix(f[4], seq!['A', 'V']) == Some('A'))
        }
    } else {
        r == Err::<RpmData, Error>(Error::ParsingError)
    }
}

/// What [`parse_rpm`] gives for a sentence.
pub open spec fn rpm_result(s: NmeaSentence, r: Result<RpmData, Error>) -> bool {
    if s.message_id != SentenceType::RPM {
        r == Err::<RpmData, Error>(
            Error::WrongSentenceHeader { expected: SentenceType::RPM, found: s.message_id },
        )
    } else {
        rpm_data_result(s.data@, r)
    }
}

/// Reads the data of an RPM sentence.
pub fn parse_rpm(sentence: NmeaSentence<'_>) -> (r: Result<RpmData, Error>)
    ensures
        rpm_result(sentence, r),
{
    if sentence.message_id != SentenceType::RPM {
        return Err(Error::WrongSentenceHeader { expected: SentenceType::RPM, found: sentence.message_id });
    }
    let d = sentence.data;
    let s = chars_of(d);
    let sp = field_spans(&s);
    if sp.len() < 5 {
        return Err(Error::ParsingError);
    }
    let se = ['S', 'E'];
    let av = ['A', 'V'];
    assert(se@ =~= seq!['S', 'E']);
    assert(av@ =~= seq!['A', 'V']);
    let src = exec_opt_one_of_field(&s, sp[0].0, sp[0].1, se.as_slice());
    let num = read_opt_unsigned(&s, sp[1].0, sp[1].1, 255);
    let rpm = read_opt_float_field(d, &s, sp[2].0, sp[2].1);
    let pitch = read_opt_float_field(d, &s, sp[3].0, sp[3].1);
    if src.is_none() || num.is_none() || rpm.is_none() || pitch.is_none() {
        return Err(Error::ParsingError);
    }
    let source = match src.unwrap() {
        Some('S') => Some(RpmSource::Shaft),
        Some(_) => Some(RpmSource::Engine),
        None => None,
    };
    let source_number = match num.unwrap() {
        Some(n) => Some(n as u8),
        None => None,
    };
    let valid = exec_opt_one_of_prefix(&s, sp[4].0, sp[4].1, av.as_slice()) == Some('A');
    Ok(RpmData { source, source_number, rpm: rpm.unwrap(), pitch: pitch.unwrap(), valid })
}

/// The body an RPM value is written as.
pub open spec fn rpm_body(d: RpmData) -> Seq<char> {
    rpm_source_text(d.source) + seq![','] + opt_decimal(d.source_number) + seq![','] + opt_number_text(d.rpm) + seq![','] + opt_number_text(d.pitch) + seq![','] + (if d.valid { seq!['A'] } else { seq!['V'] })
}

impl GenerateNmeaBody for RpmData {
    open spec fn spec_sentence_type(&self) -> SentenceType {
        SentenceType::RPM
    }

    open spec fn spec_body(&self) -> Seq<char> {
        rpm_body(*self)
    }

    fn sentence_type(&self) -> (t: SentenceType) {
        SentenceType::RPM
    }

    fn write_body(&self, f: &mut String) {
        match self.source { Some(RpmSource::Shaft) => push_char(f, 'S'), Some(RpmSource::Engine) => push_char(f, 'E'), None => {} }
        push_char(f, ',');
        push_opt_decimal(f, self.source_number);
        push_char(f, ',');
        push_opt_number(f, &self.rpm);
        push_char(f, ',');
        push_opt_number(f, &self.pitch);
        push_char(f, ',');
        if self.valid { push_char(f, 'A'); } else { push_char(f, 'V'); }
        assert(f@ =~= old(f)@ + rpm_body(*self));
    }
}

/// What drives the revolutions.
#[derive(Debug, Clone, Copy, PartialEq, Eq, Structural)]
pub enum RpmSource {
    Shaft,
    Engine,
}

/// The source a source letter names.
pub open spec fn rpm_source(c: Option<char>) -> Option<RpmSource> {
    match c {
        Some('S') => Some(RpmSource::Shaft),
        Some(_) => Some(RpmSource::Engine),
        None => None,
    }
}

/// The letter a source is written as.
pub open spec fn rpm_source_text(s: Option<RpmSource>) -> Seq<char> {
    match s {
        Some(RpmSource::Shaft) => seq!['S'],
        Some(RpmSource::Engine) => seq!['E'],
        None => Seq::empty(),
    }
}

/// The body of an RPM value is its parts joined with commas.
#[verifier::spinoff_prover]
proof fn lemma_rpm_body_parts(d: RpmData)
    ensures
        rpm_body(d) == rpm_source_text(d.source) + seq![','] + opt_decimal(d.source_number) + seq![','] + opt_number_text(d.rpm) + seq![','] + opt_number_text(d.pitch) + seq![','] + (if d.valid { seq!['A'] } else { seq!['V'] }),
{
    let t0 = rpm_source_text(d.source);
    let t1 = opt_decimal(d.source_number);
    let t2 = opt_number_text(d.rpm);
    let t3 = opt_number_text(d.pitch);
    let t4 = (if d.valid { seq!['A'] } else { seq!['V'] });
    
    assert(t0 + seq![','] + t1 + seq![','] + t2 + seq![','] + t3 + seq![','] + t4 =~= rpm_body(d));
}

/// The fields of an written RPM value are its parts, none
/// holding a comma or `*`.
#[verifier::spinoff_prover]
proof fn lemma_rpm_fields(d: RpmData)
    requires
        crate::readback::valid_opt_number(d.rpm),
        crate::readback::valid_opt_number(d.pitch),
    ensures
        split_fields(rpm_body(d)) == seq![rpm_source_text(d.source), opt_decimal(d.source_number), opt_number_text(d.rpm), opt_number_text(d.pitch), (if d.valid { seq!['A'] } else { seq!['V'] })],
{
    let t0 = rpm_source_text(d.source);
    let t1 = opt_decimal(d.source_number);
    let t2 = opt_number_text(d.rpm);
    let t3 = opt_number_text(d.pitch);
    let t4 = (if d.valid { seq!['A'] } else { seq!['V'] });
    match d.source { Some(RpmSource::Shaft) => { crate::readback::lemma_char_plain('S'); }, Some(RpmSource::Engine) => { crate::readback::lemma_char_plain('E'); }, None => {} }
    crate::readback::lemma_opt_decimal_reads_back(d.source_number, 255);
    crate::readback::lemma_opt_number_plain(d.rpm);
    crate::readback::lemma_opt_number_plain(d.pitch);
    crate::readback::lemma_flag_plain(d.valid, 'A', 'V');
    crate::readback::lemma_split_fields_5(t0, t1, t2, t3, t4);
    lemma_rpm_body_parts(d);
}

/// A written RPM value reads back as itself, when its numbers are decimal
/// literals.
#[verifier::spinoff_prover]
pub proof fn lemma_rpm_reads_back(d: RpmData)
    requires
        crate::readback::valid_opt_number(d.rpm),
        crate::readback::valid_opt_number(d.pitch),
    ensures
        rpm_data_result(rpm_body(d), Ok(d)),
        !rpm_body(d).contains('*'),
        vstd::utf8::is_ascii_chars(rpm_body(d)),
{
    lemma_rpm_fields(d);
    assert(crate::readback::plain_fields(split_fields(rpm_body(d)))) by {
        match d.source { Some(RpmSource::Shaft) => { crate::readback::lemma_char_plain('S'); }, Some(RpmSource::Engine) => { crate::readback::lemma_char_plain('E'); }, None => {} }
        crate::readback::lemma_opt_decimal_reads_back(d.source_number, 255);
        crate::readback::lemma_opt_number_plain(d.rpm);
        crate::readback::lemma_opt_number_plain(d.pitch);
        crate::readback::lemma_flag_plain(d.valid, 'A', 'V');
    }
    crate::readback::lemma_plain_from_fields(rpm_body(d));
    assert(seq!['S', 'E'][0] == 'S' && seq!['S', 'E'][1] == 'E');
    assert(seq!['A', 'V'][0] == 'A' && seq!['A', 'V'][1] == 'V');
    crate::readback::lemma_opt_decimal_reads_back(d.source_number, 255);
    assert(opt_float_field(opt_number_text(d.rpm)) == Some(crate::text::opt_num_view(d.rpm)) && opt_std_float_field(opt_number_text(d.rpm)) == Some(crate::text::opt_num_view(d.rpm))) by {
        crate::readback::lemma_opt_number_reads_back(d.rpm);
    }
    assert(opt_float_field(opt_number_text(d.pitch)) == Some(crate::text::opt_num_view(d.pitch)) && opt_std_float_field(opt_number_text(d.pitch)) == Some(crate::text::opt_num_view(d.pitch))) by {
        crate::readback::lemma_opt_number_reads_back(d.pitch);
    }
}

/// Reading an RPM sentence gives the letters their NMEA meaning: the
/// source `S` is a shaft and `E` an engine; a status field starting with `A`
/// is valid data.
pub proof fn lemma_rpm_letters_read(data: Seq<char>, d: RpmData)
    requires
        rpm_data_result(data, Ok(d)),
    ensures
        ({
            let f = split_fields(data);
            &&& d.source == Some(RpmSource::Shaft) <==> f[0] == seq!['S']
            &&& d.source == Some(RpmSource::Engine) <==> f[0] == seq!['E']
            &&& d.source is None <==> f[0].len() == 0
            &&& d.valid <==> f[4].len() >= 1 && f[4][0] == 'A'
        }),
{
    let f = split_fields(data);
    crate::text::lemma_letters2('S', 'E', f[0]);
    crate::text::lemma_letters2('A', 'V', f[4]);
}

/// Writing an RPM value gives its source and status their NMEA letters:
/// `S` for a shaft, `E` for an engine, `A` for valid data.
pub proof fn lemma_rpm_letters_written(d: RpmData)
    requires
        crate::readback::valid_opt_number(d.rpm),
        crate::readback::valid_opt_number(d.pitch),
    ensures
        ({
            let f = split_fields(rpm_body(d));
            &&& d.source == Some(RpmSource::Shaft) <==> f[0] == seq!['S']
            &&& d.source == Some(RpmSource::Engine) <==> f[0] == seq!['E']
            &&& d.valid <==> f[4].len() >= 1 && f[4][0] == 'A'
        }),
{
    lemma_rpm_reads_back(d);
    lemma_rpm_letters_read(rpm_body(d), d);
}

} // verus!
