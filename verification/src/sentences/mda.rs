//! MDA - Meteorological Composite:
//! `$--MDA,x.x,I,x.x,B,x.x,C,x.x,C,x.x,x.x,x.x,C,x.x,T,x.x,M,x.x,N,x.x,M*hh`
//! 1-2. Barometric pressure, inches of mercury, `I`; 3-4. Barometric pressure,
//! bars, `B`; 5-6. Air temperature, degrees C, `C`; 7-8. Water temperature,
//! degrees C, `C`; 9. Relative humidity, percent; 10. Absolute humidity,
//! percent; 11-12. Dew point, degrees C, `C`; 13-14. Wind direction, degrees
//! true, `T`; 15-16. Wind direction, degrees magnetic, `M`; 17-18. Wind speed,
//! knots, `N`; 19-20. Wind speed, meters per second, `M`.
//! Every unit letter may be left empty.

use vstd::prelude::*;
use vstd::string::*;

use crate::error::Error;
use crate::generate::GenerateNmeaBody;
use crate::parse::NmeaSentence;
use crate::sentence_type::SentenceType;
use crate::strings::{decimal, opt_number_text, push_char, push_opt_number};
use crate::text::{
    Number, chars_of, exec_opt_char_field, field_spans, fnum, opt_char_field, opt_float_field,
    opt_num_is, opt_num_view, opt_std_float_field, read_opt_float_field, split_fields,
};

verus! {

/// The data of an MDA sentence.
#[derive(Debug, Clone, PartialEq)]
pub struct MdaData {
    pub pressure_in_hg: Option<Number>,
    pub pressure_bar: Option<Number>,
    pub air_temp_deg: Option<Number>,
    pub water_temp_deg: Option<Number>,
    pub rel_humidity: Option<Number>,
    pub abs_humidity: Option<Number>,
    pub dew_point: Option<Number>,
    pub wind_direction_true: Option<Number>,
    pub wind_direction_magnetic: Option<Number>,
    pub wind_speed_knots: Option<Number>,
    pub wind_speed_ms: Option<Number>,
}

/// The MDA grammar over the comma-separated fields.
pub open spec fn mda_accepts(f: Seq<Seq<char>>) -> bool {
    &&& f.len() >= 20
    &&& opt_float_field(f[0]) is Some
    &&& opt_char_field(f[1], 'I')
    &&& opt_float_field(f[2]) is Some
    &&& opt_char_field(f[3], 'B')
    &&& opt_float_field(f[4]) is Some
    &&& opt_char_field(f[5], 'C')
    &&& opt_float_field(f[6]) is Some
    &&& opt_char_field(f[7], 'C')
    &&& opt_float_field(f[8]) is Some
    &&& opt_float_field(f[9]) is Some
    &&& opt_float_field(f[10]) is Some
    &&& opt_char_field(f[11], 'C')
    &&& opt_float_field(f[12]) is Some
    &&& opt_char_field(f[13], 'T')
    &&& opt_float_field(f[14]) is Some
    &&& opt_char_field(f[15], 'M')
    &&& opt_float_field(f[16]) is Some
    &&& opt_char_field(f[17], 'N')
    &&& opt_float_field(f[18]) is Some
}

/// What reading the data `data` of an MDA sentence gives: the fields it
/// holds when the grammar accepts the data, a parsing error otherwise.
pub open spec fn mda_data_result(data: Seq<char>, r: Result<MdaData, Error>) -> bool {
    let f = split_fields(data);
    if mda_accepts(f) {
        r matches Ok(d) && {
            &&& opt_num_is(d.pressure_in_hg, fnum(f[0]))
            &&& opt_num_is(d.pressure_bar, fnum(f[2]))
            &&& opt_num_is(d.air_temp_deg, fnum(f[4]))
            &&& opt_num_is(d.water_temp_deg, fnum(f[6]))
            &&& opt_num_is(d.rel_humidity, fnum(f[8]))
            &&& opt_num_is(d.abs_humidity, fnum(f[9]))
            &&& opt_num_is(d.dew_point, fnum(f[10]))
            &&& opt_num_is(d.wind_direction_true, fnum(f[12]))
            &&& opt_num_is(d.wind_direction_magnetic, fnum(f[14]))
            &&& opt_num_is(d.wind_speed_knots, fnum(f[16]))
            &&& opt_num_is(d.wind_speed_ms, fnum(f[18]))
        }
    } else {
        r == Err::<MdaData, Error>(Error::ParsingError)
    }
}

/// What [`parse_mda`] gives for a sentence.
pub open spec fn mda_result(s: NmeaSentence, r: Result<MdaData, Error>) -> bool {
    if s.message_id != SentenceType::MDA {
        r == Err::<MdaData, Error>(
            Error::WrongSentenceHeader { expected: SentenceType::MDA, found: s.message_id },
        )
    } else {
        mda_data_result(s.data@, r)
    }
}

/// Reads the data of an MDA sentence.
pub fn parse_mda(sentence: NmeaSentence<'_>) -> (r: Result<MdaData, Error>)
    ensures
        mda_result(sentence, r),
{
    if sentence.message_id != SentenceType::MDA {
        return Err(Error::WrongSentenceHeader { expected: SentenceType::MDA, found: sentence.message_id });
    }
    let d = sentence.data;
    let s = chars_of(d);
    let sp = field_spans(&s);
    if sp.len() < 20 {
        return Err(Error::ParsingError);
    }
    let pressure_in_hg = read_opt_float_field(d, &s, sp[0].0, sp[0].1);
    let pressure_bar = read_opt_float_field(d, &s, sp[2].0, sp[2].1);
    let air_temp_deg = read_opt_float_field(d, &s, sp[4].0, sp[4].1);
    let water_temp_deg = read_opt_float_field(d, &s, sp[6].0, sp[6].1);
    let rel_humidity = read_opt_float_field(d, &s, sp[8].0, sp[8].1);
    let abs_humidity = read_opt_float_field(d, &s, sp[9].0, sp[9].1);
    let dew_point = read_opt_float_field(d, &s, sp[10].0, sp[10].1);
    let wind_direction_true = read_opt_float_field(d, &s, sp[12].0, sp[12].1);
    let wind_direction_magnetic = read_opt_float_field(d, &s, sp[14].0, sp[14].1);
    let wind_speed_knots = read_opt_float_field(d, &s, sp[16].0, sp[16].1);
    let wind_speed_ms = read_opt_float_field(d, &s, sp[18].0, sp[18].1);
    if pressure_in_hg.is_none() || !exec_opt_char_field(&s, sp[1].0, sp[1].1, 'I') || pressure_bar.is_none() || !exec_opt_char_field(&s, sp[3].0, sp[3].1, 'B') || air_temp_deg.is_none() || !exec_opt_char_field(&s, sp[5].0, sp[5].1, 'C') || water_temp_deg.is_none() || !exec_opt_char_field(&s, sp[7].0, sp[7].1, 'C') || rel_humidity.is_none() || abs_humidity.is_none() || dew_point.is_none() || !exec_opt_char_field(&s, sp[11].0, sp[11].1, 'C') || wind_direction_true.is_none() || !exec_opt_char_field(&s, sp[13].0, sp[13].1, 'T') || wind_direction_magnetic.is_none() || !exec_opt_char_field(&s, sp[15].0, sp[15].1, 'M') || wind_speed_knots.is_none() || !exec_opt_char_field(&s, sp[17].0, sp[17].1, 'N') || wind_speed_ms.is_none() {
        return Err(Error::ParsingError);
    }
    Ok(MdaData { pressure_in_hg: pressure_in_hg.unwrap(), pressure_bar: pressure_bar.unwrap(), air_temp_deg: air_temp_deg.unwrap(), water_temp_deg: water_temp_deg.unwrap(), rel_humidity: rel_humidity.unwrap(), abs_humidity: abs_humidity.unwrap(), dew_point: dew_point.unwrap(), wind_direction_true: wind_direction_true.unwrap(), wind_direction_magnetic: wind_direction_magnetic.unwrap(), wind_speed_knots: wind_speed_knots.unwrap(), wind_speed_ms: wind_speed_ms.unwrap() })
}

/// The pressure and temperature fields of an MDA value.
pub open spec fn mda_head(d: MdaData) -> Seq<char> {
    opt_number_text(d.pressure_in_hg) + seq![',', 'I', ','] + opt_number_text(d.pressure_bar) + seq![',', 'B', ','] + opt_number_text(d.air_temp_deg) + seq![',', 'C', ','] + opt_number_text(d.water_temp_deg) + seq![',', 'C', ',']
}

/// The humidity and wind fields of an MDA value.
pub open spec fn mda_tail(d: MdaData) -> Seq<char> {
    opt_number_text(d.rel_humidity) + seq![','] + opt_number_text(d.abs_humidity) + seq![','] + opt_number_text(d.dew_point) + seq![',', 'C', ','] + opt_number_text(d.wind_direction_true) + seq![',', 'T', ','] + opt_number_text(d.wind_direction_magnetic) + seq![',', 'M', ','] + opt_number_text(d.wind_speed_knots) + seq![',', 'N', ','] + opt_number_text(d.wind_speed_ms) + seq![',', 'M']
}

/// The body an MDA value is written as.
pub open spec fn mda_body(d: MdaData) -> Seq<char> {
    mda_head(d) + mda_tail(d)
}

fn write_mda_head(f: &mut String, d: &MdaData)
    ensures
        final(f)@ == old(f)@ + mda_head(*d),
{
    push_opt_number(f, &d.pressure_in_hg);
    push_char(f, ',');
    push_char(f, 'I');
    push_char(f, ',');
    push_opt_number(f, &d.pressure_bar);
    push_char(f, ',');
    push_char(f, 'B');
    push_char(f, ',');
    push_opt_number(f, &d.air_temp_deg);
    push_char(f, ',');
    push_char(f, 'C');
    push_char(f, ',');
    push_opt_number(f, &d.water_temp_deg);
    push_char(f, ',');
    push_char(f, 'C');
    push_char(f, ',');
    assert(f@ =~= old(f)@ + mda_head(*d));
}

fn write_mda_humidity(f: &mut String, d: &MdaData)
    ensures
        final(f)@ == old(f)@ + opt_number_text(d.rel_humidity) + seq![','] + opt_number_text(d.abs_humidity) + seq![','] + opt_number_text(d.dew_point) + seq![',', 'C', ','],
{
    push_opt_number(f, &d.rel_humidity);
    push_char(f, ',');
    push_opt_number(f, &d.abs_humidity);
    push_char(f, ',');
    push_opt_number(f, &d.dew_point);
    push_char(f, ',');
    push_char(f, 'C');
    push_char(f, ',');
    assert(f@ =~= old(f)@ + opt_number_text(d.rel_humidity) + seq![','] + opt_number_text(d.abs_humidity) + seq![','] + opt_number_text(d.dew_point) + seq![',', 'C', ',']);
}

fn write_mda_wind(f: &mut String, d: &MdaData)
    ensures
        final(f)@ == old(f)@ + opt_number_text(d.wind_direction_true) + seq![',', 'T', ','] + opt_number_text(d.wind_direction_magnetic) + seq![',', 'M', ','] + opt_number_text(d.wind_speed_knots) + seq![',', 'N', ','] + opt_number_text(d.wind_speed_ms) + seq![',', 'M'],
{
    push_opt_number(f, &d.wind_direction_true);
    push_char(f, ',');
    push_char(f, 'T');
    push_char(f, ',');
    push_opt_number(f, &d.wind_direction_magnetic);
    push_char(f, ',');
    push_char(f, 'M');
    push_char(f, ',');
    push_opt_number(f, &d.wind_speed_knots);
    push_char(f, ',');
    push_char(f, 'N');
    push_char(f, ',');
    push_opt_number(f, &d.wind_speed_ms);
    push_char(f, ',');
    push_char(f, 'M');
    assert(f@ =~= old(f)@ + opt_number_text(d.wind_direction_true) + seq![',', 'T', ','] + opt_number_text(d.wind_direction_magnetic) + seq![',', 'M', ','] + opt_number_text(d.wind_speed_knots) + seq![',', 'N', ','] + opt_number_text(d.wind_speed_ms) + seq![',', 'M']);
}

impl GenerateNmeaBody for MdaData {
    open spec fn spec_sentence_type(&self) -> SentenceType {
        SentenceType::MDA
    }

    open spec fn spec_body(&self) -> Seq<char> {
        mda_body(*self)
    }

    fn sentence_type(&self) -> (t: SentenceType) {
        SentenceType::MDA
    }

    fn write_body(&self, f: &mut String) {
        write_mda_head(f, self);
        write_mda_humidity(f, self);
        write_mda_wind(f, self);
        assert(f@ =~= old(f)@ + mda_body(*self));
    }
}

/// The body of an MDA value is its parts joined with commas.
#[verifier::spinoff_prover]
#[verifier::rlimit(100)]
proof fn lemma_mda_body_parts(d: MdaData)
    ensures
        mda_body(d) == (opt_number_text(d.pressure_in_hg) + seq![','] + seq!['I'] + seq![','] + opt_number_text(d.pressure_bar) + seq![','] + seq!['B'] + seq![','] + opt_number_text(d.air_temp_deg) + seq![','] + seq!['C'] + seq![','] + opt_number_text(d.water_temp_deg) + seq![','] + seq!['C'] + seq![','] + opt_number_text(d.rel_humidity) + seq![','] + opt_number_text(d.abs_humidity)) + seq![','] + (opt_number_text(d.dew_point) + seq![','] + seq!['C'] + seq![','] + opt_number_text(d.wind_direction_true) + seq![','] + seq!['T'] + seq![','] + opt_number_text(d.wind_direction_magnetic) + seq![','] + seq!['M'] + seq![','] + opt_number_text(d.wind_speed_knots) + seq![','] + seq!['N'] + seq![','] + opt_number_text(d.wind_speed_ms) + seq![','] + seq!['M']),
{
    let t0 = opt_number_text(d.pressure_in_hg);
    let t1 = seq!['I'];
    let t2 = opt_number_text(d.pressure_bar);
    let t3 = seq!['B'];
    let t4 = opt_number_text(d.air_temp_deg);
    let t5 = seq!['C'];
    let t6 = opt_number_text(d.water_temp_deg);
    let t7 = seq!['C'];
    let t8 = opt_number_text(d.rel_humidity);
    let t9 = opt_number_text(d.abs_humidity);
    let t10 = opt_number_text(d.dew_point);
    let t11 = seq!['C'];
    let t12 = opt_number_text(d.wind_direction_true);
    let t13 = seq!['T'];
    let t14 = opt_number_text(d.wind_direction_magnetic);
    let t15 = seq!['M'];
    let t16 = opt_number_text(d.wind_speed_knots);
    let t17 = seq!['N'];
    let t18 = opt_number_text(d.wind_speed_ms);
    let t19 = seq!['M'];
    
    assert((t0 + seq![','] + t1 + seq![','] + t2 + seq![','] + t3 + seq![','] + t4 + seq![','] + t5 + seq![','] + t6 + seq![','] + t7 + seq![','] + t8 + seq![','] + t9) + seq![','] + (t10 + seq![','] + t11 + seq![','] + t12 + seq![','] + t13 + seq![','] + t14 + seq![','] + t15 + seq![','] + t16 + seq![','] + t17 + seq![','] + t18 + seq![','] + t19) =~= mda_body(d));
}

/// The fields of an written MDA value are its parts, none
/// holding a comma or `*`.
#[verifier::spinoff_prover]
#[verifier::rlimit(100)]
proof fn lemma_mda_fields(d: MdaData)
    requires
        crate::readback::valid_opt_number(d.pressure_in_hg),
        crate::readback::valid_opt_number(d.pressure_bar),
        crate::readback::valid_opt_number(d.air_temp_deg),
        crate::readback::valid_opt_number(d.water_temp_deg),
        crate::readback::valid_opt_number(d.rel_humidity),
        crate::readback::valid_opt_number(d.abs_humidity),
        crate::readback::valid_opt_number(d.dew_point),
        crate::readback::valid_opt_number(d.wind_direction_true),
        crate::readback::valid_opt_number(d.wind_direction_magnetic),
        crate::readback::valid_opt_number(d.wind_speed_knots),
        crate::readback::valid_opt_number(d.wind_speed_ms),
    ensures
        split_fields(mda_body(d)) == seq![opt_number_text(d.pressure_in_hg), seq!['I'], opt_number_text(d.pressure_bar), seq!['B'], opt_number_text(d.air_temp_deg), seq!['C'], opt_number_text(d.water_temp_deg), seq!['C'], opt_number_text(d.rel_humidity), opt_number_text(d.abs_humidity), opt_number_text(d.dew_point), seq!['C'], opt_number_text(d.wind_direction_true), seq!['T'], opt_number_text(d.wind_direction_magnetic), seq!['M'], opt_number_text(d.wind_speed_knots), seq!['N'], opt_number_text(d.wind_speed_ms), seq!['M']],
{
    let t0 = opt_number_text(d.pressure_in_hg);
    let t1 = seq!['I'];
    let t2 = opt_number_text(d.pressure_bar);
    let t3 = seq!['B'];
    let t4 = opt_number_text(d.air_temp_deg);
    let t5 = seq!['C'];
    let t6 = opt_number_text(d.water_temp_deg);
    let t7 = seq!['C'];
    let t8 = opt_number_text(d.rel_humidity);
    let t9 = opt_number_text(d.abs_humidity);
    let t10 = opt_number_text(d.dew_point);
    let t11 = seq!['C'];
    let t12 = opt_number_text(d.wind_direction_true);
    let t13 = seq!['T'];
    let t14 = opt_number_text(d.wind_direction_magnetic);
    let t15 = seq!['M'];
    let t16 = opt_number_text(d.wind_speed_knots);
    let t17 = seq!['N'];
    let t18 = opt_number_text(d.wind_speed_ms);
    let t19 = seq!['M'];
    crate::readback::lemma_opt_number_plain(d.pressure_in_hg);
    crate::readback::lemma_char_plain('I');
    crate::readback::lemma_opt_number_plain(d.pressure_bar);
    crate::readback::lemma_char_plain('B');
    crate::readback::lemma_opt_number_plain(d.air_temp_deg);
    crate::readback::lemma_char_plain('C');
    crate::readback::lemma_opt_number_plain(d.water_temp_deg);
    crate::readback::lemma_char_plain('C');
    crate::readback::lemma_opt_number_plain(d.rel_humidity);
    crate::readback::lemma_opt_number_plain(d.abs_humidity);
    crate::readback::lemma_opt_number_plain(d.dew_point);
    crate::readback::lemma_char_plain('C');
    crate::readback::lemma_opt_number_plain(d.wind_direction_true);
    crate::readback::lemma_char_plain('T');
    crate::readback::lemma_opt_number_plain(d.wind_direction_magnetic);
    crate::readback::lemma_char_plain('M');
    crate::readback::lemma_opt_number_plain(d.wind_speed_knots);
    crate::readback::lemma_char_plain('N');
    crate::readback::lemma_opt_number_plain(d.wind_speed_ms);
    crate::readback::lemma_char_plain('M');
    crate::readback::lemma_split_fields_10(t0, t1, t2, t3, t4, t5, t6, t7, t8, t9);
    crate::readback::lemma_split_fields_10(t10, t11, t12, t13, t14, t15, t16, t17, t18, t19);
    crate::readback::lemma_split_fields_join((t0 + seq![','] + t1 + seq![','] + t2 + seq![','] + t3 + seq![','] + t4 + seq![','] + t5 + seq![','] + t6 + seq![','] + t7 + seq![','] + t8 + seq![','] + t9), (t10 + seq![','] + t11 + seq![','] + t12 + seq![','] + t13 + seq![','] + t14 + seq![','] + t15 + seq![','] + t16 + seq![','] + t17 + seq![','] + t18 + seq![','] + t19));
    assert(seq![t0, t1, t2, t3, t4, t5, t6, t7, t8, t9] + seq![t10, t11, t12, t13, t14, t15, t16, t17, t18, t19] =~= seq![t0, t1, t2, t3, t4, t5, t6, t7, t8, t9, t10, t11, t12, t13, t14, t15, t16, t17, t18, t19]);
    lemma_mda_body_parts(d);
}

/// A written MDA value reads back as itself, when its numbers are decimal
/// literals.
#[verifier::spinoff_prover]
#[verifier::rlimit(50)]
pub proof fn lemma_mda_reads_back(d: MdaData)
    requires
        crate::readback::valid_opt_number(d.pressure_in_hg),
        crate::readback::valid_opt_number(d.pressure_bar),
        crate::readback::valid_opt_number(d.air_temp_deg),
        crate::readback::valid_opt_number(d.water_temp_deg),
        crate::readback::valid_opt_number(d.rel_humidity),
        crate::readback::valid_opt_number(d.abs_humidity),
        crate::readback::valid_opt_number(d.dew_point),
        crate::readback::valid_opt_number(d.wind_direction_true),
        crate::readback::valid_opt_number(d.wind_direction_magnetic),
        crate::readback::valid_opt_number(d.wind_speed_knots),
        crate::readback::valid_opt_number(d.wind_speed_ms),
    ensures
        mda_data_result(mda_body(d), Ok(d)),
        !mda_body(d).contains('*'),
        vstd::utf8::is_ascii_chars(mda_body(d)),
{
    lemma_mda_fields(d);
    assert(crate::readback::plain_fields(split_fields(mda_body(d)))) by {
        crate::readback::lemma_opt_number_plain(d.pressure_in_hg);
        crate::readback::lemma_char_plain('I');
        crate::readback::lemma_opt_number_plain(d.pressure_bar);
        crate::readback::lemma_char_plain('B');
        crate::readback::lemma_opt_number_plain(d.air_temp_deg);
        crate::readback::lemma_char_plain('C');
        crate::readback::lemma_opt_number_plain(d.water_temp_deg);
        crate::readback::lemma_char_plain('C');
        crate::readback::lemma_opt_number_plain(d.rel_humidity);
        crate::readback::lemma_opt_number_plain(d.abs_humidity);
        crate::readback::lemma_opt_number_plain(d.dew_point);
        crate::readback::lemma_char_plain('C');
        crate::readback::lemma_opt_number_plain(d.wind_direction_true);
        crate::readback::lemma_char_plain('T');
        crate::readback::lemma_opt_number_plain(d.wind_direction_magnetic);
        crate::readback::lemma_char_plain('M');
        crate::readback::lemma_opt_number_plain(d.wind_speed_knots);
        crate::readback::lemma_char_plain('N');
        crate::readback::lemma_opt_number_plain(d.wind_speed_ms);
        crate::readback::lemma_char_plain('M');
    }
    crate::readback::lemma_plain_from_fields(mda_body(d));
    assert(opt_float_field(opt_number_text(d.pressure_in_hg)) == Some(crate::text::opt_num_view(d.pressure_in_hg)) && opt_std_float_field(opt_number_text(d.pressure_in_hg)) == Some(crate::text::opt_num_view(d.pressure_in_hg))) by {
        crate::readback::lemma_opt_number_reads_back(d.pressure_in_hg);
    }
    assert(opt_float_field(opt_number_text(d.pressure_bar)) == Some(crate::text::opt_num_view(d.pressure_bar)) && opt_std_float_field(opt_number_text(d.pressure_bar)) == Some(crate::text::opt_num_view(d.pressure_bar))) by {
        crate::readback::lemma_opt_number_reads_back(d.pressure_bar);
    }
    assert(opt_float_field(opt_number_text(d.air_temp_deg)) == Some(crate::text::opt_num_view(d.air_temp_deg)) && opt_std_float_field(opt_number_text(d.air_temp_deg)) == Some(crate::text::opt_num_view(d.air_temp_deg))) by {
        crate::readback::lemma_opt_number_reads_back(d.air_temp_deg);
    }
    assert(opt_float_field(opt_number_text(d.water_temp_deg)) == Some(crate::text::opt_num_view(d.water_temp_deg)) && opt_std_float_field(opt_number_text(d.water_temp_deg)) == Some(crate::text::opt_num_view(d.water_temp_deg))) by {
        crate::readback::lemma_opt_number_reads_back(d.water_temp_deg);
    }
    assert(opt_float_field(opt_number_text(d.rel_humidity)) == Some(crate::text::opt_num_view(d.rel_humidity)) && opt_std_float_field(opt_number_text(d.rel_humidity)) == Some(crate::text::opt_num_view(d.rel_humidity))) by {
        crate::readback::lemma_opt_number_reads_back(d.rel_humidity);
    }
    assert(opt_float_field(opt_number_text(d.abs_humidity)) == Some(crate::text::opt_num_view(d.abs_humidity)) && opt_std_float_field(opt_number_text(d.abs_humidity)) == Some(crate::text::opt_num_view(d.abs_humidity))) by {
        crate::readback::lemma_opt_number_reads_back(d.abs_humidity);
    }
    assert(opt_float_field(opt_number_text(d.dew_point)) == Some(crate::text::opt_num_view(d.dew_point)) && opt_std_float_field(opt_number_text(d.dew_point)) == Some(crate::text::opt_num_view(d.dew_point))) by {
        crate::readback::lemma_opt_number_reads_back(d.dew_point);
    }
    assert(opt_float_field(opt_number_text(d.wind_direction_true)) == Some(crate::text::opt_num_view(d.wind_direction_true)) && opt_std_float_field(opt_number_text(d.wind_direction_true)) == Some(crate::text::opt_num_view(d.wind_direction_true))) by {
        crate::readback::lemma_opt_number_reads_back(d.wind_direction_true);
    }
    assert(opt_float_field(opt_number_text(d.wind_direction_magnetic)) == Some(crate::text::opt_num_view(d.wind_direction_magnetic)) && opt_std_float_field(opt_number_text(d.wind_direction_magnetic)) == Some(crate::text::opt_num_view(d.wind_direction_magnetic))) by {
        crate::readback::lemma_opt_number_reads_back(d.wind_direction_magnetic);
    }
    assert(opt_float_field(opt_number_text(d.wind_speed_knots)) == Some(crate::text::opt_num_view(d.wind_speed_knots)) && opt_std_float_field(opt_number_text(d.wind_speed_knots)) == Some(crate::text::opt_num_view(d.wind_speed_knots))) by {
        crate::readback::lemma_opt_number_reads_back(d.wind_speed_knots);
    }
    assert(opt_float_field(opt_number_text(d.wind_speed_ms)) == Some(crate::text::opt_num_view(d.wind_speed_ms)) && opt_std_float_field(opt_number_text(d.wind_speed_ms)) == Some(crate::text::opt_num_view(d.wind_speed_ms))) by {
        crate::readback::lemma_opt_number_reads_back(d.wind_speed_ms);
    }
}

} // verus!
