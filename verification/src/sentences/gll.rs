//! GLL - Geographic Position, Latitude / Longitude and time:
//! `$--GLL,ddmm.mm,a,dddmm.mm,a,hhmmss.ss,a,m*hh`
//! 1-4. Position; 5. UTC time of the fix; 6. `A` valid, `V` invalid;
//! 7. FAA mode indicator (NMEA 2.3 and later).

use vstd::prelude::*;
use vstd::string::*;

use crate::error::Error;
use crate::generate::GenerateNmeaBody;
use crate::parse::NmeaSentence;
use crate::position::{
    Hms, LatLon, fhms, flat_lon, lat_lon_chars, lat_lon_fields, opt_hms_chars, opt_hms_field,
    opt_hms_is, opt_lat_lon_is, read_lat_lon, read_opt_hms, write_hms, write_lat_lon,
};
use crate::sentence_type::SentenceType;
use crate::sentences::faa_mode::{FaaMode, parse_faa_mode, spec_mode_char, spec_parse_faa_mode};
use crate::strings::push_char;
use crate::text::{chars_of, exec_one_of_field, field_spans, one_of_field, split_fields};

verus! {

/// The data of a GLL sentence.
#[derive(Debug, Clone, PartialEq)]
pub struct GllData {
    pub position: Option<LatLon>,
    pub fix_time: Option<Hms>,
    pub valid: bool,
    pub faa_mode: Option<FaaMode>,
}

/// The GLL grammar over the comma-separated fields. The mode is the first
/// character after the sixth comma, when there is one; what follows it is
/// ignored.
pub open spec fn gll_accepts(f: Seq<Seq<char>>) -> bool {
    &&& f.len() >= 7
    &&& lat_lon_fields(f, 0) is Some
    &&& opt_hms_field(f[4]) is Some
    &&& one_of_field(f[5], seq!['A', 'V']) is Some
    &&& if f[6].len() > 0 {
        spec_parse_faa_mode(f[6][0]) is Some
    } else {
        f.len() == 7
    }
}

/// What reading the data `data` of a GLL sentence gives.
pub open spec fn gll_data_result(data: Seq<char>, r: Result<GllData, Error>) -> bool {
    let f = split_fields(data);
    if gll_accepts(f) {
        r matches Ok(d) && {
            &&& opt_lat_lon_is(d.position, flat_lon(f, 0))
            &&& opt_hms_is(d.fix_time, fhms(f[4]))
            &&& d.valid == (f[5][0] == 'A')
            &&& d.faa_mode == if f[6].len() > 0 { spec_parse_faa_mode(f[6][0]) } else { None }
        }
    } else {
        r == Err::<GllData, Error>(Error::ParsingError)
    }
}

/// What [`parse_gll`] gives for a sentence.
pub open spec fn gll_result(s: NmeaSentence, r: Result<GllData, Error>) -> bool {
    if s.message_id != SentenceType::GLL {
        r == Err::<GllData, Error>(
            Error::WrongSentenceHeader { expected: SentenceType::GLL, found: s.message_id },
        )
    } else {
        gll_data_result(s.data@, r)
    }
}

/// Reads the data of a GLL sentence.
pub fn parse_gll(sentence: NmeaSentence<'_>) -> (r: Result<GllData, Error>)
    ensures
        gll_result(sentence, r),
{
    if sentence.message_id != SentenceType::GLL {
        return Err(Error::WrongSentenceHeader { expected: SentenceType::GLL, found: sentence.message_id });
    }
    let d = sentence.data;
    let s = chars_of(d);
    let sp = field_spans(&s);
    if sp.len() < 7 {
        return Err(Error::ParsingError);
    }
    let av = ['A', 'V'];
    assert(av@ =~= seq!['A', 'V']);
    let position = read_lat_lon(d, &s, &sp, 0);
    let fix_time = read_opt_hms(d, &s, sp[4].0, sp[4].1);
    let status = exec_one_of_field(&s, sp[5].0, sp[5].1, av.as_slice());
    let faa_mode = if sp[6].0 < sp[6].1 {
        match parse_faa_mode(s[sp[6].0]) {
            Some(m) => Some(m),
            None => return Err(Error::ParsingError),
        }
    } else {
        if sp.len() > 7 {
            return Err(Error::ParsingError);
        }
        None
    };
    match (position, fix_time, status) {
        (Some(position), Some(fix_time), Some(st)) => Ok(
            GllData { position, fix_time, valid: st == 'A', faa_mode },
        ),
        _ => Err(Error::ParsingError),
    }
}

/// The body a GLL value is written as.
pub open spec fn gll_body(d: GllData) -> Seq<char> {
    lat_lon_chars(d.position) + seq![','] + opt_hms_chars(d.fix_time) + seq![
        ',',
        if d.valid { 'A' } else { 'V' },
        ',',
    ] + match d.faa_mode {
        Some(m) => seq![spec_mode_char(m)],
        None => Seq::empty(),
    }
}

impl GenerateNmeaBody for GllData {
    open spec fn spec_sentence_type(&self) -> SentenceType {
        SentenceType::GLL
    }

    open spec fn spec_body(&self) -> Seq<char> {
        gll_body(*self)
    }

    fn sentence_type(&self) -> (t: SentenceType) {
        SentenceType::GLL
    }

    fn write_body(&self, f: &mut String) {
        write_lat_lon(f, &self.position);
        push_char(f, ',');
        write_hms(f, &self.fix_time);
        push_char(f, ',');
        push_char(f, if self.valid { 'A' } else { 'V' });
        push_char(f, ',');
        if let Some(m) = self.faa_mode {
            push_char(f, m.to_nmea_char());
        }
        assert(f@ =~= old(f)@ + gll_body(*self));
    }
}

/// The body of a GLL value is its parts joined with commas.
#[verifier::spinoff_prover]
proof fn lemma_gll_body_parts(d: GllData)
    ensures
        gll_body(d) == crate::position::lat_field(d.position) + seq![','] + crate::position::ns_field(d.position) + seq![','] + crate::position::lon_field(d.position) + seq![','] + crate::position::ew_field(d.position) + seq![','] + opt_hms_chars(d.fix_time) + seq![','] + (if d.valid { seq!['A'] } else { seq!['V'] }) + seq![','] + match d.faa_mode { Some(m) => seq![spec_mode_char(m)], None => Seq::empty() },
{
    let t0 = crate::position::lat_field(d.position);
    let t1 = crate::position::ns_field(d.position);
    let t2 = crate::position::lon_field(d.position);
    let t3 = crate::position::ew_field(d.position);
    let t4 = opt_hms_chars(d.fix_time);
    let t5 = (if d.valid { seq!['A'] } else { seq!['V'] });
    let t6 = match d.faa_mode { Some(m) => seq![spec_mode_char(m)], None => Seq::empty() };
    crate::readback::lemma_lat_lon_parts(d.position);
    assert(t0 + seq![','] + t1 + seq![','] + t2 + seq![','] + t3 + seq![','] + t4 + seq![','] + t5 + seq![','] + t6 =~= gll_body(d));
}

/// The fields of a written GLL value are its parts, none
/// holding a comma or `*`.
#[verifier::spinoff_prover]
proof fn lemma_gll_fields(d: GllData)
    requires
        crate::readback::valid_opt_lat_lon(d.position),
        crate::readback::valid_opt_hms(d.fix_time),
    ensures
        split_fields(gll_body(d)) == seq![crate::position::lat_field(d.position), crate::position::ns_field(d.position), crate::position::lon_field(d.position), crate::position::ew_field(d.position), opt_hms_chars(d.fix_time), (if d.valid { seq!['A'] } else { seq!['V'] }), match d.faa_mode { Some(m) => seq![spec_mode_char(m)], None => Seq::empty() }],
{
    let t0 = crate::position::lat_field(d.position);
    let t1 = crate::position::ns_field(d.position);
    let t2 = crate::position::lon_field(d.position);
    let t3 = crate::position::ew_field(d.position);
    let t4 = opt_hms_chars(d.fix_time);
    let t5 = (if d.valid { seq!['A'] } else { seq!['V'] });
    let t6 = match d.faa_mode { Some(m) => seq![spec_mode_char(m)], None => Seq::empty() };
    crate::readback::lemma_lat_lon_plain(d.position);
    crate::readback::lemma_opt_hms_reads_back(d.fix_time);
    crate::readback::lemma_flag_plain(d.valid, 'A', 'V');
    match d.faa_mode { Some(m) => { crate::readback::lemma_char_plain(spec_mode_char(m)); }, None => {} }
    crate::readback::lemma_split_fields_7(t0, t1, t2, t3, t4, t5, t6);
    lemma_gll_body_parts(d);
}

/// A written GLL value reads back as itself, when its times are times of
/// day with seconds that are not negative and its latitude degrees fit two
/// digits and its minutes are not negative.
#[verifier::spinoff_prover]
#[verifier::rlimit(50)]
pub proof fn lemma_gll_reads_back(d: GllData)
    requires
        crate::readback::valid_opt_lat_lon(d.position),
        crate::readback::valid_opt_hms(d.fix_time),
    ensures
        gll_data_result(gll_body(d), Ok(d)),
        !gll_body(d).contains('*'),
        vstd::utf8::is_ascii_chars(gll_body(d)),
{
    lemma_gll_fields(d);
    assert(crate::readback::plain_fields(split_fields(gll_body(d)))) by {
        crate::readback::lemma_lat_lon_plain(d.position);
        crate::readback::lemma_opt_hms_reads_back(d.fix_time);
        crate::readback::lemma_flag_plain(d.valid, 'A', 'V');
        match d.faa_mode { Some(m) => { crate::readback::lemma_char_plain(spec_mode_char(m)); }, None => {} }
    }
    crate::readback::lemma_plain_from_fields(gll_body(d));
    crate::readback::lemma_lat_lon_reads_back(split_fields(gll_body(d)), 0, d.position);
    crate::readback::lemma_opt_hms_reads_back(d.fix_time);
    match d.faa_mode { Some(m) => { crate::sentences::faa_mode::lemma_faa_mode_char_round_trip(m, 'A'); }, None => {} }
    assert(seq!['A', 'V'][0] == 'A' && seq!['A', 'V'][1] == 'V');
}

/// Reading a GLL sentence gives the status and the mode letters their
/// NMEA meaning: the status `A` is valid data, `V` not; a seventh field
/// starting with `A` is the autonomous mode, `C` caution, `D` differential,
/// `E` estimated, `F` RTK float, `M` manual, `N` data not valid, `P`
/// precise, `R` RTK integer, `S` simulated, `U` unsafe; an empty one gives
/// no mode.
pub proof fn lemma_gll_letters_read(data: Seq<char>, d: GllData)
    requires
        gll_data_result(data, Ok(d)),
    ensures
        ({
            let f = split_fields(data);
            let present = f[6].len() > 0;
            &&& d.valid <==> f[5] == seq!['A']
            &&& !d.valid <==> f[5] == seq!['V']
            &&& d.faa_mode is None <==> !present
            &&& d.faa_mode == Some(FaaMode::Autonomous) <==> present && f[6][0] == 'A'
            &&& d.faa_mode == Some(FaaMode::Caution) <==> present && f[6][0] == 'C'
            &&& d.faa_mode == Some(FaaMode::Differential) <==> present && f[6][0] == 'D'
            &&& d.faa_mode == Some(FaaMode::Estimated) <==> present && f[6][0] == 'E'
            &&& d.faa_mode == Some(FaaMode::FloatRtk) <==> present && f[6][0] == 'F'
            &&& d.faa_mode == Some(FaaMode::Manual) <==> present && f[6][0] == 'M'
            &&& d.faa_mode == Some(FaaMode::DataNotValid) <==> present && f[6][0] == 'N'
            &&& d.faa_mode == Some(FaaMode::Precise) <==> present && f[6][0] == 'P'
            &&& d.faa_mode == Some(FaaMode::FixedRtk) <==> present && f[6][0] == 'R'
            &&& d.faa_mode == Some(FaaMode::Simulator) <==> present && f[6][0] == 'S'
            &&& d.faa_mode == Some(FaaMode::Unsafe) <==> present && f[6][0] == 'U'
        }),
{
    let f = split_fields(data);
    crate::text::lemma_letters2('A', 'V', f[5]);
    if f[6].len() > 0 {
        crate::sentences::faa_mode::lemma_faa_mode_letters(f[6][0]);
    }
}

/// Writing a GLL value gives its mode its NMEA letter: the written seventh
/// field is `F` for RTK float, `R` for RTK integer, and so for every mode.
pub proof fn lemma_gll_letters_written(d: GllData)
    requires
        crate::readback::valid_opt_lat_lon(d.position),
        crate::readback::valid_opt_hms(d.fix_time),
    ensures
        ({
            let f = split_fields(gll_body(d));
            let present = f[6].len() > 0;
            &&& d.valid <==> f[5] == seq!['A']
            &&& d.faa_mode is None <==> !present
            &&& d.faa_mode == Some(FaaMode::Autonomous) <==> present && f[6][0] == 'A'
            &&& d.faa_mode == Some(FaaMode::Caution) <==> present && f[6][0] == 'C'
            &&& d.faa_mode == Some(FaaMode::Differential) <==> present && f[6][0] == 'D'
            &&& d.faa_mode == Some(FaaMode::Estimated) <==> present && f[6][0] == 'E'
            &&& d.faa_mode == Some(FaaMode::FloatRtk) <==> present && f[6][0] == 'F'
            &&& d.faa_mode == Some(FaaMode::Manual) <==> present && f[6][0] == 'M'
            &&& d.faa_mode == Some(FaaMode::DataNotValid) <==> present && f[6][0] == 'N'
            &&& d.faa_mode == Some(FaaMode::Precise) <==> present && f[6][0] == 'P'
            &&& d.faa_mode == Some(FaaMode::FixedRtk) <==> present && f[6][0] == 'R'
            &&& d.faa_mode == Some(FaaMode::Simulator) <==> present && f[6][0] == 'S'
            &&& d.faa_mode == Some(FaaMode::Unsafe) <==> present && f[6][0] == 'U'
        }),
{
    lemma_gll_reads_back(d);
    lemma_gll_letters_read(gll_body(d), d);
}

} // verus!
