//! TTM - Tracked Target Message:
//! `$--TTM,xx,x.x,x.x,a,x.x,x.x,a,x.x,x.x,a,c--c,a,a,hhmmss.ss,a*hh`
//! 1. Target number (0-99); 2. Target distance; 3. Bearing from own ship;
//! 4. `T` true or `R` relative; 5. Target speed; 6. Target course; 7. `T` or
//! `R`; 8. Distance of the closest point of approach; 9. Time until it;
//! 10. Speed and distance units, `K`, `N` or `S`; 11. Target name;
//! 12. Target status; 13. `R` for a reference target; 14. UTC time of the
//! data; 15. Type of acquisition, `A`, `M` or `R`.

use vstd::prelude::*;
use vstd::string::*;

use crate::bounded::as_str_h32;
use crate::error::Error;
use crate::generate::GenerateNmeaBody;
use crate::names::{ftext, opt_chars_h32, opt_name_chars, opt_text_field, read_text_h32};
use crate::parse::NmeaSentence;
use crate::position::{Hms, fhms, opt_hms_chars, opt_hms_field, opt_hms_is, read_opt_hms, write_hms};
use crate::sentence_type::SentenceType;
use crate::strings::{opt_text, push_char, push_number, push_str, number_text, write_opt};
use crate::text::{
    NumV, Number, chars_of, exec_opt_one_of_field, exec_opt_one_of_prefix, field_spans, fstd, funs,
    num_is, opt_num_is, opt_one_of_field, opt_one_of_prefix, opt_std_float_field, opt_u8_is,
    opt_unsigned_field, read_opt_std_float_field, read_opt_unsigned, split_fields,
};

verus! {

/// What an angle is measured against.
#[derive(Debug, Clone, Copy, PartialEq, Eq, Structural)]
pub enum TtmReference {
    Relative,
    Theoretical,
}

/// An angle and what it is measured against.
#[derive(Debug, Clone, PartialEq)]
pub struct TtmAngle {
    pub angle: Number,
    pub reference: TtmReference,
}

/// The unit of speeds and distances.
#[derive(Debug, Clone, Copy, PartialEq, Eq, Structural)]
pub enum TtmDistanceUnit {
    Kilometer,
    NauticalMile,
    StatuteMile,
}

/// The state of a target.
#[derive(Debug, Clone, Copy, PartialEq, Eq, Structural)]
pub enum TtmStatus {
    /// Tracked target has been lost
    Lost,
    /// Target in the process of acquisition
    Query,
    /// Target is being tracked
    Tracking,
}

/// How a target was acquired.
#[derive(Debug, Clone, Copy, PartialEq, Eq, Structural)]
pub enum TtmTypeOfAcquisition {
    Automatic,
    Manual,
    Reported,
}

/// The data of a TTM sentence.
#[derive(Debug, Clone, PartialEq)]
pub struct TtmData {
    pub target_number: Option<u8>,
    pub target_distance: Option<Number>,
    pub bearing_from_own_ship: Option<TtmAngle>,
    pub target_speed: Option<Number>,
    pub target_course: Option<TtmAngle>,
    pub distance_of_cpa: Option<Number>,
    pub time_to_cpa: Option<Number>,
    pub speed_or_distance_unit: Option<TtmDistanceUnit>,
    pub target_name: Option<heapless::String<32>>,
    pub target_status: Option<TtmStatus>,
    /// The target is a reference used to determine own-ship position or velocity.
    pub is_target_reference: bool,
    pub time_of_data: Option<Hms>,
    pub type_of_acquisition: Option<TtmTypeOfAcquisition>,
}

pub open spec fn spec_reference(c: char) -> TtmReference {
    if c == 'R' { TtmReference::Relative } else { TtmReference::Theoretical }
}

pub open spec fn spec_reference_char(r: TtmReference) -> char {
    match r {
        TtmReference::Relative => 'R',
        TtmReference::Theoretical => 'T',
    }
}

pub open spec fn spec_unit(c: char) -> TtmDistanceUnit {
    if c == 'K' {
        TtmDistanceUnit::Kilometer
    } else if c == 'N' {
        TtmDistanceUnit::NauticalMile
    } else {
        TtmDistanceUnit::StatuteMile
    }
}

pub open spec fn spec_unit_char(u: TtmDistanceUnit) -> char {
    match u {
        TtmDistanceUnit::Kilometer => 'K',
        TtmDistanceUnit::NauticalMile => 'N',
        TtmDistanceUnit::StatuteMile => 'S',
    }
}

pub open spec fn spec_status(c: char) -> TtmStatus {
    if c == 'L' {
        TtmStatus::Lost
    } else if c == 'Q' {
        TtmStatus::Query
    } else {
        TtmStatus::Tracking
    }
}

pub open spec fn spec_status_char(s: TtmStatus) -> char {
    match s {
        TtmStatus::Lost => 'L',
        TtmStatus::Query => 'Q',
        TtmStatus::Tracking => 'T',
    }
}

pub open spec fn spec_acquisition(c: char) -> TtmTypeOfAcquisition {
    if c == 'A' {
        TtmTypeOfAcquisition::Automatic
    } else if c == 'M' {
        TtmTypeOfAcquisition::Manual
    } else {
        TtmTypeOfAcquisition::Reported
    }
}

pub open spec fn spec_acquisition_char(t: TtmTypeOfAcquisition) -> char {
    match t {
        TtmTypeOfAcquisition::Automatic => 'A',
        TtmTypeOfAcquisition::Manual => 'M',
        TtmTypeOfAcquisition::Reported => 'R',
    }
}

/// The angle of a number field and a reference field: present only when
/// both are.
pub open spec fn angle_of(v: Option<NumV>, c: Option<char>) -> Option<(NumV, TtmReference)> {
    match (v, c) {
        (Some(a), Some(r)) => Some((a, spec_reference(r))),
        _ => None,
    }
}

pub open spec fn angle_is(o: Option<TtmAngle>, v: Option<(NumV, TtmReference)>) -> bool {
    match (o, v) {
        (Some(a), Some(w)) => num_is(a.angle, w.0) && a.reference == w.1,
        (None, None) => true,
        _ => false,
    }
}

/// An optional one-character field read as a value through `m`.
pub open spec fn opt_map<T>(c: Option<Option<char>>, m: spec_fn(char) -> T) -> Option<T> {
    match c {
        Some(Some(x)) => Some(m(x)),
        _ => None,
    }
}

/// The TTM grammar over the comma-separated fields. Numbers other than the
/// target number are read with the standard library's syntax; the target
/// name takes at most 32 bytes; the type of acquisition is read at the
/// start of the fifteenth field and what follows it is ignored.
pub open spec fn ttm_accepts(f: Seq<Seq<char>>) -> bool {
    &&& f.len() >= 15
    &&& opt_unsigned_field(f[0], 99) is Some
    &&& opt_std_float_field(f[1]) is Some
    &&& opt_std_float_field(f[2]) is Some
    &&& opt_one_of_field(f[3], seq!['R', 'T']) is Some
    &&& opt_std_float_field(f[4]) is Some
    &&& opt_std_float_field(f[5]) is Some
    &&& opt_one_of_field(f[6], seq!['R', 'T']) is Some
    &&& opt_std_float_field(f[7]) is Some
    &&& opt_std_float_field(f[8]) is Some
    &&& opt_one_of_field(f[9], seq!['K', 'N', 'S']) is Some
    &&& opt_text_field(f[10], 32) is Some
    &&& opt_one_of_field(f[11], seq!['L', 'Q', 'T']) is Some
    &&& opt_one_of_field(f[12], seq!['R']) is Some
    &&& opt_hms_field(f[13]) is Some
}

/// What reading the data `data` of a TTM sentence gives.
pub open spec fn ttm_data_result(data: Seq<char>, r: Result<TtmData, Error>) -> bool {
    let f = split_fields(data);
    if ttm_accepts(f) {
        r matches Ok(d) && {
            &&& opt_u8_is(d.target_number, funs(f[0], 99))
            &&& opt_num_is(d.target_distance, fstd(f[1]))
            &&& angle_is(d.bearing_from_own_ship, angle_of(fstd(f[2]), opt_one_of_field(f[3], seq!['R', 'T']).unwrap()))
            &&& opt_num_is(d.target_speed, fstd(f[4]))
            &&& angle_is(d.target_course, angle_of(fstd(f[5]), opt_one_of_field(f[6], seq!['R', 'T']).unwrap()))
            &&& opt_num_is(d.distance_of_cpa, fstd(f[7]))
            &&& opt_num_is(d.time_to_cpa, fstd(f[8]))
            &&& d.speed_or_distance_unit == opt_map(opt_one_of_field(f[9], seq!['K', 'N', 'S']), |c: char| spec_unit(c))
            &&& opt_chars_h32(d.target_name) == ftext(f[10], 32)
            &&& d.target_status == opt_map(opt_one_of_field(f[11], seq!['L', 'Q', 'T']), |c: char| spec_status(c))
            &&& d.is_target_reference == (f[12].len() > 0)
            &&& opt_hms_is(d.time_of_data, fhms(f[13]))
            &&& d.type_of_acquisition == match opt_one_of_prefix(f[14], seq!['A', 'M', 'R']) {
                Some(c) => Some(spec_acquisition(c)),
                None => None,
            }
        }
    } else {
        r == Err::<TtmData, Error>(Error::ParsingError)
    }
}

/// What [`parse_ttm`] gives for a sentence.
pub open spec fn ttm_result(s: NmeaSentence, r: Result<TtmData, Error>) -> bool {
    if s.message_id != SentenceType::TTM {
        r == Err::<TtmData, Error>(
            Error::WrongSentenceHeader { expected: SentenceType::TTM, found: s.message_id },
        )
    } else {
        ttm_data_result(s.data@, r)
    }
}

fn reference_of(c: char) -> (r: TtmReference)
    ensures
        r == spec_reference(c),
{
    if c == 'R' { TtmReference::Relative } else { TtmReference::Theoretical }
}

fn unit_of(c: char) -> (r: TtmDistanceUnit)
    ensures
        r == spec_unit(c),
{
    if c == 'K' {
        TtmDistanceUnit::Kilometer
    } else if c == 'N' {
        TtmDistanceUnit::NauticalMile
    } else {
        TtmDistanceUnit::StatuteMile
    }
}

fn status_of(c: char) -> (r: TtmStatus)
    ensures
        r == spec_status(c),
{
    if c == 'L' {
        TtmStatus::Lost
    } else if c == 'Q' {
        TtmStatus::Query
    } else {
        TtmStatus::Tracking
    }
}

fn acquisition_of(c: char) -> (r: TtmTypeOfAcquisition)
    ensures
        r == spec_acquisition(c),
{
    if c == 'A' {
        TtmTypeOfAcquisition::Automatic
    } else if c == 'M' {
        TtmTypeOfAcquisition::Manual
    } else {
        TtmTypeOfAcquisition::Reported
    }
}

fn make_angle(v: Option<Number>, c: Option<char>) -> (r: Option<TtmAngle>)
    ensures
        angle_is(r, angle_of(crate::text::opt_num_view(v), c)),
{
    match (v, c) {
        (Some(a), Some(x)) => Some(TtmAngle { angle: a, reference: reference_of(x) }),
        _ => None,
    }
}

/// Reads the data of a TTM sentence.
pub fn parse_ttm(sentence: NmeaSentence<'_>) -> (r: Result<TtmData, Error>)
    ensures
        ttm_result(sentence, r),
{
    if sentence.message_id != SentenceType::TTM {
        return Err(Error::WrongSentenceHeader { expected: SentenceType::TTM, found: sentence.message_id });
    }
    let d = sentence.data;
    let s = chars_of(d);
    let sp = field_spans(&s);
    if sp.len() < 15 {
        return Err(Error::ParsingError);
    }
    let rt = ['R', 'T'];
    let kns = ['K', 'N', 'S'];
    let lqt = ['L', 'Q', 'T'];
    let r_only = ['R'];
    let amr = ['A', 'M', 'R'];
    assert(rt@ =~= seq!['R', 'T']);
    assert(kns@ =~= seq!['K', 'N', 'S']);
    assert(lqt@ =~= seq!['L', 'Q', 'T']);
    assert(r_only@ =~= seq!['R']);
    assert(amr@ =~= seq!['A', 'M', 'R']);
    let target_number = match read_opt_unsigned(&s, sp[0].0, sp[0].1, 99) {
        Some(o) => match o {
            Some(v) => Some(v as u8),
            None => None,
        },
        None => return Err(Error::ParsingError),
    };
    let target_distance = match read_opt_std_float_field(d, &s, sp[1].0, sp[1].1) {
        Some(o) => o,
        None => return Err(Error::ParsingError),
    };
    let bearing = match read_opt_std_float_field(d, &s, sp[2].0, sp[2].1) {
        Some(o) => o,
        None => return Err(Error::ParsingError),
    };
    let bearing_ref = match exec_opt_one_of_field(&s, sp[3].0, sp[3].1, rt.as_slice()) {
        Some(o) => o,
        None => return Err(Error::ParsingError),
    };
    let target_speed = match read_opt_std_float_field(d, &s, sp[4].0, sp[4].1) {
        Some(o) => o,
        None => return Err(Error::ParsingError),
    };
    let course = match read_opt_std_float_field(d, &s, sp[5].0, sp[5].1) {
        Some(o) => o,
        None => return Err(Error::ParsingError),
    };
    let course_ref = match exec_opt_one_of_field(&s, sp[6].0, sp[6].1, rt.as_slice()) {
        Some(o) => o,
        None => return Err(Error::ParsingError),
    };
    let distance_of_cpa = match read_opt_std_float_field(d, &s, sp[7].0, sp[7].1) {
        Some(o) => o,
        None => return Err(Error::ParsingError),
    };
    let time_to_cpa = match read_opt_std_float_field(d, &s, sp[8].0, sp[8].1) {
        Some(o) => o,
        None => return Err(Error::ParsingError),
    };
    let unit = match exec_opt_one_of_field(&s, sp[9].0, sp[9].1, kns.as_slice()) {
        Some(o) => o,
        None => return Err(Error::ParsingError),
    };
    let target_name = match read_text_h32(d, &s, sp[10].0, sp[10].1) {
        Some(o) => o,
        None => return Err(Error::ParsingError),
    };
    let status = match exec_opt_one_of_field(&s, sp[11].0, sp[11].1, lqt.as_slice()) {
        Some(o) => o,
        None => return Err(Error::ParsingError),
    };
    let reference = match exec_opt_one_of_field(&s, sp[12].0, sp[12].1, r_only.as_slice()) {
        Some(o) => o,
        None => return Err(Error::ParsingError),
    };
    let time_of_data = match read_opt_hms(d, &s, sp[13].0, sp[13].1) {
        Some(o) => o,
        None => return Err(Error::ParsingError),
    };
    let acquisition = exec_opt_one_of_prefix(&s, sp[14].0, sp[14].1, amr.as_slice());
    Ok(
        TtmData {
            target_number,
            target_distance,
            bearing_from_own_ship: make_angle(bearing, bearing_ref),
            target_speed,
            target_course: make_angle(course, course_ref),
            distance_of_cpa,
            time_to_cpa,
            speed_or_distance_unit: match unit {
                Some(c) => Some(unit_of(c)),
                None => None,
            },
            target_name,
            target_status: match status {
                Some(c) => Some(status_of(c)),
                None => None,
            },
            is_target_reference: reference.is_some(),
            time_of_data,
            type_of_acquisition: match acquisition {
                Some(c) => Some(acquisition_of(c)),
                None => None,
            },
        },
    )
}

/// An angle as written: the angle and its reference, or a lone comma when
/// absent.
pub open spec fn angle_chars(o: Option<TtmAngle>) -> Seq<char> {
    match o {
        Some(a) => number_text(a.angle) + seq![',', spec_reference_char(a.reference)],
        None => seq![','],
    }
}

fn write_ttm_angle(f: &mut String, o: &Option<TtmAngle>)
    ensures
        final(f)@ == old(f)@ + angle_chars(*o),
{
    match o {
        Some(a) => {
            push_number(f, &a.angle);
            push_char(f, ',');
            push_char(
                f,
                match a.reference {
                    TtmReference::Relative => 'R',
                    TtmReference::Theoretical => 'T',
                },
            );
        },
        None => push_char(f, ','),
    }
    assert(f@ =~= old(f)@ + angle_chars(*o));
}

/// The unit as written, nothing when absent.
pub open spec fn unit_chars(o: Option<TtmDistanceUnit>) -> Seq<char> {
    match o {
        Some(u) => seq![spec_unit_char(u)],
        None => Seq::empty(),
    }
}

/// The status as written, nothing when absent.
pub open spec fn status_chars(o: Option<TtmStatus>) -> Seq<char> {
    match o {
        Some(x) => seq![spec_status_char(x)],
        None => Seq::empty(),
    }
}

/// The type of acquisition as written, nothing when absent.
pub open spec fn acquisition_chars(o: Option<TtmTypeOfAcquisition>) -> Seq<char> {
    match o {
        Some(t) => seq![spec_acquisition_char(t)],
        None => Seq::empty(),
    }
}

/// The fields of a TTM value up to the unit.
pub open spec fn ttm_head(d: TtmData) -> Seq<char> {
    opt_text(d.target_number) + seq![','] + opt_text(d.target_distance) + seq![','] + angle_chars(
        d.bearing_from_own_ship,
    ) + seq![','] + opt_text(d.target_speed) + seq![','] + angle_chars(d.target_course) + seq![',']
        + opt_text(d.distance_of_cpa) + seq![','] + opt_text(d.time_to_cpa) + seq![',']
}

/// The unit, name, status and reference fields of a TTM value.
pub open spec fn ttm_target(d: TtmData) -> Seq<char> {
    unit_chars(d.speed_or_distance_unit) + seq![','] + opt_name_chars(opt_chars_h32(d.target_name))
        + seq![','] + status_chars(d.target_status) + seq![','] + (if d.is_target_reference {
        seq!['R']
    } else {
        Seq::empty()
    }) + seq![',']
}

/// The fields of a TTM value from the unit on.
pub open spec fn ttm_tail(d: TtmData) -> Seq<char> {
    ttm_target(d) + opt_hms_chars(d.time_of_data) + seq![','] + acquisition_chars(d.type_of_acquisition)
}

/// The body a TTM value is written as.
pub open spec fn ttm_body(d: TtmData) -> Seq<char> {
    ttm_head(d) + ttm_tail(d)
}

#[verifier::rlimit(60)]
fn write_ttm_head(f: &mut String, d: &TtmData)
    ensures
        final(f)@ == old(f)@ + ttm_head(*d),
{
    write_opt(f, &d.target_number);
    push_char(f, ',');
    write_opt(f, &d.target_distance);
    push_char(f, ',');
    write_ttm_angle(f, &d.bearing_from_own_ship);
    push_char(f, ',');
    let ghost x = f@;
    assert(x =~= old(f)@ + opt_text(d.target_number) + seq![','] + opt_text(d.target_distance) + seq![
        ',',
    ] + angle_chars(d.bearing_from_own_ship) + seq![',']);
    write_opt(f, &d.target_speed);
    push_char(f, ',');
    write_ttm_angle(f, &d.target_course);
    push_char(f, ',');
    write_opt(f, &d.distance_of_cpa);
    push_char(f, ',');
    write_opt(f, &d.time_to_cpa);
    push_char(f, ',');
    assert(f@ =~= x + opt_text(d.target_speed) + seq![','] + angle_chars(d.target_course) + seq![',']
        + opt_text(d.distance_of_cpa) + seq![','] + opt_text(d.time_to_cpa) + seq![',']);
    assert(f@ =~= old(f)@ + ttm_head(*d));
}

fn write_unit(f: &mut String, o: Option<TtmDistanceUnit>)
    ensures
        final(f)@ == old(f)@ + unit_chars(o),
{
    if let Some(u) = o {
        push_char(
            f,
            match u {
                TtmDistanceUnit::Kilometer => 'K',
                TtmDistanceUnit::NauticalMile => 'N',
                TtmDistanceUnit::StatuteMile => 'S',
            },
        );
    }
    assert(f@ =~= old(f)@ + unit_chars(o));
}

fn write_status(f: &mut String, o: Option<TtmStatus>)
    ensures
        final(f)@ == old(f)@ + status_chars(o),
{
    if let Some(st) = o {
        push_char(
            f,
            match st {
                TtmStatus::Lost => 'L',
                TtmStatus::Query => 'Q',
                TtmStatus::Tracking => 'T',
            },
        );
    }
    assert(f@ =~= old(f)@ + status_chars(o));
}

fn write_acquisition(f: &mut String, o: Option<TtmTypeOfAcquisition>)
    ensures
        final(f)@ == old(f)@ + acquisition_chars(o),
{
    if let Some(t) = o {
        push_char(
            f,
            match t {
                TtmTypeOfAcquisition::Automatic => 'A',
                TtmTypeOfAcquisition::Manual => 'M',
                TtmTypeOfAcquisition::Reported => 'R',
            },
        );
    }
    assert(f@ =~= old(f)@ + acquisition_chars(o));
}

fn write_ttm_target(f: &mut String, d: &TtmData)
    ensures
        final(f)@ == old(f)@ + ttm_target(*d),
{
    write_unit(f, d.speed_or_distance_unit);
    push_char(f, ',');
    match &d.target_name {
        Some(n) => push_str(f, as_str_h32(n)),
        None => {},
    }
    push_char(f, ',');
    write_status(f, d.target_status);
    push_char(f, ',');
    if d.is_target_reference {
        push_char(f, 'R');
    }
    push_char(f, ',');
    assert(f@ =~= old(f)@ + ttm_target(*d));
}

fn write_ttm_tail(f: &mut String, d: &TtmData)
    ensures
        final(f)@ == old(f)@ + ttm_tail(*d),
{
    write_ttm_target(f, d);
    write_hms(f, &d.time_of_data);
    push_char(f, ',');
    write_acquisition(f, d.type_of_acquisition);
    assert(f@ =~= old(f)@ + ttm_tail(*d));
}

impl GenerateNmeaBody for TtmData {
    open spec fn spec_sentence_type(&self) -> SentenceType {
        SentenceType::TTM
    }

    open spec fn spec_body(&self) -> Seq<char> {
        ttm_body(*self)
    }

    fn sentence_type(&self) -> (t: SentenceType) {
        SentenceType::TTM
    }

    fn write_body(&self, f: &mut String) {
        write_ttm_head(f, self);
        write_ttm_tail(f, self);
        assert(f@ =~= old(f)@ + ttm_body(*self));
    }
}

/// The number of a written angle, nothing when absent.
pub open spec fn angle_num_text(o: Option<TtmAngle>) -> Seq<char> {
    match o {
        Some(a) => number_text(a.angle),
        None => Seq::empty(),
    }
}

/// The reference letter of a written angle, nothing when absent.
pub open spec fn angle_ref_text(o: Option<TtmAngle>) -> Seq<char> {
    match o {
        Some(a) => seq![spec_reference_char(a.reference)],
        None => Seq::empty(),
    }
}

/// An optional angle that reads back: its number is a decimal literal.
pub open spec fn valid_angle(o: Option<TtmAngle>) -> bool {
    match o {
        Some(a) => crate::readback::valid_number(a.angle),
        None => true,
    }
}

/// A written angle is its number and its reference letter, two fields.
proof fn lemma_angle_parts(o: Option<TtmAngle>)
    ensures
        angle_chars(o) == angle_num_text(o) + seq![','] + angle_ref_text(o),
{
    assert(angle_chars(o) =~= angle_num_text(o) + seq![','] + angle_ref_text(o));
}

/// A written angle reads back as itself; its fields hold no comma or `*`
/// and are ASCII.
proof fn lemma_angle_reads_back(o: Option<TtmAngle>)
    requires
        valid_angle(o),
    ensures
        opt_std_float_field(angle_num_text(o)) is Some,
        opt_one_of_field(angle_ref_text(o), seq!['R', 'T']) is Some,
        angle_is(o, angle_of(fstd(angle_num_text(o)), opt_one_of_field(angle_ref_text(o), seq!['R', 'T']).unwrap())),
        !angle_num_text(o).contains(',') && !angle_num_text(o).contains('*') && vstd::utf8::is_ascii_chars(angle_num_text(o)),
        !angle_ref_text(o).contains(',') && !angle_ref_text(o).contains('*') && vstd::utf8::is_ascii_chars(angle_ref_text(o)),
{
    match o {
        Some(a) => {
            crate::readback::lemma_number_reads_back(a.angle);
            crate::readback::lemma_number_text_plain(a.angle);
            crate::readback::lemma_char_plain(spec_reference_char(a.reference));
            assert(seq!['R', 'T'][0] == 'R' && seq!['R', 'T'][1] == 'T');
        },
        None => {},
    }
}

/// The unit, status and type of acquisition of a written value read back;
/// their fields hold no comma or `*` and are ASCII.
proof fn lemma_ttm_letters_read_back(d: TtmData)
    ensures
        opt_one_of_field(unit_chars(d.speed_or_distance_unit), seq!['K', 'N', 'S']) is Some,
        d.speed_or_distance_unit == opt_map(opt_one_of_field(unit_chars(d.speed_or_distance_unit), seq!['K', 'N', 'S']), |c: char| spec_unit(c)),
        opt_one_of_field(status_chars(d.target_status), seq!['L', 'Q', 'T']) is Some,
        d.target_status == opt_map(opt_one_of_field(status_chars(d.target_status), seq!['L', 'Q', 'T']), |c: char| spec_status(c)),
        d.type_of_acquisition == match opt_one_of_prefix(acquisition_chars(d.type_of_acquisition), seq!['A', 'M', 'R']) {
            Some(c) => Some(spec_acquisition(c)),
            None => None,
        },
        opt_one_of_field((if d.is_target_reference { seq!['R'] } else { Seq::empty() }), seq!['R']) is Some,
        !unit_chars(d.speed_or_distance_unit).contains(',') && !unit_chars(d.speed_or_distance_unit).contains('*') && vstd::utf8::is_ascii_chars(unit_chars(d.speed_or_distance_unit)),
        !status_chars(d.target_status).contains(',') && !status_chars(d.target_status).contains('*') && vstd::utf8::is_ascii_chars(status_chars(d.target_status)),
        !acquisition_chars(d.type_of_acquisition).contains(',') && !acquisition_chars(d.type_of_acquisition).contains('*') && vstd::utf8::is_ascii_chars(acquisition_chars(d.type_of_acquisition)),
{
    assert(seq!['K', 'N', 'S'][0] == 'K' && seq!['K', 'N', 'S'][1] == 'N' && seq!['K', 'N', 'S'][2] == 'S');
    assert(seq!['L', 'Q', 'T'][0] == 'L' && seq!['L', 'Q', 'T'][1] == 'Q' && seq!['L', 'Q', 'T'][2] == 'T');
    assert(seq!['A', 'M', 'R'][0] == 'A' && seq!['A', 'M', 'R'][1] == 'M' && seq!['A', 'M', 'R'][2] == 'R');
    assert(seq!['R'][0] == 'R');
    match d.speed_or_distance_unit {
        Some(u) => crate::readback::lemma_char_plain(spec_unit_char(u)),
        None => {},
    }
    match d.target_status {
        Some(x) => crate::readback::lemma_char_plain(spec_status_char(x)),
        None => {},
    }
    match d.type_of_acquisition {
        Some(t) => crate::readback::lemma_char_plain(spec_acquisition_char(t)),
        None => {},
    }
}

/// The head of a written TTM value is its first nine fields, each followed
/// by a comma.
#[verifier::spinoff_prover]
#[verifier::rlimit(50)]
proof fn lemma_ttm_head_parts(d: TtmData)
    ensures
        ttm_head(d) == opt_text(d.target_number) + seq![','] + opt_text(d.target_distance) + seq![','] + angle_num_text(d.bearing_from_own_ship) + seq![','] + angle_ref_text(d.bearing_from_own_ship) + seq![','] + opt_text(d.target_speed) + seq![','] + angle_num_text(d.target_course) + seq![','] + angle_ref_text(d.target_course) + seq![','] + opt_text(d.distance_of_cpa) + seq![','] + opt_text(d.time_to_cpa) + seq![','],
{
    lemma_angle_parts(d.bearing_from_own_ship);
    lemma_angle_parts(d.target_course);
    assert(ttm_head(d) =~= opt_text(d.target_number) + seq![','] + opt_text(d.target_distance) + seq![','] + angle_num_text(d.bearing_from_own_ship) + seq![','] + angle_ref_text(d.bearing_from_own_ship) + seq![','] + opt_text(d.target_speed) + seq![','] + angle_num_text(d.target_course) + seq![','] + angle_ref_text(d.target_course) + seq![','] + opt_text(d.distance_of_cpa) + seq![','] + opt_text(d.time_to_cpa) + seq![',']);
}

/// The tail of a written TTM value is its last six fields joined with
/// commas.
#[verifier::spinoff_prover]
#[verifier::rlimit(50)]
proof fn lemma_ttm_tail_parts(d: TtmData)
    ensures
        ttm_tail(d) == unit_chars(d.speed_or_distance_unit) + seq![','] + opt_name_chars(opt_chars_h32(d.target_name)) + seq![','] + status_chars(d.target_status) + seq![','] + (if d.is_target_reference { seq!['R'] } else { Seq::empty() }) + seq![','] + opt_hms_chars(d.time_of_data) + seq![','] + acquisition_chars(d.type_of_acquisition),
{
    assert(ttm_tail(d) =~= unit_chars(d.speed_or_distance_unit) + seq![','] + opt_name_chars(opt_chars_h32(d.target_name)) + seq![','] + status_chars(d.target_status) + seq![','] + (if d.is_target_reference { seq!['R'] } else { Seq::empty() }) + seq![','] + opt_hms_chars(d.time_of_data) + seq![','] + acquisition_chars(d.type_of_acquisition));
}

/// The body of a TTM value is its parts joined with commas.
#[verifier::spinoff_prover]
#[verifier::rlimit(100)]
proof fn lemma_ttm_body_parts(d: TtmData)
    ensures
        ttm_body(d) == (opt_text(d.target_number) + seq![','] + opt_text(d.target_distance) + seq![','] + angle_num_text(d.bearing_from_own_ship) + seq![','] + angle_ref_text(d.bearing_from_own_ship) + seq![','] + opt_text(d.target_speed) + seq![','] + angle_num_text(d.target_course) + seq![','] + angle_ref_text(d.target_course) + seq![','] + opt_text(d.distance_of_cpa) + seq![','] + opt_text(d.time_to_cpa)) + seq![','] + (unit_chars(d.speed_or_distance_unit) + seq![','] + opt_name_chars(opt_chars_h32(d.target_name)) + seq![','] + status_chars(d.target_status) + seq![','] + (if d.is_target_reference { seq!['R'] } else { Seq::empty() }) + seq![','] + opt_hms_chars(d.time_of_data) + seq![','] + acquisition_chars(d.type_of_acquisition)),
{
    let t0 = opt_text(d.target_number);
    let t1 = opt_text(d.target_distance);
    let t2 = angle_num_text(d.bearing_from_own_ship);
    let t3 = angle_ref_text(d.bearing_from_own_ship);
    let t4 = opt_text(d.target_speed);
    let t5 = angle_num_text(d.target_course);
    let t6 = angle_ref_text(d.target_course);
    let t7 = opt_text(d.distance_of_cpa);
    let t8 = opt_text(d.time_to_cpa);
    let t9 = unit_chars(d.speed_or_distance_unit);
    let t10 = opt_name_chars(opt_chars_h32(d.target_name));
    let t11 = status_chars(d.target_status);
    let t12 = (if d.is_target_reference { seq!['R'] } else { Seq::empty() });
    let t13 = opt_hms_chars(d.time_of_data);
    let t14 = acquisition_chars(d.type_of_acquisition);
    lemma_ttm_head_parts(d);
    lemma_ttm_tail_parts(d);
    assert((t0 + seq![','] + t1 + seq![','] + t2 + seq![','] + t3 + seq![','] + t4 + seq![','] + t5 + seq![','] + t6 + seq![','] + t7 + seq![','] + t8) + seq![','] + (t9 + seq![','] + t10 + seq![','] + t11 + seq![','] + t12 + seq![','] + t13 + seq![','] + t14) =~= ttm_body(d));
}

/// The fields of a written TTM value are its parts, none
/// holding a comma or `*`.
#[verifier::spinoff_prover]
#[verifier::rlimit(100)]
proof fn lemma_ttm_fields(d: TtmData)
    requires
        d.target_number matches Some(n) ==> n <= 99,
        valid_angle(d.bearing_from_own_ship),
        valid_angle(d.target_course),
        crate::readback::valid_opt_number(d.target_distance),
        crate::readback::valid_opt_number(d.target_speed),
        crate::readback::valid_opt_number(d.distance_of_cpa),
        crate::readback::valid_opt_number(d.time_to_cpa),
        crate::readback::valid_opt_name(opt_chars_h32(d.target_name), 32),
        crate::readback::valid_opt_hms(d.time_of_data),
    ensures
        split_fields(ttm_body(d)) == seq![opt_text(d.target_number), opt_text(d.target_distance), angle_num_text(d.bearing_from_own_ship), angle_ref_text(d.bearing_from_own_ship), opt_text(d.target_speed), angle_num_text(d.target_course), angle_ref_text(d.target_course), opt_text(d.distance_of_cpa), opt_text(d.time_to_cpa), unit_chars(d.speed_or_distance_unit), opt_name_chars(opt_chars_h32(d.target_name)), status_chars(d.target_status), (if d.is_target_reference { seq!['R'] } else { Seq::empty() }), opt_hms_chars(d.time_of_data), acquisition_chars(d.type_of_acquisition)],
{
    let t0 = opt_text(d.target_number);
    let t1 = opt_text(d.target_distance);
    let t2 = angle_num_text(d.bearing_from_own_ship);
    let t3 = angle_ref_text(d.bearing_from_own_ship);
    let t4 = opt_text(d.target_speed);
    let t5 = angle_num_text(d.target_course);
    let t6 = angle_ref_text(d.target_course);
    let t7 = opt_text(d.distance_of_cpa);
    let t8 = opt_text(d.time_to_cpa);
    let t9 = unit_chars(d.speed_or_distance_unit);
    let t10 = opt_name_chars(opt_chars_h32(d.target_name));
    let t11 = status_chars(d.target_status);
    let t12 = (if d.is_target_reference { seq!['R'] } else { Seq::empty() });
    let t13 = opt_hms_chars(d.time_of_data);
    let t14 = acquisition_chars(d.type_of_acquisition);
    crate::readback::lemma_opt_u8_reads_back(d.target_number, 99);
    crate::readback::lemma_opt_number_reads_back(d.target_distance);
    lemma_angle_reads_back(d.bearing_from_own_ship);
    crate::readback::lemma_opt_number_reads_back(d.target_speed);
    lemma_angle_reads_back(d.target_course);
    crate::readback::lemma_opt_number_reads_back(d.distance_of_cpa);
    crate::readback::lemma_opt_number_reads_back(d.time_to_cpa);
    lemma_ttm_letters_read_back(d);
    crate::readback::lemma_opt_name_reads_back(opt_chars_h32(d.target_name), 32);
    crate::readback::lemma_char_plain('R');
    crate::readback::lemma_opt_hms_reads_back(d.time_of_data);
    crate::readback::lemma_split_fields_9(t0, t1, t2, t3, t4, t5, t6, t7, t8);
    crate::readback::lemma_split_fields_6(t9, t10, t11, t12, t13, t14);
    crate::readback::lemma_split_fields_join((t0 + seq![','] + t1 + seq![','] + t2 + seq![','] + t3 + seq![','] + t4 + seq![','] + t5 + seq![','] + t6 + seq![','] + t7 + seq![','] + t8), (t9 + seq![','] + t10 + seq![','] + t11 + seq![','] + t12 + seq![','] + t13 + seq![','] + t14));
    assert(seq![t0, t1, t2, t3, t4, t5, t6, t7, t8] + seq![t9, t10, t11, t12, t13, t14] =~= seq![t0, t1, t2, t3, t4, t5, t6, t7, t8, t9, t10, t11, t12, t13, t14]);
    lemma_ttm_body_parts(d);
}

/// A written TTM value reads back as itself, when its target number is at
/// most 99, its numbers and angles are decimal literals, its time is a time
/// of day with seconds that are not negative and its name is ASCII, not
/// empty and free of commas and `*`.
#[verifier::spinoff_prover]
#[verifier::rlimit(50)]
pub proof fn lemma_ttm_reads_back(d: TtmData)
    requires
        d.target_number matches Some(n) ==> n <= 99,
        valid_angle(d.bearing_from_own_ship),
        valid_angle(d.target_course),
        crate::readback::valid_opt_number(d.target_distance),
        crate::readback::valid_opt_number(d.target_speed),
        crate::readback::valid_opt_number(d.distance_of_cpa),
        crate::readback::valid_opt_number(d.time_to_cpa),
        crate::readback::valid_opt_name(opt_chars_h32(d.target_name), 32),
        crate::readback::valid_opt_hms(d.time_of_data),
    ensures
        ttm_data_result(ttm_body(d), Ok(d)),
        !ttm_body(d).contains('*'),
        vstd::utf8::is_ascii_chars(ttm_body(d)),
{
    lemma_ttm_fields(d);
    assert(crate::readback::plain_fields(split_fields(ttm_body(d)))) by {
        crate::readback::lemma_opt_u8_reads_back(d.target_number, 99);
        crate::readback::lemma_opt_number_reads_back(d.target_distance);
        lemma_angle_reads_back(d.bearing_from_own_ship);
        crate::readback::lemma_opt_number_reads_back(d.target_speed);
        lemma_angle_reads_back(d.target_course);
        crate::readback::lemma_opt_number_reads_back(d.distance_of_cpa);
        crate::readback::lemma_opt_number_reads_back(d.time_to_cpa);
        lemma_ttm_letters_read_back(d);
        crate::readback::lemma_opt_name_reads_back(opt_chars_h32(d.target_name), 32);
        crate::readback::lemma_char_plain('R');
        crate::readback::lemma_opt_hms_reads_back(d.time_of_data);
    }
    crate::readback::lemma_plain_from_fields(ttm_body(d));
    crate::readback::lemma_opt_u8_reads_back(d.target_number, 99);
    crate::readback::lemma_opt_number_reads_back(d.target_distance);
    lemma_angle_reads_back(d.bearing_from_own_ship);
    crate::readback::lemma_opt_number_reads_back(d.target_speed);
    lemma_angle_reads_back(d.target_course);
    crate::readback::lemma_opt_number_reads_back(d.distance_of_cpa);
    crate::readback::lemma_opt_number_reads_back(d.time_to_cpa);
    lemma_ttm_letters_read_back(d);
    crate::readback::lemma_opt_name_reads_back(opt_chars_h32(d.target_name), 32);
    crate::readback::lemma_opt_hms_reads_back(d.time_of_data);
}

/// Reading a TTM sentence gives each letter its NMEA meaning: the status
/// field `L` is a lost target, `Q` one being acquired, `T` a tracked one;
/// the acquisition field starting with `A` is automatic, `M` manual, `R`
/// reported; the unit field `K` is kilometers, `N` nautical miles, `S`
/// statute miles; an angle's reference `R` is relative, `T` theoretical.
#[verifier::spinoff_prover]
#[verifier::rlimit(50)]
pub proof fn lemma_ttm_letters_read(data: Seq<char>, d: TtmData)
    requires
        ttm_data_result(data, Ok(d)),
    ensures
        ({
            let f = split_fields(data);
            let acq = f[14].len() >= 1;
            &&& d.target_status == Some(TtmStatus::Lost) <==> f[11] == seq!['L']
            &&& d.target_status == Some(TtmStatus::Query) <==> f[11] == seq!['Q']
            &&& d.target_status == Some(TtmStatus::Tracking) <==> f[11] == seq!['T']
            &&& d.target_status is None <==> f[11].len() == 0
            &&& d.type_of_acquisition == Some(TtmTypeOfAcquisition::Automatic) <==> acq && f[14][0] == 'A'
            &&& d.type_of_acquisition == Some(TtmTypeOfAcquisition::Manual) <==> acq && f[14][0] == 'M'
            &&& d.type_of_acquisition == Some(TtmTypeOfAcquisition::Reported) <==> acq && f[14][0] == 'R'
            &&& d.speed_or_distance_unit == Some(TtmDistanceUnit::Kilometer) <==> f[9] == seq!['K']
            &&& d.speed_or_distance_unit == Some(TtmDistanceUnit::NauticalMile) <==> f[9] == seq!['N']
            &&& d.speed_or_distance_unit == Some(TtmDistanceUnit::StatuteMile) <==> f[9] == seq!['S']
            &&& d.speed_or_distance_unit is None <==> f[9].len() == 0
            &&& d.bearing_from_own_ship matches Some(a) ==> (a.reference == TtmReference::Relative <==> f[3] == seq!['R'])
            &&& d.bearing_from_own_ship matches Some(a) ==> (a.reference == TtmReference::Theoretical <==> f[3] == seq!['T'])
            &&& d.target_course matches Some(a) ==> (a.reference == TtmReference::Relative <==> f[6] == seq!['R'])
            &&& d.target_course matches Some(a) ==> (a.reference == TtmReference::Theoretical <==> f[6] == seq!['T'])
        }),
{
    let f = split_fields(data);
    crate::text::lemma_letters3('L', 'Q', 'T', f[11]);
    crate::text::lemma_letters3('A', 'M', 'R', f[14]);
    crate::text::lemma_letters3('K', 'N', 'S', f[9]);
    crate::text::lemma_letters2('R', 'T', f[3]);
    crate::text::lemma_letters2('R', 'T', f[6]);
}

/// Writing a TTM value gives each letter its NMEA meaning: the written
/// status field is `L` for a lost target, `Q` for one being acquired, `T`
/// for a tracked one, and the acquisition field `A`, `M` or `R` for an
/// automatic, manual or reported one; likewise the unit field.
#[verifier::spinoff_prover]
pub proof fn lemma_ttm_letters_written(d: TtmData)
    requires
        d.target_number matches Some(n) ==> n <= 99,
        valid_angle(d.bearing_from_own_ship),
        valid_angle(d.target_course),
        crate::readback::valid_opt_number(d.target_distance),
        crate::readback::valid_opt_number(d.target_speed),
        crate::readback::valid_opt_number(d.distance_of_cpa),
        crate::readback::valid_opt_number(d.time_to_cpa),
        crate::readback::valid_opt_name(opt_chars_h32(d.target_name), 32),
        crate::readback::valid_opt_hms(d.time_of_data),
    ensures
        ({
            let f = split_fields(ttm_body(d));
            &&& d.target_status == Some(TtmStatus::Lost) <==> f[11] == seq!['L']
            &&& d.target_status == Some(TtmStatus::Query) <==> f[11] == seq!['Q']
            &&& d.target_status == Some(TtmStatus::Tracking) <==> f[11] == seq!['T']
            &&& d.type_of_acquisition == Some(TtmTypeOfAcquisition::Automatic) <==> f[14] == seq!['A']
            &&& d.type_of_acquisition == Some(TtmTypeOfAcquisition::Manual) <==> f[14] == seq!['M']
            &&& d.type_of_acquisition == Some(TtmTypeOfAcquisition::Reported) <==> f[14] == seq!['R']
            &&& d.speed_or_distance_unit == Some(TtmDistanceUnit::Kilometer) <==> f[9] == seq!['K']
            &&& d.speed_or_distance_unit == Some(TtmDistanceUnit::NauticalMile) <==> f[9] == seq!['N']
            &&& d.speed_or_distance_unit == Some(TtmDistanceUnit::StatuteMile) <==> f[9] == seq!['S']
        }),
{
    lemma_ttm_reads_back(d);
    lemma_ttm_letters_read(ttm_body(d), d);
    let f = split_fields(ttm_body(d));
    lemma_ttm_fields(d);
    crate::text::lemma_letters3('A', 'M', 'R', f[14]);
}

} // verus!
