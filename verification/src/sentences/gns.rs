//! GNS - GNSS Fix Data:
//! `$--GNS,hhmmss.ss,ddmm.mm,a,dddmm.mm,a,c--c,xx,x.x,x.x,x.x,x.x,x.x,a*hh`
//! 1. UTC time; 2-5. Position; 6. Mode indicators, one per satellite system;
//! 7. Number of satellites in use; 8. HDOP; 9. Antenna altitude (meters);
//! 10. Geoidal separation; 11. Age of differential data; 12. Differential
//! reference station id; 13. Navigational status (NMEA 4.1 and later).

use vstd::prelude::*;
use vstd::string::*;

use crate::error::Error;
use crate::generate::GenerateNmeaBody;
use crate::parse::NmeaSentence;
use crate::position::{
    Hms, LatLon, fhms, flat_lon, lat_lon_chars, lat_lon_fields, opt_hms_chars, opt_hms_field,
    opt_hms_is, opt_lat_lon_is, padded, push_padded, read_lat_lon, read_opt_hms, read_uint_text,
    uint_text, write_hms, write_lat_lon,
};
use crate::sentence_type::SentenceType;
use crate::sentences::faa_mode::{FaaMode, FaaModes, faa_modes_field, modes_text, parse_faa_modes};
use crate::strings::{decimal, opt_text, push_char, push_decimal, write_field};
use crate::text::{
    Number, chars_of, exec_opt_one_of_prefix, field_spans, fnum, opt_float_field, opt_num_is,
    opt_one_of_prefix, read_opt_float_field, read_unsigned, split_fields, unsigned_field,
};

verus! {

/// Whether a position may be used for navigation.
#[derive(Clone, Copy, Debug, PartialEq, Eq, Structural)]
pub enum NavigationStatus {
    Safe,
    Caution,
    Unsafe,
    NotValidForNavigation,
}

/// The character of a status: `S`, `C`, `U` or `V`.
pub open spec fn spec_nav_char(n: NavigationStatus) -> char {
    match n {
        NavigationStatus::Safe => 'S',
        NavigationStatus::Caution => 'C',
        NavigationStatus::Unsafe => 'U',
        NavigationStatus::NotValidForNavigation => 'V',
    }
}

/// The status a character stands for.
pub open spec fn spec_parse_nav(c: char) -> Option<NavigationStatus> {
    if c == 'S' {
        Some(NavigationStatus::Safe)
    } else if c == 'C' {
        Some(NavigationStatus::Caution)
    } else if c == 'U' {
        Some(NavigationStatus::Unsafe)
    } else if c == 'V' {
        Some(NavigationStatus::NotValidForNavigation)
    } else {
        None
    }
}

impl NavigationStatus {
    /// The character of the status.
    pub fn to_nmea_char(self) -> (c: char)
        ensures
            c == spec_nav_char(self),
    {
        match self {
            NavigationStatus::Safe => 'S',
            NavigationStatus::Caution => 'C',
            NavigationStatus::Unsafe => 'U',
            NavigationStatus::NotValidForNavigation => 'V',
        }
    }
}

fn nav_of(c: char) -> (r: Option<NavigationStatus>)
    ensures
        r == spec_parse_nav(c),
{
    if c == 'S' {
        Some(NavigationStatus::Safe)
    } else if c == 'C' {
        Some(NavigationStatus::Caution)
    } else if c == 'U' {
        Some(NavigationStatus::Unsafe)
    } else if c == 'V' {
        Some(NavigationStatus::NotValidForNavigation)
    } else {
        None
    }
}

/// The data of a GNS sentence.
#[derive(Debug, Clone, PartialEq)]
pub struct GnsData {
    pub fix_time: Option<Hms>,
    pub position: Option<LatLon>,
    pub faa_modes: FaaModes,
    pub nsattelites: u16,
    pub hdop: Option<Number>,
    pub alt: Option<Number>,
    pub geoid_separation: Option<Number>,
    pub age_of_differential: Option<Number>,
    pub station_id: Option<u16>,
    pub nav_status: Option<NavigationStatus>,
}

/// The GNS grammar over the comma-separated fields. The station id is read
/// up to the next comma; a text that is no number gives no id rather than
/// an error. The status is the first character of a thirteenth field, when
/// it is one of `S`, `C`, `U`, `V`; what follows is ignored.
pub open spec fn gns_accepts(f: Seq<Seq<char>>) -> bool {
    &&& f.len() >= 12
    &&& opt_hms_field(f[0]) is Some
    &&& lat_lon_fields(f, 1) is Some
    &&& faa_modes_field(f[5]) is Some
    &&& unsigned_field(f[6], 65535) is Some
    &&& opt_float_field(f[7]) is Some
    &&& opt_float_field(f[8]) is Some
    &&& opt_float_field(f[9]) is Some
    &&& opt_float_field(f[10]) is Some
}

/// The station id of the twelfth field.
pub open spec fn gns_station(f: Seq<char>) -> Option<nat> {
    if f.len() == 0 {
        None
    } else {
        uint_text(f, 65535)
    }
}

/// The status of the fields after the twelfth.
pub open spec fn gns_nav(f: Seq<Seq<char>>) -> Option<NavigationStatus> {
    if f.len() > 12 {
        match opt_one_of_prefix(f[12], seq!['S', 'C', 'U', 'V']) {
            Some(c) => spec_parse_nav(c),
            None => None,
        }
    } else {
        None
    }
}

/// What reading the data `data` of a GNS sentence gives.
pub open spec fn gns_data_result(data: Seq<char>, r: Result<GnsData, Error>) -> bool {
    let f = split_fields(data);
    if gns_accepts(f) {
        r matches Ok(d) && {
            &&& opt_hms_is(d.fix_time, fhms(f[0]))
            &&& opt_lat_lon_is(d.position, flat_lon(f, 1))
            &&& Some(d.faa_modes.spec_modes()) == faa_modes_field(f[5])
            &&& Some(d.nsattelites as nat) == unsigned_field(f[6], 65535)
            &&& opt_num_is(d.hdop, fnum(f[7]))
            &&& opt_num_is(d.alt, fnum(f[8]))
            &&& opt_num_is(d.geoid_separation, fnum(f[9]))
            &&& opt_num_is(d.age_of_differential, fnum(f[10]))
            &&& match d.station_id {
                Some(v) => gns_station(f[11]) == Some(v as nat),
                None => gns_station(f[11]) is None,
            }
            &&& d.nav_status == gns_nav(f)
        }
    } else {
        r == Err::<GnsData, Error>(Error::ParsingError)
    }
}

/// What [`parse_gns`] gives for a sentence.
pub open spec fn gns_result(s: NmeaSentence, r: Result<GnsData, Error>) -> bool {
    if s.message_id != SentenceType::GNS {
        r == Err::<GnsData, Error>(
            Error::WrongSentenceHeader { expected: SentenceType::GNS, found: s.message_id },
        )
    } else {
        gns_data_result(s.data@, r)
    }
}

/// Reads the data of a GNS sentence.
pub fn parse_gns(sentence: NmeaSentence<'_>) -> (r: Result<GnsData, Error>)
    ensures
        gns_result(sentence, r),
{
    if sentence.message_id != SentenceType::GNS {
        return Err(Error::WrongSentenceHeader { expected: SentenceType::GNS, found: sentence.message_id });
    }
    let d = sentence.data;
    let s = chars_of(d);
    let sp = field_spans(&s);
    if sp.len() < 12 {
        return Err(Error::ParsingError);
    }
    let fix_time = match read_opt_hms(d, &s, sp[0].0, sp[0].1) {
        Some(t) => t,
        None => return Err(Error::ParsingError),
    };
    let position = match read_lat_lon(d, &s, &sp, 1) {
        Some(p) => p,
        None => return Err(Error::ParsingError),
    };
    let faa_modes = match parse_faa_modes(&s, sp[5].0, sp[5].1) {
        Some(m) => m,
        None => return Err(Error::ParsingError),
    };
    let nsattelites = match read_unsigned(&s, sp[6].0, sp[6].1, 65535) {
        Some(n) => n as u16,
        None => return Err(Error::ParsingError),
    };
    let hdop = match read_opt_float_field(d, &s, sp[7].0, sp[7].1) {
        Some(o) => o,
        None => return Err(Error::ParsingError),
    };
    let alt = match read_opt_float_field(d, &s, sp[8].0, sp[8].1) {
        Some(o) => o,
        None => return Err(Error::ParsingError),
    };
    let geoid_separation = match read_opt_float_field(d, &s, sp[9].0, sp[9].1) {
        Some(o) => o,
        None => return Err(Error::ParsingError),
    };
    let age_of_differential = match read_opt_float_field(d, &s, sp[10].0, sp[10].1) {
        Some(o) => o,
        None => return Err(Error::ParsingError),
    };
    let station_id = if sp[11].0 == sp[11].1 {
        None
    } else {
        match read_uint_text(&s, sp[11].0, sp[11].1, 65535) {
            Some(v) => Some(v as u16),
            None => None,
        }
    };
    let nav_status = if sp.len() > 12 {
        let scuv = ['S', 'C', 'U', 'V'];
        assert(scuv@ =~= seq!['S', 'C', 'U', 'V']);
        match exec_opt_one_of_prefix(&s, sp[12].0, sp[12].1, scuv.as_slice()) {
            Some(c) => nav_of(c),
            None => None,
        }
    } else {
        None
    };
    Ok(
        GnsData {
            fix_time,
            position,
            faa_modes,
            nsattelites,
            hdop,
            alt,
            geoid_separation,
            age_of_differential,
            station_id,
            nav_status,
        },
    )
}

/// The fields of a GNS value up to the station id.
pub open spec fn gns_head(d: GnsData) -> Seq<char> {
    opt_hms_chars(d.fix_time) + seq![','] + lat_lon_chars(d.position) + seq![','] + modes_text(
        d.faa_modes.spec_modes(),
    ) + seq![','] + decimal(d.nsattelites as nat) + seq![','] + opt_text(d.hdop) + seq![',']
        + opt_text(d.alt) + seq![','] + opt_text(d.geoid_separation) + seq![','] + opt_text(
        d.age_of_differential,
    ) + seq![',']
}

/// The station id in at least four digits, nothing when absent.
pub open spec fn gns_station_chars(d: GnsData) -> Seq<char> {
    match d.station_id {
        Some(v) => padded(v as nat, 4),
        None => Seq::empty(),
    }
}

/// The status after one more comma, nothing when absent.
pub open spec fn gns_nav_chars(d: GnsData) -> Seq<char> {
    match d.nav_status {
        Some(n) => seq![',', spec_nav_char(n)],
        None => Seq::empty(),
    }
}

/// The body a GNS value is written as.
pub open spec fn gns_body(d: GnsData) -> Seq<char> {
    gns_head(d) + gns_station_chars(d) + gns_nav_chars(d)
}

impl GenerateNmeaBody for GnsData {
    open spec fn spec_sentence_type(&self) -> SentenceType {
        SentenceType::GNS
    }

    open spec fn spec_body(&self) -> Seq<char> {
        gns_body(*self)
    }

    fn sentence_type(&self) -> (t: SentenceType) {
        SentenceType::GNS
    }

    fn write_body(&self, f: &mut String) {
        write_hms(f, &self.fix_time);
        push_char(f, ',');
        write_lat_lon(f, &self.position);
        push_char(f, ',');
        self.faa_modes.write_nmea(f);
        push_char(f, ',');
        push_decimal(f, self.nsattelites as u64);
        push_char(f, ',');
        write_field(f, &self.hdop);
        write_field(f, &self.alt);
        write_field(f, &self.geoid_separation);
        write_field(f, &self.age_of_differential);
        assert(f@ =~= old(f)@ + gns_head(*self));
        let ghost h = f@;
        if let Some(v) = self.station_id {
            push_padded(f, v as u64, 4);
        }
        assert(f@ =~= h + gns_station_chars(*self));
        let ghost g = f@;
        if let Some(n) = self.nav_status {
            push_char(f, ',');
            push_char(f, n.to_nmea_char());
        }
        assert(f@ =~= g + gns_nav_chars(*self));
        assert(f@ =~= old(f)@ + gns_body(*self));
    }
}

/// The fields of a written GNS value: eleven fields, the station id, and
/// the status when there is one.
pub open spec fn gns_fields(d: GnsData) -> Seq<Seq<char>> {
    let h = seq![
        opt_hms_chars(d.fix_time),
        crate::position::lat_field(d.position),
        crate::position::ns_field(d.position),
        crate::position::lon_field(d.position),
        crate::position::ew_field(d.position),
        modes_text(d.faa_modes.spec_modes()),
        decimal(d.nsattelites as nat),
        opt_text(d.hdop),
        opt_text(d.alt),
        opt_text(d.geoid_separation),
        opt_text(d.age_of_differential),
        gns_station_chars(d),
    ];
    match d.nav_status {
        Some(n) => h.push(seq![spec_nav_char(n)]),
        None => h,
    }
}

/// The head of a written GNS value is its eleven fields, each followed by
/// a comma.
#[verifier::spinoff_prover]
#[verifier::rlimit(50)]
proof fn lemma_gns_head_parts(d: GnsData)
    ensures
        gns_head(d) == opt_hms_chars(d.fix_time) + seq![','] + crate::position::lat_field(d.position) + seq![','] + crate::position::ns_field(d.position) + seq![','] + crate::position::lon_field(d.position) + seq![','] + crate::position::ew_field(d.position) + seq![','] + modes_text(d.faa_modes.spec_modes()) + seq![','] + decimal(d.nsattelites as nat) + seq![','] + opt_text(d.hdop) + seq![','] + opt_text(d.alt) + seq![','] + opt_text(d.geoid_separation) + seq![','] + opt_text(d.age_of_differential) + seq![','],
{
    crate::readback::lemma_lat_lon_parts(d.position);
    assert(gns_head(d) =~= opt_hms_chars(d.fix_time) + seq![','] + crate::position::lat_field(d.position) + seq![','] + crate::position::ns_field(d.position) + seq![','] + crate::position::lon_field(d.position) + seq![','] + crate::position::ew_field(d.position) + seq![','] + modes_text(d.faa_modes.spec_modes()) + seq![','] + decimal(d.nsattelites as nat) + seq![','] + opt_text(d.hdop) + seq![','] + opt_text(d.alt) + seq![','] + opt_text(d.geoid_separation) + seq![','] + opt_text(d.age_of_differential) + seq![',']);
}

/// The station id written in at least four digits reads back, and holds
/// no comma or `*`.
proof fn lemma_gns_station_reads_back(d: GnsData)
    ensures
        match d.station_id {
            Some(v) => gns_station(gns_station_chars(d)) == Some(v as nat),
            None => gns_station(gns_station_chars(d)) is None,
        },
        !gns_station_chars(d).contains(','),
        !gns_station_chars(d).contains('*'),
        vstd::utf8::is_ascii_chars(gns_station_chars(d)),
{
    match d.station_id {
        Some(v) => {
            crate::readback::lemma_decimal_len(v as nat);
            if decimal(v as nat).len() <= 4 {
                crate::readback::lemma_padded_reads_back(v as nat, 4, 65535);
            } else {
                crate::readback::lemma_padded_reads_back(v as nat, 5, 65535);
                assert(padded(v as nat, 4) == padded(v as nat, 5));
            }
        },
        None => {},
    }
}

/// The body of a GNS value is its fields joined with commas.
#[verifier::spinoff_prover]
#[verifier::rlimit(50)]
proof fn lemma_gns_body_parts(d: GnsData)
    ensures
        gns_body(d) == (match d.nav_status {
            Some(n) => opt_hms_chars(d.fix_time) + seq![','] + crate::position::lat_field(d.position) + seq![','] + crate::position::ns_field(d.position) + seq![','] + crate::position::lon_field(d.position) + seq![','] + crate::position::ew_field(d.position) + seq![','] + modes_text(d.faa_modes.spec_modes()) + seq![','] + decimal(d.nsattelites as nat) + seq![','] + opt_text(d.hdop) + seq![','] + opt_text(d.alt) + seq![','] + opt_text(d.geoid_separation) + seq![','] + opt_text(d.age_of_differential) + seq![','] + gns_station_chars(d) + seq![','] + seq![spec_nav_char(n)],
            None => opt_hms_chars(d.fix_time) + seq![','] + crate::position::lat_field(d.position) + seq![','] + crate::position::ns_field(d.position) + seq![','] + crate::position::lon_field(d.position) + seq![','] + crate::position::ew_field(d.position) + seq![','] + modes_text(d.faa_modes.spec_modes()) + seq![','] + decimal(d.nsattelites as nat) + seq![','] + opt_text(d.hdop) + seq![','] + opt_text(d.alt) + seq![','] + opt_text(d.geoid_separation) + seq![','] + opt_text(d.age_of_differential) + seq![','] + gns_station_chars(d),
        }),
{
    lemma_gns_head_parts(d);
    let h = gns_head(d);
    match d.nav_status {
        Some(n) => {
            assert(gns_body(d) =~= h + gns_station_chars(d) + seq![','] + seq![spec_nav_char(n)]);
        },
        None => {
            assert(gns_body(d) =~= h + gns_station_chars(d));
        },
    }
}

/// A written GNS value splits into its fields, none holding `*`.
#[verifier::rlimit(50)]
proof fn lemma_gns_split(d: GnsData)
    requires
        1 <= d.faa_modes.spec_modes().len() <= 6,
        crate::readback::valid_opt_hms(d.fix_time),
        crate::readback::valid_opt_lat_lon(d.position),
        crate::readback::valid_opt_number(d.hdop),
        crate::readback::valid_opt_number(d.alt),
        crate::readback::valid_opt_number(d.geoid_separation),
        crate::readback::valid_opt_number(d.age_of_differential),
    ensures
        split_fields(gns_body(d)) == gns_fields(d),
        crate::readback::plain_fields(gns_fields(d)),
{
    let t0 = opt_hms_chars(d.fix_time);
    let t1 = crate::position::lat_field(d.position);
    let t2 = crate::position::ns_field(d.position);
    let t3 = crate::position::lon_field(d.position);
    let t4 = crate::position::ew_field(d.position);
    let t5 = modes_text(d.faa_modes.spec_modes());
    let t6 = decimal(d.nsattelites as nat);
    let t7 = opt_text(d.hdop);
    let t8 = opt_text(d.alt);
    let t9 = opt_text(d.geoid_separation);
    let t10 = opt_text(d.age_of_differential);
    let t11 = gns_station_chars(d);
    crate::readback::lemma_opt_hms_reads_back(d.fix_time);
    crate::readback::lemma_lat_lon_plain(d.position);
    crate::sentences::faa_mode::lemma_modes_reads_back(d.faa_modes.spec_modes());
    crate::readback::lemma_decimal_reads_back(d.nsattelites as nat);
    crate::readback::lemma_opt_number_plain(d.hdop);
    crate::readback::lemma_opt_number_plain(d.alt);
    crate::readback::lemma_opt_number_plain(d.geoid_separation);
    crate::readback::lemma_opt_number_plain(d.age_of_differential);
    crate::readback::lemma_opt_number_reads_back(d.hdop);
    crate::readback::lemma_opt_number_reads_back(d.alt);
    crate::readback::lemma_opt_number_reads_back(d.geoid_separation);
    crate::readback::lemma_opt_number_reads_back(d.age_of_differential);
    lemma_gns_station_reads_back(d);
    lemma_gns_body_parts(d);
    match d.nav_status {
        Some(n) => {
            crate::readback::lemma_char_plain(spec_nav_char(n));
            crate::readback::lemma_split_fields_13(t0, t1, t2, t3, t4, t5, t6, t7, t8, t9, t10, t11, seq![spec_nav_char(n)]);
        },
        None => {
            crate::readback::lemma_split_fields_12(t0, t1, t2, t3, t4, t5, t6, t7, t8, t9, t10, t11);
        },
    }
}

/// A written GNS value reads back as itself, when its numbers are decimal
/// literals, its time is a time of day with seconds that are not negative,
/// its latitude degrees fit two digits and its minutes are not negative.
#[verifier::spinoff_prover]
#[verifier::rlimit(100)]
pub proof fn lemma_gns_reads_back(d: GnsData)
    requires
        1 <= d.faa_modes.spec_modes().len() <= 6,
        crate::readback::valid_opt_hms(d.fix_time),
        crate::readback::valid_opt_lat_lon(d.position),
        crate::readback::valid_opt_number(d.hdop),
        crate::readback::valid_opt_number(d.alt),
        crate::readback::valid_opt_number(d.geoid_separation),
        crate::readback::valid_opt_number(d.age_of_differential),
    ensures
        gns_data_result(gns_body(d), Ok(d)),
        !gns_body(d).contains('*'),
        vstd::utf8::is_ascii_chars(gns_body(d)),
{
    lemma_gns_split(d);
    crate::readback::lemma_plain_from_fields(gns_body(d));
    let f = split_fields(gns_body(d));
    crate::readback::lemma_opt_hms_reads_back(d.fix_time);
    crate::readback::lemma_lat_lon_reads_back(f, 1, d.position);
    crate::sentences::faa_mode::lemma_modes_reads_back(d.faa_modes.spec_modes());
    crate::readback::lemma_decimal_reads_back(d.nsattelites as nat);
    crate::readback::lemma_opt_number_reads_back(d.hdop);
    crate::readback::lemma_opt_number_reads_back(d.alt);
    crate::readback::lemma_opt_number_reads_back(d.geoid_separation);
    crate::readback::lemma_opt_number_reads_back(d.age_of_differential);
    lemma_gns_station_reads_back(d);
    assert(f[5] == modes_text(d.faa_modes.spec_modes()));
    assert(f[6] == decimal(d.nsattelites as nat));
    assert(f[11] == gns_station_chars(d));
    match d.nav_status {
        Some(n) => {
            assert(f[12] == seq![spec_nav_char(n)]);
            assert(seq!['S', 'C', 'U', 'V'][0] == 'S' && seq!['S', 'C', 'U', 'V'][1] == 'C' && seq!['S', 'C', 'U', 'V'][2] == 'U' && seq!['S', 'C', 'U', 'V'][3] == 'V');
        },
        None => {
            assert(f.len() == 12);
        },
    }
}

/// Reading a GNS sentence gives each status letter its NMEA meaning: a
/// thirteenth field starting with `S` is safe, `C` caution, `U` unsafe, `V`
/// not valid for navigation; any other field, or none, gives no status.
#[verifier::spinoff_prover]
pub proof fn lemma_gns_status_letters_read(data: Seq<char>, d: GnsData)
    requires
        gns_data_result(data, Ok(d)),
    ensures
        ({
            let f = split_fields(data);
            let present = f.len() > 12 && f[12].len() >= 1;
            &&& d.nav_status == Some(NavigationStatus::Safe) <==> present && f[12][0] == 'S'
            &&& d.nav_status == Some(NavigationStatus::Caution) <==> present && f[12][0] == 'C'
            &&& d.nav_status == Some(NavigationStatus::Unsafe) <==> present && f[12][0] == 'U'
            &&& d.nav_status == Some(NavigationStatus::NotValidForNavigation) <==> present && f[12][0] == 'V'
        }),
{
    let f = split_fields(data);
    if f.len() > 12 {
        crate::text::lemma_letters4('S', 'C', 'U', 'V', f[12]);
    }
}

/// Writing a GNS value gives each status its NMEA letter: the written
/// thirteenth field starts with `S` when safe, `C` under caution, `U` when
/// unsafe and `V` when not valid for navigation.
#[verifier::spinoff_prover]
pub proof fn lemma_gns_status_letters_written(d: GnsData)
    requires
        1 <= d.faa_modes.spec_modes().len() <= 6,
        crate::readback::valid_opt_hms(d.fix_time),
        crate::readback::valid_opt_lat_lon(d.position),
        crate::readback::valid_opt_number(d.hdop),
        crate::readback::valid_opt_number(d.alt),
        crate::readback::valid_opt_number(d.geoid_separation),
        crate::readback::valid_opt_number(d.age_of_differential),
    ensures
        ({
            let f = split_fields(gns_body(d));
            let present = f.len() > 12 && f[12].len() >= 1;
            &&& d.nav_status == Some(NavigationStatus::Safe) <==> present && f[12][0] == 'S'
            &&& d.nav_status == Some(NavigationStatus::Caution) <==> present && f[12][0] == 'C'
            &&& d.nav_status == Some(NavigationStatus::Unsafe) <==> present && f[12][0] == 'U'
            &&& d.nav_status == Some(NavigationStatus::NotValidForNavigation) <==> present && f[12][0] == 'V'
        }),
{
    lemma_gns_reads_back(d);
    lemma_gns_status_letters_read(gns_body(d), d);
}

/// Reading a GNS sentence gives each mode letter its NMEA meaning: the
/// `j`-th mode read is RTK float exactly when the `j`-th letter of the mode
/// field is `F`, RTK integer when it is `R`, and so for every mode.
pub proof fn lemma_gns_mode_letters_read(data: Seq<char>, d: GnsData)
    requires
        gns_data_result(data, Ok(d)),
    ensures
        ({
            let f = split_fields(data);
            let m = d.faa_modes.spec_modes();
            &&& m.len() <= f[5].len()
            &&& forall|j: int| 0 <= j < m.len() ==> {
                &&& m[j] == FaaMode::Autonomous <==> f[5][j] == 'A'
                &&& m[j] == FaaMode::Caution <==> f[5][j] == 'C'
                &&& m[j] == FaaMode::Differential <==> f[5][j] == 'D'
                &&& m[j] == FaaMode::Estimated <==> f[5][j] == 'E'
                &&& m[j] == FaaMode::FloatRtk <==> f[5][j] == 'F'
                &&& m[j] == FaaMode::Manual <==> f[5][j] == 'M'
                &&& m[j] == FaaMode::DataNotValid <==> f[5][j] == 'N'
                &&& m[j] == FaaMode::Precise <==> f[5][j] == 'P'
                &&& m[j] == FaaMode::FixedRtk <==> f[5][j] == 'R'
                &&& m[j] == FaaMode::Simulator <==> f[5][j] == 'S'
                &&& m[j] == FaaMode::Unsafe <==> f[5][j] == 'U'
            }
        }),
{
    let f = split_fields(data);
    let m = d.faa_modes.spec_modes();
    assert forall|j: int| 0 <= j < m.len() implies {
                &&& m[j] == FaaMode::Autonomous <==> f[5][j] == 'A'
                &&& m[j] == FaaMode::Caution <==> f[5][j] == 'C'
                &&& m[j] == FaaMode::Differential <==> f[5][j] == 'D'
                &&& m[j] == FaaMode::Estimated <==> f[5][j] == 'E'
                &&& m[j] == FaaMode::FloatRtk <==> f[5][j] == 'F'
                &&& m[j] == FaaMode::Manual <==> f[5][j] == 'M'
                &&& m[j] == FaaMode::DataNotValid <==> f[5][j] == 'N'
                &&& m[j] == FaaMode::Precise <==> f[5][j] == 'P'
                &&& m[j] == FaaMode::FixedRtk <==> f[5][j] == 'R'
                &&& m[j] == FaaMode::Simulator <==> f[5][j] == 'S'
                &&& m[j] == FaaMode::Unsafe <==> f[5][j] == 'U'
    } by {
        crate::sentences::faa_mode::lemma_faa_mode_letters(f[5][j]);
    }
}

} // verus!
