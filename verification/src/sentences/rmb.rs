//! RMB - Recommended Minimum Navigation Information:
//! `$--RMB,A,x.x,a,c--c,c--c,llll.ll,a,yyyyy.yy,a,x.x,x.x,x.x,A,m*hh`
//! 1. Status, `A` active or `V` void; 2. Cross-track error (nautical miles);
//! 3. Direction to steer, `L` or `R`; 4. Origin waypoint id; 5. Destination
//! waypoint id; 6-9. Destination position; 10. Range to destination;
//! 11. Bearing to destination (degrees true); 12. Closing velocity (knots);
//! 13. Arrival status, `A` arrived; 14. FAA mode (NMEA 2.3 and later).

use vstd::prelude::*;
use vstd::string::*;
use arrayvec::ArrayString;

use crate::bounded::as_str64;
use crate::error::Error;
use crate::generate::GenerateNmeaBody;
use crate::names::{ftext, opt_chars64, opt_name_chars, opt_text_field, read_text64};
use crate::parse::NmeaSentence;
use crate::position::{LatLon, flat_lon, lat_lon_chars, lat_lon_fields, opt_lat_lon_is, read_lat_lon, write_lat_lon};
use crate::sentence_type::SentenceType;
use crate::strings::{opt_text, push_char, push_str, write_opt};
use crate::text::{
    Number, chars_of, exec_one_of_field, exec_opt_one_of_field, exec_opt_one_of_prefix, field_spans,
    fnum, negate_if, negate_opt, one_of_field, opt_float_field, opt_num_is, opt_num_view,
    opt_one_of_field, opt_one_of_prefix, read_opt_float_field, split_fields,
};

verus! {

/// The data of an RMB sentence.
#[derive(Debug, Clone, PartialEq)]
pub struct RmbData {
    pub status: bool,
    /// Cross-track error; negative when the direction to steer is right.
    pub cross_track_error: Option<Number>,
    pub origin_waypoint_id: Option<ArrayString<64>>,
    pub dest_waypoint_id: Option<ArrayString<64>>,
    pub dest_position: Option<LatLon>,
    pub range_to_dest: Option<Number>,
    pub bearing_to_dest: Option<Number>,
    pub closing_velocity: Option<Number>,
    pub arrived: bool,
}

/// The RMB grammar over the comma-separated fields. Waypoint ids take at
/// most 64 bytes. The arrival status is read at the start of the thirteenth
/// field and what follows it is ignored.
pub open spec fn rmb_accepts(f: Seq<Seq<char>>) -> bool {
    &&& f.len() >= 13
    &&& one_of_field(f[0], seq!['A', 'V']) is Some
    &&& opt_float_field(f[1]) is Some
    &&& opt_one_of_field(f[2], seq!['L', 'R']) is Some
    &&& opt_text_field(f[3], 64) is Some
    &&& opt_text_field(f[4], 64) is Some
    &&& lat_lon_fields(f, 5) is Some
    &&& opt_float_field(f[9]) is Some
    &&& opt_float_field(f[10]) is Some
    &&& opt_float_field(f[11]) is Some
}

/// What reading the data `data` of an RMB sentence gives.
pub open spec fn rmb_data_result(data: Seq<char>, r: Result<RmbData, Error>) -> bool {
    let f = split_fields(data);
    if rmb_accepts(f) {
        r matches Ok(d) && {
            &&& d.status == (f[0][0] == 'A')
            &&& opt_num_view(d.cross_track_error) == negate_if(
                fnum(f[1]),
                opt_one_of_field(f[2], seq!['L', 'R']) == Some(Some('R')),
            )
            &&& opt_chars64(d.origin_waypoint_id) == ftext(f[3], 64)
            &&& opt_chars64(d.dest_waypoint_id) == ftext(f[4], 64)
            &&& opt_lat_lon_is(d.dest_position, flat_lon(f, 5))
            &&& opt_num_is(d.range_to_dest, fnum(f[9]))
            &&& opt_num_is(d.bearing_to_dest, fnum(f[10]))
            &&& opt_num_is(d.closing_velocity, fnum(f[11]))
            &&& d.arrived == (opt_one_of_prefix(f[12], seq!['A', 'V']) == Some('A'))
        }
    } else {
        r == Err::<RmbData, Error>(Error::ParsingError)
    }
}

/// What [`parse_rmb`] gives for a sentence.
pub open spec fn rmb_result(s: NmeaSentence, r: Result<RmbData, Error>) -> bool {
    if s.message_id != SentenceType::RMB {
        r == Err::<RmbData, Error>(
            Error::WrongSentenceHeader { expected: SentenceType::RMB, found: s.message_id },
        )
    } else {
        rmb_data_result(s.data@, r)
    }
}

/// Reads the data of an RMB sentence.
pub fn parse_rmb(sentence: NmeaSentence<'_>) -> (r: Result<RmbData, Error>)
    ensures
        rmb_result(sentence, r),
{
    if sentence.message_id != SentenceType::RMB {
        return Err(Error::WrongSentenceHeader { expected: SentenceType::RMB, found: sentence.message_id });
    }
    let d = sentence.data;
    let s = chars_of(d);
    let sp = field_spans(&s);
    if sp.len() < 13 {
        return Err(Error::ParsingError);
    }
    let av = ['A', 'V'];
    let lr = ['L', 'R'];
    assert(av@ =~= seq!['A', 'V']);
    assert(lr@ =~= seq!['L', 'R']);
    let status = match exec_one_of_field(&s, sp[0].0, sp[0].1, av.as_slice()) {
        Some(c) => c == 'A',
        None => return Err(Error::ParsingError),
    };
    let xte = match read_opt_float_field(d, &s, sp[1].0, sp[1].1) {
        Some(o) => o,
        None => return Err(Error::ParsingError),
    };
    let steer = match exec_opt_one_of_field(&s, sp[2].0, sp[2].1, lr.as_slice()) {
        Some(o) => o,
        None => return Err(Error::ParsingError),
    };
    let origin_waypoint_id = match read_text64(d, &s, sp[3].0, sp[3].1) {
        Some(o) => o,
        None => return Err(Error::ParsingError),
    };
    let dest_waypoint_id = match read_text64(d, &s, sp[4].0, sp[4].1) {
        Some(o) => o,
        None => return Err(Error::ParsingError),
    };
    let dest_position = match read_lat_lon(d, &s, &sp, 5) {
        Some(p) => p,
        None => return Err(Error::ParsingError),
    };
    let range_to_dest = match read_opt_float_field(d, &s, sp[9].0, sp[9].1) {
        Some(o) => o,
        None => return Err(Error::ParsingError),
    };
    let bearing_to_dest = match read_opt_float_field(d, &s, sp[10].0, sp[10].1) {
        Some(o) => o,
        None => return Err(Error::ParsingError),
    };
    let closing_velocity = match read_opt_float_field(d, &s, sp[11].0, sp[11].1) {
        Some(o) => o,
        None => return Err(Error::ParsingError),
    };
    let arrival = exec_opt_one_of_prefix(&s, sp[12].0, sp[12].1, av.as_slice());
    Ok(
        RmbData {
            status,
            cross_track_error: negate_opt(xte, steer == Some('R')),
            origin_waypoint_id,
            dest_waypoint_id,
            dest_position,
            range_to_dest,
            bearing_to_dest,
            closing_velocity,
            arrived: arrival == Some('A'),
        },
    )
}

/// The cross-track error as written: its magnitude and the direction to
/// steer, `R` when negative and `L` otherwise; a lone comma when absent.
pub open spec fn xte_chars(o: Option<Number>) -> Seq<char> {
    match o {
        Some(n) => n.magnitude@ + seq![',', if n.negative { 'R' } else { 'L' }],
        None => seq![','],
    }
}

/// Writes a cross-track error; see [`xte_chars`].
pub fn write_xte(f: &mut String, o: &Option<Number>)
    ensures
        final(f)@ == old(f)@ + xte_chars(*o),
{
    match o {
        Some(n) => {
            push_str(f, n.magnitude.as_str());
            push_char(f, ',');
            push_char(f, if n.negative { 'R' } else { 'L' });
        },
        None => push_char(f, ','),
    }
    assert(f@ =~= old(f)@ + xte_chars(*o));
}

/// Writes an optional waypoint id, nothing when absent.
pub fn write_waypoint(f: &mut String, o: &Option<ArrayString<64>>)
    ensures
        final(f)@ == old(f)@ + opt_name_chars(opt_chars64(*o)),
{
    match o {
        Some(a) => push_str(f, as_str64(a)),
        None => {
            assert(old(f)@ + Seq::<char>::empty() =~= old(f)@);
        },
    }
}

/// The fields of an RMB value up to the destination waypoint.
pub open spec fn rmb_head(d: RmbData) -> Seq<char> {
    seq![if d.status { 'A' } else { 'V' }, ','] + xte_chars(d.cross_track_error) + seq![','] + opt_name_chars(
        opt_chars64(d.origin_waypoint_id),
    ) + seq![','] + opt_name_chars(opt_chars64(d.dest_waypoint_id)) + seq![',']
}

/// The body an RMB value is written as.
pub open spec fn rmb_body(d: RmbData) -> Seq<char> {
    rmb_head(d) + lat_lon_chars(d.dest_position) + seq![','] + opt_text(d.range_to_dest) + seq![',']
        + opt_text(d.bearing_to_dest) + seq![','] + opt_text(d.closing_velocity) + seq![
        ',',
        if d.arrived { 'A' } else { 'V' },
    ]
}

impl GenerateNmeaBody for RmbData {
    open spec fn spec_sentence_type(&self) -> SentenceType {
        SentenceType::RMB
    }

    open spec fn spec_body(&self) -> Seq<char> {
        rmb_body(*self)
    }

    fn sentence_type(&self) -> (t: SentenceType) {
        SentenceType::RMB
    }

    fn write_body(&self, f: &mut String) {
        push_char(f, if self.status { 'A' } else { 'V' });
        push_char(f, ',');
        write_xte(f, &self.cross_track_error);
        push_char(f, ',');
        write_waypoint(f, &self.origin_waypoint_id);
        push_char(f, ',');
        write_waypoint(f, &self.dest_waypoint_id);
        push_char(f, ',');
        assert(f@ =~= old(f)@ + rmb_head(*self));
        write_lat_lon(f, &self.dest_position);
        push_char(f, ',');
        write_opt(f, &self.range_to_dest);
        push_char(f, ',');
        write_opt(f, &self.bearing_to_dest);
        push_char(f, ',');
        write_opt(f, &self.closing_velocity);
        push_char(f, ',');
        push_char(f, if self.arrived { 'A' } else { 'V' });
        assert(f@ =~= old(f)@ + rmb_body(*self));
    }
}

/// The cross-track error as written is its magnitude and its direction
/// letter, two fields.
pub proof fn lemma_xte_chars_parts(o: Option<Number>)
    ensures
        xte_chars(o) == crate::readback::mag_text(o) + seq![','] + crate::readback::dir_text(o, 'R', 'L'),
{
    assert(xte_chars(o) =~= crate::readback::mag_text(o) + seq![','] + crate::readback::dir_text(o, 'R', 'L'));
}

/// The direction letter of a written cross-track error is read as `R`
/// exactly when it was written for a negative error.
pub proof fn lemma_xte_dir_reads_back(o: Option<Number>)
    ensures
        opt_one_of_field(crate::readback::dir_text(o, 'R', 'L'), seq!['L', 'R']) is Some,
        (opt_one_of_field(crate::readback::dir_text(o, 'R', 'L'), seq!['L', 'R']) == Some(Some('R'))) == (crate::readback::dir_text(o, 'R', 'L') == seq!['R']),
{
    assert(seq!['L', 'R'][0] == 'L' && seq!['L', 'R'][1] == 'R');
    assert(seq!['L'] != seq!['R']) by {
        assert(seq!['L'][0] != seq!['R'][0]);
    }
}

/// The head of a written RMB value is its first five fields, each followed
/// by a comma.
#[verifier::spinoff_prover]
#[verifier::rlimit(50)]
proof fn lemma_rmb_head_parts(d: RmbData)
    ensures
        rmb_head(d) == (if d.status { seq!['A'] } else { seq!['V'] }) + seq![','] + crate::readback::mag_text(d.cross_track_error) + seq![','] + crate::readback::dir_text(d.cross_track_error, 'R', 'L') + seq![','] + opt_name_chars(opt_chars64(d.origin_waypoint_id)) + seq![','] + opt_name_chars(opt_chars64(d.dest_waypoint_id)) + seq![','],
{
    lemma_xte_chars_parts(d.cross_track_error);
    assert(rmb_head(d) =~= (if d.status { seq!['A'] } else { seq!['V'] }) + seq![','] + crate::readback::mag_text(d.cross_track_error) + seq![','] + crate::readback::dir_text(d.cross_track_error, 'R', 'L') + seq![','] + opt_name_chars(opt_chars64(d.origin_waypoint_id)) + seq![','] + opt_name_chars(opt_chars64(d.dest_waypoint_id)) + seq![',']);
}

/// The body of an RMB value is its parts joined with commas.
#[verifier::spinoff_prover]
#[verifier::rlimit(100)]
proof fn lemma_rmb_body_parts(d: RmbData)
    ensures
        rmb_body(d) == ((if d.status { seq!['A'] } else { seq!['V'] }) + seq![','] + crate::readback::mag_text(d.cross_track_error) + seq![','] + crate::readback::dir_text(d.cross_track_error, 'R', 'L') + seq![','] + opt_name_chars(opt_chars64(d.origin_waypoint_id)) + seq![','] + opt_name_chars(opt_chars64(d.dest_waypoint_id))) + seq![','] + (crate::position::lat_field(d.dest_position) + seq![','] + crate::position::ns_field(d.dest_position) + seq![','] + crate::position::lon_field(d.dest_position) + seq![','] + crate::position::ew_field(d.dest_position) + seq![','] + opt_text(d.range_to_dest) + seq![','] + opt_text(d.bearing_to_dest) + seq![','] + opt_text(d.closing_velocity) + seq![','] + (if d.arrived { seq!['A'] } else { seq!['V'] })),
{
    let t0 = (if d.status { seq!['A'] } else { seq!['V'] });
    let t1 = crate::readback::mag_text(d.cross_track_error);
    let t2 = crate::readback::dir_text(d.cross_track_error, 'R', 'L');
    let t3 = opt_name_chars(opt_chars64(d.origin_waypoint_id));
    let t4 = opt_name_chars(opt_chars64(d.dest_waypoint_id));
    let t5 = crate::position::lat_field(d.dest_position);
    let t6 = crate::position::ns_field(d.dest_position);
    let t7 = crate::position::lon_field(d.dest_position);
    let t8 = crate::position::ew_field(d.dest_position);
    let t9 = opt_text(d.range_to_dest);
    let t10 = opt_text(d.bearing_to_dest);
    let t11 = opt_text(d.closing_velocity);
    let t12 = (if d.arrived { seq!['A'] } else { seq!['V'] });
    lemma_rmb_head_parts(d);
    crate::readback::lemma_lat_lon_parts(d.dest_position);
    assert((t0 + seq![','] + t1 + seq![','] + t2 + seq![','] + t3 + seq![','] + t4) + seq![','] + (t5 + seq![','] + t6 + seq![','] + t7 + seq![','] + t8 + seq![','] + t9 + seq![','] + t10 + seq![','] + t11 + seq![','] + t12) =~= rmb_body(d));
}

/// The fields of an written RMB value are its parts, none
/// holding a comma or `*`.
#[verifier::spinoff_prover]
#[verifier::rlimit(100)]
proof fn lemma_rmb_fields(d: RmbData)
    requires
        crate::readback::valid_opt_number(d.cross_track_error),
        crate::readback::valid_opt_name(opt_chars64(d.origin_waypoint_id), 64),
        crate::readback::valid_opt_name(opt_chars64(d.dest_waypoint_id), 64),
        crate::readback::valid_opt_lat_lon(d.dest_position),
        crate::readback::valid_opt_number(d.range_to_dest),
        crate::readback::valid_opt_number(d.bearing_to_dest),
        crate::readback::valid_opt_number(d.closing_velocity),
    ensures
        split_fields(rmb_body(d)) == seq![(if d.status { seq!['A'] } else { seq!['V'] }), crate::readback::mag_text(d.cross_track_error), crate::readback::dir_text(d.cross_track_error, 'R', 'L'), opt_name_chars(opt_chars64(d.origin_waypoint_id)), opt_name_chars(opt_chars64(d.dest_waypoint_id)), crate::position::lat_field(d.dest_position), crate::position::ns_field(d.dest_position), crate::position::lon_field(d.dest_position), crate::position::ew_field(d.dest_position), opt_text(d.range_to_dest), opt_text(d.bearing_to_dest), opt_text(d.closing_velocity), (if d.arrived { seq!['A'] } else { seq!['V'] })],
{
    let t0 = (if d.status { seq!['A'] } else { seq!['V'] });
    let t1 = crate::readback::mag_text(d.cross_track_error);
    let t2 = crate::readback::dir_text(d.cross_track_error, 'R', 'L');
    let t3 = opt_name_chars(opt_chars64(d.origin_waypoint_id));
    let t4 = opt_name_chars(opt_chars64(d.dest_waypoint_id));
    let t5 = crate::position::lat_field(d.dest_position);
    let t6 = crate::position::ns_field(d.dest_position);
    let t7 = crate::position::lon_field(d.dest_position);
    let t8 = crate::position::ew_field(d.dest_position);
    let t9 = opt_text(d.range_to_dest);
    let t10 = opt_text(d.bearing_to_dest);
    let t11 = opt_text(d.closing_velocity);
    let t12 = (if d.arrived { seq!['A'] } else { seq!['V'] });
    crate::readback::lemma_flag_plain(d.status, 'A', 'V');
    crate::readback::lemma_signed_plain(d.cross_track_error, 'R', 'L');
    crate::readback::lemma_opt_name_reads_back(opt_chars64(d.origin_waypoint_id), 64);
    crate::readback::lemma_opt_name_reads_back(opt_chars64(d.dest_waypoint_id), 64);
    crate::readback::lemma_lat_lon_plain(d.dest_position);
    crate::readback::lemma_opt_number_reads_back(d.range_to_dest);
    crate::readback::lemma_opt_number_reads_back(d.bearing_to_dest);
    crate::readback::lemma_opt_number_reads_back(d.closing_velocity);
    crate::readback::lemma_flag_plain(d.arrived, 'A', 'V');
    crate::readback::lemma_split_fields_5(t0, t1, t2, t3, t4);
    crate::readback::lemma_split_fields_8(t5, t6, t7, t8, t9, t10, t11, t12);
    crate::readback::lemma_split_fields_join((t0 + seq![','] + t1 + seq![','] + t2 + seq![','] + t3 + seq![','] + t4), (t5 + seq![','] + t6 + seq![','] + t7 + seq![','] + t8 + seq![','] + t9 + seq![','] + t10 + seq![','] + t11 + seq![','] + t12));
    assert(seq![t0, t1, t2, t3, t4] + seq![t5, t6, t7, t8, t9, t10, t11, t12] =~= seq![t0, t1, t2, t3, t4, t5, t6, t7, t8, t9, t10, t11, t12]);
    lemma_rmb_body_parts(d);
}

/// A written RMB value reads back as itself, when its numbers are decimal
/// literals, its latitude degrees fit two digits and its minutes are not
/// negative and its names are ASCII, not empty and free of commas and `*`.
#[verifier::spinoff_prover]
#[verifier::rlimit(50)]
pub proof fn lemma_rmb_reads_back(d: RmbData)
    requires
        crate::readback::valid_opt_number(d.cross_track_error),
        crate::readback::valid_opt_name(opt_chars64(d.origin_waypoint_id), 64),
        crate::readback::valid_opt_name(opt_chars64(d.dest_waypoint_id), 64),
        crate::readback::valid_opt_lat_lon(d.dest_position),
        crate::readback::valid_opt_number(d.range_to_dest),
        crate::readback::valid_opt_number(d.bearing_to_dest),
        crate::readback::valid_opt_number(d.closing_velocity),
    ensures
        rmb_data_result(rmb_body(d), Ok(d)),
        !rmb_body(d).contains('*'),
        vstd::utf8::is_ascii_chars(rmb_body(d)),
{
    lemma_rmb_fields(d);
    assert(crate::readback::plain_fields(split_fields(rmb_body(d)))) by {
        crate::readback::lemma_flag_plain(d.status, 'A', 'V');
        crate::readback::lemma_signed_plain(d.cross_track_error, 'R', 'L');
        crate::readback::lemma_opt_name_reads_back(opt_chars64(d.origin_waypoint_id), 64);
        crate::readback::lemma_opt_name_reads_back(opt_chars64(d.dest_waypoint_id), 64);
        crate::readback::lemma_lat_lon_plain(d.dest_position);
        crate::readback::lemma_opt_number_reads_back(d.range_to_dest);
        crate::readback::lemma_opt_number_reads_back(d.bearing_to_dest);
        crate::readback::lemma_opt_number_reads_back(d.closing_velocity);
        crate::readback::lemma_flag_plain(d.arrived, 'A', 'V');
    }
    crate::readback::lemma_plain_from_fields(rmb_body(d));
    assert(crate::text::negate_if(opt_float_field(crate::readback::mag_text(d.cross_track_error)).unwrap(), crate::readback::dir_text(d.cross_track_error, 'R', 'L') == seq!['R']) == crate::text::opt_num_view(d.cross_track_error) && opt_float_field(crate::readback::mag_text(d.cross_track_error)) is Some && crate::readback::dir_text(d.cross_track_error, 'R', 'L').len() <= 1 && (d.cross_track_error is None ==> crate::readback::dir_text(d.cross_track_error, 'R', 'L').len() == 0) && (d.cross_track_error matches Some(n) ==> crate::readback::dir_text(d.cross_track_error, 'R', 'L') == seq![if n.negative { 'R' } else { 'L' }])) by {
        crate::readback::lemma_signed_reads_back(d.cross_track_error, 'R', 'L');
    }
    lemma_xte_dir_reads_back(d.cross_track_error);
    assert(seq!['A', 'V'][0] == 'A' && seq!['A', 'V'][1] == 'V');
    crate::readback::lemma_opt_name_reads_back(opt_chars64(d.origin_waypoint_id), 64);
    crate::readback::lemma_opt_name_reads_back(opt_chars64(d.dest_waypoint_id), 64);
    crate::readback::lemma_lat_lon_reads_back(split_fields(rmb_body(d)), 5, d.dest_position);
    crate::readback::lemma_opt_number_reads_back(d.range_to_dest);
    crate::readback::lemma_opt_number_reads_back(d.bearing_to_dest);
    crate::readback::lemma_opt_number_reads_back(d.closing_velocity);
}

/// Reading an RMB sentence gives its letters their NMEA meaning: the status `A` is valid data; a cross-track error with the steering
/// letter `R` reads negated, with `L` as written; an arrival field starting
/// with `A` means arrived.
#[verifier::spinoff_prover]
pub proof fn lemma_rmb_letters_read(data: Seq<char>, d: RmbData)
    requires
        rmb_data_result(data, Ok(d)),
    ensures
        ({
            let f = split_fields(data);
            &&& d.status <==> f[0] == seq!['A']
            &&& d.cross_track_error is None <==> fnum(f[1]) is None
            &&& d.cross_track_error matches Some(n) ==> (fnum(f[1]) matches Some(v) && n.magnitude@ == v.magnitude
                && (n.negative <==> (v.negative != (f[2] == seq!['R']))))
            &&& d.arrived <==> (f[12].len() >= 1 && f[12][0] == 'A')
        }),
{
    let f = split_fields(data);
    crate::text::lemma_letters2('A', 'V', f[0]);
    crate::text::lemma_letters2('L', 'R', f[2]);
    crate::text::lemma_letters2('A', 'V', f[12]);
}

} // verus!
