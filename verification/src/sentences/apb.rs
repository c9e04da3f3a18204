//! APB - Autopilot Sentence "B":
//! `$--APB,A,A,x.x,a,N,A,A,x.x,a,c--c,x.x,a,x.x,a,a*hh`
//! 1. Status, `V` for a loran-C blink or SNR warning, `A` otherwise;
//! 2. Status, `V` for a loran-C cycle lock warning; 3. Cross-track error
//! magnitude; 4. Direction to steer, `L` or `R`; 5. Units, `N`; 6. Arrival
//! circle entered; 7. Perpendicular passed at the waypoint; 8. Bearing
//! origin to destination; 9. `M` magnetic or `T` true; 10. Destination
//! waypoint id; 11. Bearing present position to destination; 12. `M` or `T`;
//! 13. Heading to steer to the destination; 14. `M` or `T`; 15. FAA mode.

use vstd::prelude::*;
use vstd::string::*;
use arrayvec::ArrayString;

use crate::error::Error;
use crate::generate::GenerateNmeaBody;
use crate::names::{ftext, opt_chars64, opt_name_chars, opt_text_field, read_text64};
use crate::parse::NmeaSentence;
use crate::sentence_type::SentenceType;
use crate::sentences::rmb::{lemma_xte_chars_parts, lemma_xte_dir_reads_back, write_waypoint, write_xte, xte_chars};
use crate::strings::{opt_text, push_char, write_opt};
use crate::text::{
    Number, chars_of, exec_one_of_field, exec_opt_char_field, exec_opt_one_of_field,
    exec_opt_one_of_prefix, field_spans, fnum, negate_if, negate_opt, one_of_field, opt_char_field,
    opt_float_field, opt_num_is, opt_num_view, opt_one_of_field, opt_one_of_prefix,
    read_opt_float_field, split_fields,
};

verus! {

/// The data of an APB sentence.
#[derive(Debug, Clone, PartialEq)]
pub struct ApbData {
    pub status_warning: bool,
    pub status_cycle_lock: bool,
    /// Cross-track error; negative when the direction to steer is right.
    pub cross_track_error: Option<Number>,
    pub arrival_circle_entered: bool,
    pub perpendicular_passed: bool,
    pub bearing_orig_to_dest: Option<Number>,
    pub bearing_orig_to_dest_magnetic: bool,
    pub waypoint_id: Option<ArrayString<64>>,
    pub bearing_pos_to_dest: Option<Number>,
    pub bearing_pos_to_dest_magnetic: bool,
    pub heading_to_dest: Option<Number>,
    pub heading_to_dest_magnetic: bool,
}

/// The APB grammar over the comma-separated fields. The waypoint id takes
/// at most 64 bytes; the last reference is read at the start of the
/// fourteenth field and what follows it is ignored.
pub open spec fn apb_accepts(f: Seq<Seq<char>>) -> bool {
    &&& f.len() >= 14
    &&& one_of_field(f[0], seq!['A', 'V']) is Some
    &&& one_of_field(f[1], seq!['A', 'V']) is Some
    &&& opt_float_field(f[2]) is Some
    &&& opt_one_of_field(f[3], seq!['L', 'R']) is Some
    &&& opt_char_field(f[4], 'N')
    &&& one_of_field(f[5], seq!['A', 'V']) is Some
    &&& one_of_field(f[6], seq!['A', 'V']) is Some
    &&& opt_float_field(f[7]) is Some
    &&& opt_one_of_field(f[8], seq!['M', 'T']) is Some
    &&& opt_text_field(f[9], 64) is Some
    &&& opt_float_field(f[10]) is Some
    &&& opt_one_of_field(f[11], seq!['M', 'T']) is Some
    &&& opt_float_field(f[12]) is Some
}

/// What reading the data `data` of an APB sentence gives.
pub open spec fn apb_data_result(data: Seq<char>, r: Result<ApbData, Error>) -> bool {
    let f = split_fields(data);
    if apb_accepts(f) {
        r matches Ok(d) && {
            &&& d.status_warning == (f[0][0] == 'A')
            &&& d.status_cycle_lock == (f[1][0] == 'A')
            &&& opt_num_view(d.cross_track_error) == negate_if(
                fnum(f[2]),
                opt_one_of_field(f[3], seq!['L', 'R']) == Some(Some('R')),
            )
            &&& d.arrival_circle_entered == (f[5][0] == 'A')
            &&& d.perpendicular_passed == (f[6][0] == 'A')
            &&& opt_num_is(d.bearing_orig_to_dest, fnum(f[7]))
            &&& d.bearing_orig_to_dest_magnetic == (opt_one_of_field(f[8], seq!['M', 'T']) == Some(
                Some('M'),
            ))
            &&& opt_chars64(d.waypoint_id) == ftext(f[9], 64)
            &&& opt_num_is(d.bearing_pos_to_dest, fnum(f[10]))
            &&& d.bearing_pos_to_dest_magnetic == (opt_one_of_field(f[11], seq!['M', 'T']) == Some(
                Some('M'),
            ))
            &&& opt_num_is(d.heading_to_dest, fnum(f[12]))
            &&& d.heading_to_dest_magnetic == (opt_one_of_prefix(f[13], seq!['M', 'T']) == Some('M'))
        }
    } else {
        r == Err::<ApbData, Error>(Error::ParsingError)
    }
}

/// What [`parse_apb`] gives for a sentence.
pub open spec fn apb_result(s: NmeaSentence, r: Result<ApbData, Error>) -> bool {
    if s.message_id != SentenceType::APB {
        r == Err::<ApbData, Error>(
            Error::WrongSentenceHeader { expected: SentenceType::APB, found: s.message_id },
        )
    } else {
        apb_data_result(s.data@, r)
    }
}

/// Reads the data of an APB sentence.
pub fn parse_apb(sentence: NmeaSentence<'_>) -> (r: Result<ApbData, Error>)
    ensures
        apb_result(sentence, r),
{
    if sentence.message_id != SentenceType::APB {
        return Err(Error::WrongSentenceHeader { expected: SentenceType::APB, found: sentence.message_id });
    }
    let d = sentence.data;
    let s = chars_of(d);
    let sp = field_spans(&s);
    if sp.len() < 14 {
        return Err(Error::ParsingError);
    }
    let av = ['A', 'V'];
    let lr = ['L', 'R'];
    let mt = ['M', 'T'];
    assert(av@ =~= seq!['A', 'V']);
    assert(lr@ =~= seq!['L', 'R']);
    assert(mt@ =~= seq!['M', 'T']);
    let s0 = exec_one_of_field(&s, sp[0].0, sp[0].1, av.as_slice());
    let s1 = exec_one_of_field(&s, sp[1].0, sp[1].1, av.as_slice());
    let xte = read_opt_float_field(d, &s, sp[2].0, sp[2].1);
    let steer = exec_opt_one_of_field(&s, sp[3].0, sp[3].1, lr.as_slice());
    let units = exec_opt_char_field(&s, sp[4].0, sp[4].1, 'N');
    let s5 = exec_one_of_field(&s, sp[5].0, sp[5].1, av.as_slice());
    let s6 = exec_one_of_field(&s, sp[6].0, sp[6].1, av.as_slice());
    let b7 = read_opt_float_field(d, &s, sp[7].0, sp[7].1);
    let r8 = exec_opt_one_of_field(&s, sp[8].0, sp[8].1, mt.as_slice());
    let wp = read_text64(d, &s, sp[9].0, sp[9].1);
    let b10 = read_opt_float_field(d, &s, sp[10].0, sp[10].1);
    let r11 = exec_opt_one_of_field(&s, sp[11].0, sp[11].1, mt.as_slice());
    let h12 = read_opt_float_field(d, &s, sp[12].0, sp[12].1);
    let r13 = exec_opt_one_of_prefix(&s, sp[13].0, sp[13].1, mt.as_slice());
    match (s0, s1, xte, steer, s5, s6, b7, r8, wp, b10, r11, h12) {
        (
            Some(s0),
            Some(s1),
            Some(xte),
            Some(steer),
            Some(s5),
            Some(s6),
            Some(b7),
            Some(r8),
            Some(wp),
            Some(b10),
            Some(r11),
            Some(h12),
        ) => {
            if !units {
                return Err(Error::ParsingError);
            }
            Ok(
                ApbData {
                    status_warning: s0 == 'A',
                    status_cycle_lock: s1 == 'A',
                    cross_track_error: negate_opt(xte, steer == Some('R')),
                    arrival_circle_entered: s5 == 'A',
                    perpendicular_passed: s6 == 'A',
                    bearing_orig_to_dest: b7,
                    bearing_orig_to_dest_magnetic: r8 == Some('M'),
                    waypoint_id: wp,
                    bearing_pos_to_dest: b10,
                    bearing_pos_to_dest_magnetic: r11 == Some('M'),
                    heading_to_dest: h12,
                    heading_to_dest_magnetic: r13 == Some('M'),
                },
            )
        },
        _ => Err(Error::ParsingError),
    }
}

/// The fields of an APB value up to the first bearing's reference.
pub open spec fn apb_head(d: ApbData) -> Seq<char> {
    seq![
        if d.status_warning { 'A' } else { 'V' },
        ',',
        if d.status_cycle_lock { 'A' } else { 'V' },
        ',',
    ] + xte_chars(d.cross_track_error) + seq![
        ',',
        'N',
        ',',
        if d.arrival_circle_entered { 'A' } else { 'V' },
        ',',
        if d.perpendicular_passed { 'A' } else { 'V' },
        ',',
    ] + opt_text(d.bearing_orig_to_dest) + seq![
        ',',
        if d.bearing_orig_to_dest_magnetic { 'M' } else { 'T' },
        ',',
    ]
}

/// The body an APB value is written as.
pub open spec fn apb_body(d: ApbData) -> Seq<char> {
    apb_head(d) + opt_name_chars(opt_chars64(d.waypoint_id)) + seq![','] + opt_text(
        d.bearing_pos_to_dest,
    ) + seq![',', if d.bearing_pos_to_dest_magnetic { 'M' } else { 'T' }, ','] + opt_text(
        d.heading_to_dest,
    ) + seq![',', if d.heading_to_dest_magnetic { 'M' } else { 'T' }]
}

fn write_apb_status(f: &mut String, d: &ApbData)
    ensures
        final(f)@ == old(f)@ + seq![
            if d.status_warning { 'A' } else { 'V' },
            ',',
            if d.status_cycle_lock { 'A' } else { 'V' },
            ',',
        ] + xte_chars(d.cross_track_error),
{
    push_char(f, if d.status_warning { 'A' } else { 'V' });
    push_char(f, ',');
    push_char(f, if d.status_cycle_lock { 'A' } else { 'V' });
    push_char(f, ',');
    write_xte(f, &d.cross_track_error);
    assert(f@ =~= old(f)@ + seq![
        if d.status_warning { 'A' } else { 'V' },
        ',',
        if d.status_cycle_lock { 'A' } else { 'V' },
        ',',
    ] + xte_chars(d.cross_track_error));
}

fn write_apb_origin(f: &mut String, d: &ApbData)
    ensures
        final(f)@ == old(f)@ + seq![
            ',',
            'N',
            ',',
            if d.arrival_circle_entered { 'A' } else { 'V' },
            ',',
            if d.perpendicular_passed { 'A' } else { 'V' },
            ',',
        ] + opt_text(d.bearing_orig_to_dest) + seq![
            ',',
            if d.bearing_orig_to_dest_magnetic { 'M' } else { 'T' },
            ',',
        ],
{
    push_char(f, ',');
    push_char(f, 'N');
    push_char(f, ',');
    push_char(f, if d.arrival_circle_entered { 'A' } else { 'V' });
    push_char(f, ',');
    push_char(f, if d.perpendicular_passed { 'A' } else { 'V' });
    push_char(f, ',');
    write_opt(f, &d.bearing_orig_to_dest);
    push_char(f, ',');
    push_char(f, if d.bearing_orig_to_dest_magnetic { 'M' } else { 'T' });
    push_char(f, ',');
    assert(f@ =~= old(f)@ + seq![
        ',',
        'N',
        ',',
        if d.arrival_circle_entered { 'A' } else { 'V' },
        ',',
        if d.perpendicular_passed { 'A' } else { 'V' },
        ',',
    ] + opt_text(d.bearing_orig_to_dest) + seq![
        ',',
        if d.bearing_orig_to_dest_magnetic { 'M' } else { 'T' },
        ',',
    ]);
}

fn write_apb_dest(f: &mut String, d: &ApbData)
    ensures
        final(f)@ == old(f)@ + opt_name_chars(opt_chars64(d.waypoint_id)) + seq![','] + opt_text(
            d.bearing_pos_to_dest,
        ) + seq![',', if d.bearing_pos_to_dest_magnetic { 'M' } else { 'T' }, ','] + opt_text(
            d.heading_to_dest,
        ) + seq![',', if d.heading_to_dest_magnetic { 'M' } else { 'T' }],
{
    write_waypoint(f, &d.waypoint_id);
    push_char(f, ',');
    write_opt(f, &d.bearing_pos_to_dest);
    push_char(f, ',');
    push_char(f, if d.bearing_pos_to_dest_magnetic { 'M' } else { 'T' });
    push_char(f, ',');
    write_opt(f, &d.heading_to_dest);
    push_char(f, ',');
    push_char(f, if d.heading_to_dest_magnetic { 'M' } else { 'T' });
    assert(f@ =~= old(f)@ + opt_name_chars(opt_chars64(d.waypoint_id)) + seq![','] + opt_text(
        d.bearing_pos_to_dest,
    ) + seq![',', if d.bearing_pos_to_dest_magnetic { 'M' } else { 'T' }, ','] + opt_text(
        d.heading_to_dest,
    ) + seq![',', if d.heading_to_dest_magnetic { 'M' } else { 'T' }]);
}

impl GenerateNmeaBody for ApbData {
    open spec fn spec_sentence_type(&self) -> SentenceType {
        SentenceType::APB
    }

    open spec fn spec_body(&self) -> Seq<char> {
        apb_body(*self)
    }

    fn sentence_type(&self) -> (t: SentenceType) {
        SentenceType::APB
    }

    fn write_body(&self, f: &mut String) {
        write_apb_status(f, self);
        write_apb_origin(f, self);
        assert(f@ =~= old(f)@ + apb_head(*self));
        write_apb_dest(f, self);
        assert(f@ =~= old(f)@ + apb_body(*self));
    }
}

/// The head of a written APB value is its first nine fields, each
/// followed by a comma.
#[verifier::spinoff_prover]
#[verifier::rlimit(50)]
proof fn lemma_apb_head_parts(d: ApbData)
    ensures
        apb_head(d) == (if d.status_warning { seq!['A'] } else { seq!['V'] }) + seq![','] + (if d.status_cycle_lock { seq!['A'] } else { seq!['V'] }) + seq![','] + crate::readback::mag_text(d.cross_track_error) + seq![','] + crate::readback::dir_text(d.cross_track_error, 'R', 'L') + seq![','] + seq!['N'] + seq![','] + (if d.arrival_circle_entered { seq!['A'] } else { seq!['V'] }) + seq![','] + (if d.perpendicular_passed { seq!['A'] } else { seq!['V'] }) + seq![','] + opt_text(d.bearing_orig_to_dest) + seq![','] + (if d.bearing_orig_to_dest_magnetic { seq!['M'] } else { seq!['T'] }) + seq![','],
{
    lemma_xte_chars_parts(d.cross_track_error);
    assert(apb_head(d) =~= (if d.status_warning { seq!['A'] } else { seq!['V'] }) + seq![','] + (if d.status_cycle_lock { seq!['A'] } else { seq!['V'] }) + seq![','] + crate::readback::mag_text(d.cross_track_error) + seq![','] + crate::readback::dir_text(d.cross_track_error, 'R', 'L') + seq![','] + seq!['N'] + seq![','] + (if d.arrival_circle_entered { seq!['A'] } else { seq!['V'] }) + seq![','] + (if d.perpendicular_passed { seq!['A'] } else { seq!['V'] }) + seq![','] + opt_text(d.bearing_orig_to_dest) + seq![','] + (if d.bearing_orig_to_dest_magnetic { seq!['M'] } else { seq!['T'] }) + seq![',']);
}

/// The body of an APB value is its parts joined with commas.
#[verifier::spinoff_prover]
#[verifier::rlimit(100)]
proof fn lemma_apb_body_parts(d: ApbData)
    ensures
        apb_body(d) == ((if d.status_warning { seq!['A'] } else { seq!['V'] }) + seq![','] + (if d.status_cycle_lock { seq!['A'] } else { seq!['V'] }) + seq![','] + crate::readback::mag_text(d.cross_track_error) + seq![','] + crate::readback::dir_text(d.cross_track_error, 'R', 'L') + seq![','] + seq!['N'] + seq![','] + (if d.arrival_circle_entered { seq!['A'] } else { seq!['V'] }) + seq![','] + (if d.perpendicular_passed { seq!['A'] } else { seq!['V'] }) + seq![','] + opt_text(d.bearing_orig_to_dest) + seq![','] + (if d.bearing_orig_to_dest_magnetic { seq!['M'] } else { seq!['T'] })) + seq![','] + (opt_name_chars(opt_chars64(d.waypoint_id)) + seq![','] + opt_text(d.bearing_pos_to_dest) + seq![','] + (if d.bearing_pos_to_dest_magnetic { seq!['M'] } else { seq!['T'] }) + seq![','] + opt_text(d.heading_to_dest) + seq![','] + (if d.heading_to_dest_magnetic { seq!['M'] } else { seq!['T'] })),
{
    let t0 = (if d.status_warning { seq!['A'] } else { seq!['V'] });
    let t1 = (if d.status_cycle_lock { seq!['A'] } else { seq!['V'] });
    let t2 = crate::readback::mag_text(d.cross_track_error);
    let t3 = crate::readback::dir_text(d.cross_track_error, 'R', 'L');
    let t4 = seq!['N'];
    let t5 = (if d.arrival_circle_entered { seq!['A'] } else { seq!['V'] });
    let t6 = (if d.perpendicular_passed { seq!['A'] } else { seq!['V'] });
    let t7 = opt_text(d.bearing_orig_to_dest);
    let t8 = (if d.bearing_orig_to_dest_magnetic { seq!['M'] } else { seq!['T'] });
    let t9 = opt_name_chars(opt_chars64(d.waypoint_id));
    let t10 = opt_text(d.bearing_pos_to_dest);
    let t11 = (if d.bearing_pos_to_dest_magnetic { seq!['M'] } else { seq!['T'] });
    let t12 = opt_text(d.heading_to_dest);
    let t13 = (if d.heading_to_dest_magnetic { seq!['M'] } else { seq!['T'] });
    lemma_apb_head_parts(d);
    assert((t0 + seq![','] + t1 + seq![','] + t2 + seq![','] + t3 + seq![','] + t4 + seq![','] + t5 + seq![','] + t6 + seq![','] + t7 + seq![','] + t8) + seq![','] + (t9 + seq![','] + t10 + seq![','] + t11 + seq![','] + t12 + seq![','] + t13) =~= apb_body(d));
}

/// The fields of an written APB value are its parts, none
/// holding a comma or `*`.
#[verifier::spinoff_prover]
#[verifier::rlimit(100)]
proof fn lemma_apb_fields(d: ApbData)
    requires
        crate::readback::valid_opt_number(d.cross_track_error),
        crate::readback::valid_opt_number(d.bearing_orig_to_dest),
        crate::readback::valid_opt_name(opt_chars64(d.waypoint_id), 64),
        crate::readback::valid_opt_number(d.bearing_pos_to_dest),
        crate::readback::valid_opt_number(d.heading_to_dest),
    ensures
        split_fields(apb_body(d)) == seq![(if d.status_warning { seq!['A'] } else { seq!['V'] }), (if d.status_cycle_lock { seq!['A'] } else { seq!['V'] }), crate::readback::mag_text(d.cross_track_error), crate::readback::dir_text(d.cross_track_error, 'R', 'L'), seq!['N'], (if d.arrival_circle_entered { seq!['A'] } else { seq!['V'] }), (if d.perpendicular_passed { seq!['A'] } else { seq!['V'] }), opt_text(d.bearing_orig_to_dest), (if d.bearing_orig_to_dest_magnetic { seq!['M'] } else { seq!['T'] }), opt_name_chars(opt_chars64(d.waypoint_id)), opt_text(d.bearing_pos_to_dest), (if d.bearing_pos_to_dest_magnetic { seq!['M'] } else { seq!['T'] }), opt_text(d.heading_to_dest), (if d.heading_to_dest_magnetic { seq!['M'] } else { seq!['T'] })],
{
    let t0 = (if d.status_warning { seq!['A'] } else { seq!['V'] });
    let t1 = (if d.status_cycle_lock { seq!['A'] } else { seq!['V'] });
    let t2 = crate::readback::mag_text(d.cross_track_error);
    let t3 = crate::readback::dir_text(d.cross_track_error, 'R', 'L');
    let t4 = seq!['N'];
    let t5 = (if d.arrival_circle_entered { seq!['A'] } else { seq!['V'] });
    let t6 = (if d.perpendicular_passed { seq!['A'] } else { seq!['V'] });
    let t7 = opt_text(d.bearing_orig_to_dest);
    let t8 = (if d.bearing_orig_to_dest_magnetic { seq!['M'] } else { seq!['T'] });
    let t9 = opt_name_chars(opt_chars64(d.waypoint_id));
    let t10 = opt_text(d.bearing_pos_to_dest);
    let t11 = (if d.bearing_pos_to_dest_magnetic { seq!['M'] } else { seq!['T'] });
    let t12 = opt_text(d.heading_to_dest);
    let t13 = (if d.heading_to_dest_magnetic { seq!['M'] } else { seq!['T'] });
    crate::readback::lemma_flag_plain(d.status_warning, 'A', 'V');
    crate::readback::lemma_flag_plain(d.status_cycle_lock, 'A', 'V');
    crate::readback::lemma_signed_plain(d.cross_track_error, 'R', 'L');
    crate::readback::lemma_char_plain('N');
    crate::readback::lemma_flag_plain(d.arrival_circle_entered, 'A', 'V');
    crate::readback::lemma_flag_plain(d.perpendicular_passed, 'A', 'V');
    crate::readback::lemma_opt_number_reads_back(d.bearing_orig_to_dest);
    crate::readback::lemma_flag_plain(d.bearing_orig_to_dest_magnetic, 'M', 'T');
    crate::readback::lemma_opt_name_reads_back(opt_chars64(d.waypoint_id), 64);
    crate::readback::lemma_opt_number_reads_back(d.bearing_pos_to_dest);
    crate::readback::lemma_flag_plain(d.bearing_pos_to_dest_magnetic, 'M', 'T');
    crate::readback::lemma_opt_number_reads_back(d.heading_to_dest);
    crate::readback::lemma_flag_plain(d.heading_to_dest_magnetic, 'M', 'T');
    crate::readback::lemma_split_fields_9(t0, t1, t2, t3, t4, t5, t6, t7, t8);
    crate::readback::lemma_split_fields_5(t9, t10, t11, t12, t13);
    crate::readback::lemma_split_fields_join((t0 + seq![','] + t1 + seq![','] + t2 + seq![','] + t3 + seq![','] + t4 + seq![','] + t5 + seq![','] + t6 + seq![','] + t7 + seq![','] + t8), (t9 + seq![','] + t10 + seq![','] + t11 + seq![','] + t12 + seq![','] + t13));
    assert(seq![t0, t1, t2, t3, t4, t5, t6, t7, t8] + seq![t9, t10, t11, t12, t13] =~= seq![t0, t1, t2, t3, t4, t5, t6, t7, t8, t9, t10, t11, t12, t13]);
    lemma_apb_body_parts(d);
}

/// A written APB value reads back as itself, when its numbers are decimal
/// literals and its names are ASCII, not empty and free of commas and `*`.
#[verifier::spinoff_prover]
#[verifier::rlimit(50)]
pub proof fn lemma_apb_reads_back(d: ApbData)
    requires
        crate::readback::valid_opt_number(d.cross_track_error),
        crate::readback::valid_opt_number(d.bearing_orig_to_dest),
        crate::readback::valid_opt_name(opt_chars64(d.waypoint_id), 64),
        crate::readback::valid_opt_number(d.bearing_pos_to_dest),
        crate::readback::valid_opt_number(d.heading_to_dest),
    ensures
        apb_data_result(apb_body(d), Ok(d)),
        !apb_body(d).contains('*'),
        vstd::utf8::is_ascii_chars(apb_body(d)),
{
    lemma_apb_fields(d);
    assert(crate::readback::plain_fields(split_fields(apb_body(d)))) by {
        crate::readback::lemma_flag_plain(d.status_warning, 'A', 'V');
        crate::readback::lemma_flag_plain(d.status_cycle_lock, 'A', 'V');
        crate::readback::lemma_signed_plain(d.cross_track_error, 'R', 'L');
        crate::readback::lemma_char_plain('N');
        crate::readback::lemma_flag_plain(d.arrival_circle_entered, 'A', 'V');
        crate::readback::lemma_flag_plain(d.perpendicular_passed, 'A', 'V');
        crate::readback::lemma_opt_number_reads_back(d.bearing_orig_to_dest);
        crate::readback::lemma_flag_plain(d.bearing_orig_to_dest_magnetic, 'M', 'T');
        crate::readback::lemma_opt_name_reads_back(opt_chars64(d.waypoint_id), 64);
        crate::readback::lemma_opt_number_reads_back(d.bearing_pos_to_dest);
        crate::readback::lemma_flag_plain(d.bearing_pos_to_dest_magnetic, 'M', 'T');
        crate::readback::lemma_opt_number_reads_back(d.heading_to_dest);
        crate::readback::lemma_flag_plain(d.heading_to_dest_magnetic, 'M', 'T');
    }
    crate::readback::lemma_plain_from_fields(apb_body(d));
    assert(crate::text::negate_if(opt_float_field(crate::readback::mag_text(d.cross_track_error)).unwrap(), crate::readback::dir_text(d.cross_track_error, 'R', 'L') == seq!['R']) == crate::text::opt_num_view(d.cross_track_error) && opt_float_field(crate::readback::mag_text(d.cross_track_error)) is Some && crate::readback::dir_text(d.cross_track_error, 'R', 'L').len() <= 1 && (d.cross_track_error is None ==> crate::readback::dir_text(d.cross_track_error, 'R', 'L').len() == 0) && (d.cross_track_error matches Some(n) ==> crate::readback::dir_text(d.cross_track_error, 'R', 'L') == seq![if n.negative { 'R' } else { 'L' }])) by {
        crate::readback::lemma_signed_reads_back(d.cross_track_error, 'R', 'L');
    }
    crate::readback::lemma_opt_number_reads_back(d.bearing_orig_to_dest);
    crate::readback::lemma_opt_name_reads_back(opt_chars64(d.waypoint_id), 64);
    crate::readback::lemma_opt_number_reads_back(d.bearing_pos_to_dest);
    crate::readback::lemma_opt_number_reads_back(d.heading_to_dest);
    lemma_xte_dir_reads_back(d.cross_track_error);
    assert(seq!['A', 'V'][0] == 'A' && seq!['A', 'V'][1] == 'V');
    assert(seq!['M', 'T'][0] == 'M' && seq!['M', 'T'][1] == 'T');
    assert(seq!['M'] != seq!['T']) by { assert(seq!['M'][0] != seq!['T'][0]); }
}

/// Reading an APB sentence gives its letters their NMEA meaning: the statuses `A` are true and `V` false; a cross-track error with the
/// steering letter `R` reads negated, with `L` as written; the bearing
/// references `M` are magnetic and `T` true.
#[verifier::spinoff_prover]
pub proof fn lemma_apb_letters_read(data: Seq<char>, d: ApbData)
    requires
        apb_data_result(data, Ok(d)),
    ensures
        ({
            let f = split_fields(data);
            &&& d.status_warning <==> f[0] == seq!['A']
            &&& d.status_cycle_lock <==> f[1] == seq!['A']
            &&& d.cross_track_error is None <==> fnum(f[2]) is None
            &&& d.cross_track_error matches Some(n) ==> (fnum(f[2]) matches Some(v) && n.magnitude@ == v.magnitude
                && (n.negative <==> (v.negative != (f[3] == seq!['R']))))
            &&& d.arrival_circle_entered <==> f[5] == seq!['A']
            &&& d.perpendicular_passed <==> f[6] == seq!['A']
            &&& d.bearing_orig_to_dest_magnetic <==> f[8] == seq!['M']
            &&& d.bearing_pos_to_dest_magnetic <==> f[11] == seq!['M']
            &&& d.heading_to_dest_magnetic <==> (f[13].len() >= 1 && f[13][0] == 'M')
        }),
{
    let f = split_fields(data);
    crate::text::lemma_letters2('L', 'R', f[3]);
    crate::text::lemma_letters2('A', 'V', f[0]);
    crate::text::lemma_letters2('A', 'V', f[1]);
    crate::text::lemma_letters2('A', 'V', f[5]);
    crate::text::lemma_letters2('A', 'V', f[6]);
    crate::text::lemma_letters2('M', 'T', f[8]);
    crate::text::lemma_letters2('M', 'T', f[11]);
    crate::text::lemma_letters2('M', 'T', f[13]);
}

} // verus!
