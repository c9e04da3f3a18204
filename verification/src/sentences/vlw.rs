//! VLW - Distance Traveled through Water:
//! `$--VLW,x.x,N,x.x,N,x.x,N,x.x,N*hh`
//! 1. Total cumulative water distance; 2. `N`; 3. Water distance since
//! reset; 4. `N`; 5. Total cumulative ground distance; 6. `N`; 7. Ground
//! distance since reset; 8. `N` (fields 5-8 since NMEA 3.0). Nautical miles.

use vstd::prelude::*;
use vstd::string::*;

use crate::error::Error;
use crate::generate::GenerateNmeaBody;
use crate::parse::NmeaSentence;
use crate::sentence_type::SentenceType;
use crate::strings::{opt_text, push_char, write_opt};
use crate::text::{
    Number, Scan, chars_of, exec_float_scan, field_spans, fnum, opt_float_field, opt_num_is,
    float_scan, read_opt_float_field, split_fields, win,
};

verus! {

/// The data of a VLW sentence.
#[derive(Debug, Clone, PartialEq)]
pub struct VlwData {
    pub total_water_distance: Option<Number>,
    pub trip_water_distance: Option<Number>,
    pub total_ground_distance: Option<Number>,
    pub trip_ground_distance: Option<Number>,
}

/// The unit field `j` is read whole: it is empty or `N`.
pub open spec fn unit_done(f: Seq<Seq<char>>, j: int) -> bool {
    f[j].len() == 0 || f[j] == seq!['N']
}

/// The optional group whose distance is field `j` follows: the unit field
/// before it was read whole, and the distance field is empty or a number
/// followed by a comma.
pub open spec fn group_ok(f: Seq<Seq<char>>, j: int) -> bool {
    &&& unit_done(f, j - 1)
    &&& f.len() > j + 1
    &&& opt_float_field(f[j]) is Some
}

/// The distance field of a group is reached and starts with an exponent
/// marker that no digits follow: the sentence is rejected outright.
pub open spec fn group_broken(f: Seq<Seq<char>>, j: int) -> bool {
    &&& unit_done(f, j - 1)
    &&& f.len() > j
    &&& float_scan(f[j]) == Scan::Cut
}

/// The VLW grammar over the comma-separated fields. The two water distances
/// are required; a ground group that does not follow the grammar is left
/// out, and what follows it ignored.
pub open spec fn vlw_accepts(f: Seq<Seq<char>>) -> bool {
    &&& f.len() >= 4
    &&& opt_float_field(f[0]) is Some
    &&& unit_done(f, 1)
    &&& opt_float_field(f[2]) is Some
    &&& !group_broken(f, 4)
    &&& (group_ok(f, 4) ==> !group_broken(f, 6))
}

/// What reading the data `data` of a VLW sentence gives.
pub open spec fn vlw_data_result(data: Seq<char>, r: Result<VlwData, Error>) -> bool {
    let f = split_fields(data);
    if vlw_accepts(f) {
        r matches Ok(d) && {
            &&& opt_num_is(d.total_water_distance, fnum(f[0]))
            &&& opt_num_is(d.trip_water_distance, fnum(f[2]))
            &&& opt_num_is(d.total_ground_distance, if group_ok(f, 4) { fnum(f[4]) } else { None })
            &&& opt_num_is(
                d.trip_ground_distance,
                if group_ok(f, 4) && group_ok(f, 6) { fnum(f[6]) } else { None },
            )
        }
    } else {
        r == Err::<VlwData, Error>(Error::ParsingError)
    }
}

/// What [`parse_vlw`] gives for a sentence.
pub open spec fn vlw_result(s: NmeaSentence, r: Result<VlwData, Error>) -> bool {
    if s.message_id != SentenceType::VLW {
        r == Err::<VlwData, Error>(
            Error::WrongSentenceHeader { expected: SentenceType::VLW, found: s.message_id },
        )
    } else {
        vlw_data_result(s.data@, r)
    }
}

fn exec_unit_done(s: &Vec<char>, a: usize, b: usize) -> (r: bool)
    requires
        a <= b <= s.len(),
    ensures
        r == (win(s@, a as int, b as int).len() == 0 || win(s@, a as int, b as int) == seq!['N']),
{
    let ghost w = win(s@, a as int, b as int);
    if a == b {
        true
    } else if b - a == 1 && s[a] == 'N' {
        assert(w =~= seq!['N']);
        true
    } else {
        assert(w.len() != 1 || w[0] != 'N');
        false
    }
}

/// Reads the optional group whose distance is field `j`: `None` when the
/// sentence is rejected, `Some(None)` when the group is left out.
fn read_group(d: &str, s: &Vec<char>, sp: &Vec<(usize, usize)>, j: usize) -> (r: Option<Option<Option<Number>>>)
    requires
        s@ == d@,
        crate::text::spans_match(s@, sp@),
        2 <= j,
        j - 1 < sp.len(),
    ensures
        ({
            let f = split_fields(s@);
            match r {
                None => group_broken(f, j as int),
                Some(None) => !group_broken(f, j as int) && !group_ok(f, j as int),
                Some(Some(v)) => group_ok(f, j as int) && opt_num_is(v, fnum(f[j as int])),
            }
        }),
{
    if !exec_unit_done(s, sp[j - 1].0, sp[j - 1].1) || j >= sp.len() {
        return Some(None);
    }
    match exec_float_scan(s, sp[j].0, sp[j].1) {
        Scan::Cut => {
            return None;
        },
        _ => {},
    }
    if j + 1 >= sp.len() {
        return Some(None);
    }
    match read_opt_float_field(d, s, sp[j].0, sp[j].1) {
        Some(v) => Some(Some(v)),
        None => Some(None),
    }
}

/// Reads the data of a VLW sentence.
pub fn parse_vlw(sentence: NmeaSentence<'_>) -> (r: Result<VlwData, Error>)
    ensures
        vlw_result(sentence, r),
{
    if sentence.message_id != SentenceType::VLW {
        return Err(Error::WrongSentenceHeader { expected: SentenceType::VLW, found: sentence.message_id });
    }
    let d = sentence.data;
    let s = chars_of(d);
    let sp = field_spans(&s);
    if sp.len() < 4 {
        return Err(Error::ParsingError);
    }
    let total_water_distance = match read_opt_float_field(d, &s, sp[0].0, sp[0].1) {
        Some(o) => o,
        None => return Err(Error::ParsingError),
    };
    if !exec_unit_done(&s, sp[1].0, sp[1].1) {
        return Err(Error::ParsingError);
    }
    let trip_water_distance = match read_opt_float_field(d, &s, sp[2].0, sp[2].1) {
        Some(o) => o,
        None => return Err(Error::ParsingError),
    };
    let (total_ground_distance, trip_ground_distance) = match read_group(d, &s, &sp, 4) {
        None => return Err(Error::ParsingError),
        Some(None) => (None, None),
        Some(Some(total)) => match read_group(d, &s, &sp, 6) {
            None => return Err(Error::ParsingError),
            Some(None) => (total, None),
            Some(Some(trip)) => (total, trip),
        },
    };
    Ok(VlwData { total_water_distance, trip_water_distance, total_ground_distance, trip_ground_distance })
}

/// The body a VLW value is written as: the ground group only when one of
/// its distances is present.
pub open spec fn vlw_body(d: VlwData) -> Seq<char> {
    opt_text(d.total_water_distance) + seq![',', 'N', ','] + opt_text(d.trip_water_distance) + seq![
        ',',
        'N',
    ] + if d.total_ground_distance is Some || d.trip_ground_distance is Some {
        seq![','] + opt_text(d.total_ground_distance) + seq![',', 'N', ','] + opt_text(
            d.trip_ground_distance,
        ) + seq![',', 'N']
    } else {
        Seq::empty()
    }
}

impl GenerateNmeaBody for VlwData {
    open spec fn spec_sentence_type(&self) -> SentenceType {
        SentenceType::VLW
    }

    open spec fn spec_body(&self) -> Seq<char> {
        vlw_body(*self)
    }

    fn sentence_type(&self) -> (t: SentenceType) {
        SentenceType::VLW
    }

    fn write_body(&self, f: &mut String) {
        write_opt(f, &self.total_water_distance);
        push_char(f, ',');
        push_char(f, 'N');
        push_char(f, ',');
        write_opt(f, &self.trip_water_distance);
        push_char(f, ',');
        push_char(f, 'N');
        if self.total_ground_distance.is_some() || self.trip_ground_distance.is_some() {
            push_char(f, ',');
            write_opt(f, &self.total_ground_distance);
            push_char(f, ',');
            push_char(f, 'N');
            push_char(f, ',');
            write_opt(f, &self.trip_ground_distance);
            push_char(f, ',');
            push_char(f, 'N');
        }
        assert(f@ =~= old(f)@ + vlw_body(*self));
    }
}

/// An empty field is no broken group: no literal starts there.
proof fn lemma_empty_not_cut()
    ensures
        float_scan(Seq::<char>::empty()) != Scan::Cut,
{
    let e = Seq::<char>::empty();
    crate::text::lemma_digit_run_bounds(e, 0);
    assert(!crate::text::word_at(e, 0, crate::text::word_nan()));
    assert(!crate::text::word_at(e, 0, crate::text::word_infinity()));
    assert(!crate::text::word_at(e, 0, crate::text::word_inf()));
}

/// The fields of a written VLW value.
pub open spec fn vlw_fields(d: VlwData) -> Seq<Seq<char>> {
    if d.total_ground_distance is Some || d.trip_ground_distance is Some {
        seq![
            opt_text(d.total_water_distance), seq!['N'], opt_text(d.trip_water_distance), seq!['N'],
            opt_text(d.total_ground_distance), seq!['N'], opt_text(d.trip_ground_distance), seq!['N'],
        ]
    } else {
        seq![opt_text(d.total_water_distance), seq!['N'], opt_text(d.trip_water_distance), seq!['N']]
    }
}

/// The body of a VLW value with a ground group is its eight parts joined
/// with commas.
#[verifier::spinoff_prover]
#[verifier::rlimit(50)]
proof fn lemma_vlw_body_ground(d: VlwData)
    requires
        d.total_ground_distance is Some || d.trip_ground_distance is Some,
    ensures
        vlw_body(d) == opt_text(d.total_water_distance) + seq![','] + seq!['N'] + seq![','] + opt_text(d.trip_water_distance) + seq![','] + seq!['N'] + seq![','] + opt_text(d.total_ground_distance) + seq![','] + seq!['N'] + seq![','] + opt_text(d.trip_ground_distance) + seq![','] + seq!['N'],
{
    let t0 = opt_text(d.total_water_distance);
    let t2 = opt_text(d.trip_water_distance);
    let t4 = opt_text(d.total_ground_distance);
    let t6 = opt_text(d.trip_ground_distance);
    let n = seq!['N'];
    assert(vlw_body(d) =~= t0 + seq![','] + n + seq![','] + t2 + seq![','] + n + seq![','] + t4 + seq![','] + n + seq![','] + t6 + seq![','] + n);
}

/// The body of a VLW value without a ground group is its four parts
/// joined with commas.
#[verifier::spinoff_prover]
#[verifier::rlimit(50)]
proof fn lemma_vlw_body_water(d: VlwData)
    requires
        d.total_ground_distance is None && d.trip_ground_distance is None,
    ensures
        vlw_body(d) == opt_text(d.total_water_distance) + seq![','] + seq!['N'] + seq![','] + opt_text(d.trip_water_distance) + seq![','] + seq!['N'],
{
    let t0 = opt_text(d.total_water_distance);
    let t2 = opt_text(d.trip_water_distance);
    let n = seq!['N'];
    assert(vlw_body(d) =~= t0 + seq![','] + n + seq![','] + t2 + seq![','] + n);
}

/// A written VLW value splits into its fields, none holding `*`.
proof fn lemma_vlw_split(d: VlwData)
    requires
        crate::readback::valid_opt_number(d.total_water_distance),
        crate::readback::valid_opt_number(d.trip_water_distance),
        crate::readback::valid_opt_number(d.total_ground_distance),
        crate::readback::valid_opt_number(d.trip_ground_distance),
    ensures
        split_fields(vlw_body(d)) == vlw_fields(d),
        crate::readback::plain_fields(vlw_fields(d)),
{
    let t0 = opt_text(d.total_water_distance);
    let t2 = opt_text(d.trip_water_distance);
    let t4 = opt_text(d.total_ground_distance);
    let t6 = opt_text(d.trip_ground_distance);
    let n = seq!['N'];
    crate::readback::lemma_opt_number_plain(d.total_water_distance);
    crate::readback::lemma_opt_number_plain(d.trip_water_distance);
    crate::readback::lemma_opt_number_plain(d.total_ground_distance);
    crate::readback::lemma_opt_number_plain(d.trip_ground_distance);
    crate::readback::lemma_opt_number_reads_back(d.total_water_distance);
    crate::readback::lemma_opt_number_reads_back(d.trip_water_distance);
    crate::readback::lemma_opt_number_reads_back(d.total_ground_distance);
    crate::readback::lemma_opt_number_reads_back(d.trip_ground_distance);
    crate::readback::lemma_char_plain('N');
    if d.total_ground_distance is Some || d.trip_ground_distance is Some {
        lemma_vlw_body_ground(d);
        crate::readback::lemma_split_fields_8(t0, n, t2, n, t4, n, t6, n);
    } else {
        lemma_vlw_body_water(d);
        crate::readback::lemma_split_fields_4(t0, n, t2, n);
    }
}

/// A written VLW value reads back as itself, when its numbers are decimal
/// literals; the ground group is written when either ground distance is
/// present.
#[verifier::rlimit(50)]
pub proof fn lemma_vlw_reads_back(d: VlwData)
    requires
        crate::readback::valid_opt_number(d.total_water_distance),
        crate::readback::valid_opt_number(d.trip_water_distance),
        crate::readback::valid_opt_number(d.total_ground_distance),
        crate::readback::valid_opt_number(d.trip_ground_distance),
    ensures
        vlw_data_result(vlw_body(d), Ok(d)),
        !vlw_body(d).contains('*'),
        vstd::utf8::is_ascii_chars(vlw_body(d)),
{
    lemma_vlw_split(d);
    crate::readback::lemma_plain_from_fields(vlw_body(d));
    crate::readback::lemma_opt_number_reads_back(d.total_water_distance);
    crate::readback::lemma_opt_number_reads_back(d.trip_water_distance);
    crate::readback::lemma_opt_number_reads_back(d.total_ground_distance);
    crate::readback::lemma_opt_number_reads_back(d.trip_ground_distance);
    lemma_empty_not_cut();
    let f = split_fields(vlw_body(d));
    assert(unit_done(f, 1) && unit_done(f, 3));
    if d.total_ground_distance is Some || d.trip_ground_distance is Some {
        assert(unit_done(f, 5));
        assert(float_scan(f[4]) != Scan::Cut);
        assert(float_scan(f[6]) != Scan::Cut);
        assert(group_ok(f, 4) && group_ok(f, 6));
    } else {
        assert(!group_ok(f, 4));
        assert(!group_broken(f, 4));
    }
}

} // verus!
