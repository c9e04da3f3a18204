//! GSA - GNSS DOP and Active Satellites:
//! `$--GSA,a,x,xx,xx,xx,xx,xx,xx,xx,xx,xx,xx,xx,xx,x.x,x.x,x.x,h*hh`
//! 1. Selection mode, `M` manual or `A` automatic; 2. Fix mode, `1` none,
//! `2` 2D, `3` 3D; 3-14. PRNs of the satellites used in the fix; 15. PDOP;
//! 16. HDOP; 17. VDOP; 18. System id (NMEA 4.1 and later).
//!
//! The satellite fields are read for as long as they are empty or a number
//! followed by a comma; the first 18 of them are kept and the empty ones
//! dropped. The dilutions follow and are required, unless everything after
//! the fix mode is commas.

use vstd::prelude::*;
use vstd::string::*;

use crate::bounded::{prns18, prns18_as_slice, prns18_from_slice};
use crate::error::Error;
use crate::generate::GenerateNmeaBody;
use crate::parse::NmeaSentence;
use crate::position::u32_max;
use crate::sentence_type::SentenceType;
use crate::sentences::vdm::leading_u8;
use crate::strings::{decimal, number_text, opt_text, push_char, push_decimal, write_opt};
use crate::text::{
    NumV, Number, chars_of, exec_one_of_field, field_spans, float_prefix, one_of_field,
    opt_float_field, opt_num_is, read_opt_float_field, read_opt_float_prefix, read_opt_unsigned,
    opt_unsigned_field, spans_match, split_fields,
};

verus! {

/// How the fix mode is selected.
#[derive(Debug, Clone, Copy, PartialEq, Eq, Structural)]
pub enum GsaMode1 {
    Manual,
    Automatic,
}

/// The kind of fix.
#[derive(Debug, Clone, Copy, PartialEq, Eq, Structural)]
pub enum GsaMode2 {
    NoFix,
    Fix2D,
    Fix3D,
}

/// The data of a GSA sentence.
#[derive(Debug, Clone, PartialEq)]
pub struct GsaData {
    pub mode1: GsaMode1,
    pub mode2: GsaMode2,
    pub fix_sats_prn: heapless::Vec<u32, 18>,
    pub pdop: Option<Number>,
    pub hdop: Option<Number>,
    pub vdop: Option<Number>,
    pub system_id: Option<u8>,
}

/// A satellite field: empty, or a number that fits in a `u32`.
pub open spec fn prn_item(f: Seq<char>) -> Option<Option<nat>> {
    opt_unsigned_field(f, u32_max())
}

/// The satellite fields read from field `j` on: each is empty or a number,
/// and followed by a comma.
pub open spec fn gsa_items(f: Seq<Seq<char>>, j: int) -> Seq<Option<nat>>
    decreases f.len() - j,
{
    if 0 <= j < f.len() - 1 && prn_item(f[j]) is Some {
        seq![prn_item(f[j]).unwrap()] + gsa_items(f, j + 1)
    } else {
        Seq::empty()
    }
}

/// The field at which reading satellite fields from field `j` stops.
pub open spec fn gsa_stop(f: Seq<Seq<char>>, j: int) -> int
    decreases f.len() - j,
{
    if 0 <= j < f.len() - 1 && prn_item(f[j]) is Some {
        gsa_stop(f, j + 1)
    } else {
        j
    }
}

/// The numbers among satellite fields, in order, the empty ones dropped.
pub open spec fn flatten(s: Seq<Option<nat>>) -> Seq<nat>
    decreases s.len(),
{
    if s.len() == 0 {
        Seq::empty()
    } else {
        let r = flatten(s.drop_last());
        match s.last() {
            Some(v) => r.push(v),
            None => r,
        }
    }
}

/// An optional machine number as an optional natural.
pub open spec fn opt_nat(o: Option<u64>) -> Option<nat> {
    match o {
        Some(v) => Some(v as nat),
        None => None,
    }
}

/// The first 18 satellite fields.
pub open spec fn first18_items(s: Seq<Option<nat>>) -> Seq<Option<nat>> {
    if s.len() <= 18 { s } else { s.take(18) }
}

/// Everything after the fix mode is commas: at least one, nothing else.
pub open spec fn gsa_empty_tail(f: Seq<Seq<char>>) -> bool {
    f.len() >= 4 && forall|j: int| 2 <= j < f.len() ==> (#[trigger] f[j]).len() == 0
}

/// The number literal that a field is exactly.
pub open spec fn exact_number(f: Seq<char>) -> Option<NumV> {
    match opt_float_field(f) {
        Some(Some(v)) => Some(v),
        _ => None,
    }
}

/// The dilutions after the satellite fields follow the grammar: PDOP and
/// HDOP are each exactly a number followed by a comma; a number starts the
/// VDOP field.
pub open spec fn gsa_dops_ok(f: Seq<Seq<char>>) -> bool {
    let k = gsa_stop(f, 2);
    &&& k + 2 < f.len()
    &&& exact_number(f[k]) is Some
    &&& exact_number(f[k + 1]) is Some
    &&& float_prefix(f[k + 2]) is Some
}

/// The system id: the digits at the start of the field after VDOP, when
/// VDOP fills its field and is followed by one.
pub open spec fn gsa_system(f: Seq<Seq<char>>) -> Option<nat> {
    let k = gsa_stop(f, 2);
    if exact_number(f[k + 2]) is Some && k + 3 < f.len() {
        leading_u8(f[k + 3])
    } else {
        None
    }
}

/// The GSA grammar over the comma-separated fields.
pub open spec fn gsa_accepts(f: Seq<Seq<char>>) -> bool {
    &&& f.len() >= 3
    &&& one_of_field(f[0], seq!['M', 'A']) is Some
    &&& one_of_field(f[1], seq!['1', '2', '3']) is Some
    &&& (gsa_empty_tail(f) || gsa_dops_ok(f))
}

pub open spec fn spec_mode1(c: char) -> GsaMode1 {
    if c == 'M' { GsaMode1::Manual } else { GsaMode1::Automatic }
}

pub open spec fn spec_mode2(c: char) -> GsaMode2 {
    if c == '1' {
        GsaMode2::NoFix
    } else if c == '2' {
        GsaMode2::Fix2D
    } else {
        GsaMode2::Fix3D
    }
}

/// The satellites a vector holds, as naturals.
pub open spec fn prn_view(v: heapless::Vec<u32, 18>) -> Seq<nat> {
    prns18(v).map(|i: int, x: u32| x as nat)
}

/// What reading the data `data` of a GSA sentence gives.
pub open spec fn gsa_data_result(data: Seq<char>, r: Result<GsaData, Error>) -> bool {
    let f = split_fields(data);
    if gsa_accepts(f) {
        r matches Ok(d) && {
            &&& d.mode1 == spec_mode1(f[0][0])
            &&& d.mode2 == spec_mode2(f[1][0])
            &&& if gsa_empty_tail(f) {
                &&& prn_view(d.fix_sats_prn) == Seq::<nat>::empty()
                &&& d.pdop is None && d.hdop is None && d.vdop is None && d.system_id is None
            } else {
                let k = gsa_stop(f, 2);
                &&& prn_view(d.fix_sats_prn) == flatten(first18_items(gsa_items(f, 2)))
                &&& opt_num_is(d.pdop, exact_number(f[k]))
                &&& opt_num_is(d.hdop, exact_number(f[k + 1]))
                &&& opt_num_is(d.vdop, Some(float_prefix(f[k + 2]).unwrap().0))
                &&& match d.system_id {
                    Some(v) => gsa_system(f) == Some(v as nat),
                    None => gsa_system(f) is None,
                }
            }
        }
    } else {
        r == Err::<GsaData, Error>(Error::ParsingError)
    }
}

/// What [`parse_gsa`] gives for a sentence.
pub open spec fn gsa_result(s: NmeaSentence, r: Result<GsaData, Error>) -> bool {
    if s.message_id != SentenceType::GSA {
        r == Err::<GsaData, Error>(
            Error::WrongSentenceHeader { expected: SentenceType::GSA, found: s.message_id },
        )
    } else {
        gsa_data_result(s.data@, r)
    }
}

fn all_empty_from(sp: &Vec<(usize, usize)>, j: usize) -> (r: bool)
    requires
        j <= sp.len(),
    ensures
        r == forall|q: int| j <= q < sp.len() ==> (#[trigger] sp@[q]).0 == sp@[q].1,
{
    let mut q = j;
    while q < sp.len()
        invariant
            j <= q <= sp.len(),
            forall|m: int| j <= m < q ==> (#[trigger] sp@[m]).0 == sp@[m].1,
        decreases sp.len() - q,
    {
        if sp[q].0 != sp[q].1 {
            return false;
        }
        q += 1;
    }
    true
}

/// Reads the satellite fields from field 2 on: where the reading stops, and
/// the numbers among the first 18 fields read.
fn read_prns(s: &Vec<char>, sp: &Vec<(usize, usize)>) -> (r: (usize, Vec<u32>))
    requires
        spans_match(s@, sp@),
        sp.len() >= 3,
    ensures
        r.0 < sp.len(),
        r.0 == gsa_stop(split_fields(s@), 2),
        r.1@.map(|i: int, x: u32| x as nat) == flatten(first18_items(gsa_items(split_fields(s@), 2))),
{
    let ghost f = split_fields(s@);
    let n = sp.len();
    let mut j: usize = 2;
    let mut count: usize = 0;
    let mut flat: Vec<u32> = Vec::new();
    let ghost mut seen: Seq<Option<nat>> = Seq::empty();
    let mut done = false;
    while !done && j + 1 < n
        invariant
            n == sp.len(),
            n == f.len(),
            f == split_fields(s@),
            spans_match(s@, sp@),
            2 <= j < n,
            count == seen.len(),
            count <= j,
            gsa_items(f, 2) == seen + gsa_items(f, j as int),
            gsa_stop(f, 2) == gsa_stop(f, j as int),
            done ==> gsa_stop(f, j as int) == j && gsa_items(f, j as int) == Seq::<Option<nat>>::empty(),
            flat@.map(|i: int, x: u32| x as nat) == flatten(first18_items(seen)),
        decreases (n - j) * 2 + if done { 0int } else { 1int },
    {
        match read_opt_unsigned(s, sp[j].0, sp[j].1, 4294967295) {
            None => {
                done = true;
            },
            Some(o) => {
                let ghost old_seen = seen;
                assert(prn_item(f[j as int]) == Some(opt_nat(o)));
                proof {
                    seen = seen.push(opt_nat(o));
                    assert(old_seen + gsa_items(f, j as int) =~= seen + gsa_items(f, j + 1));
                }
                if count < 18 {
                    if let Some(v) = o {
                        flat.push(v as u32);
                    }
                    proof {
                        assert(first18_items(seen) =~= first18_items(old_seen).push(opt_nat(o)));
                        assert(first18_items(seen).drop_last() =~= first18_items(old_seen));
                        assert(flat@.map(|i: int, x: u32| x as nat) =~= flatten(first18_items(seen)));
                    }
                } else {
                    proof {
                        assert(first18_items(seen) =~= first18_items(old_seen));
                    }
                }
                count += 1;
                j += 1;
            },
        }
    }
    proof {
        if !done {
            assert(gsa_stop(f, j as int) == j);
            assert(gsa_items(f, j as int) =~= Seq::<Option<nat>>::empty());
        }
        assert(seen + Seq::<Option<nat>>::empty() =~= seen);
    }
    (j, flat)
}

/// Fields, each followed by a comma.
pub open spec fn terminated_fields(fs: Seq<Seq<char>>) -> Seq<char>
    decreases fs.len(),
{
    if fs.len() == 0 {
        Seq::empty()
    } else {
        terminated_fields(fs.drop_last()) + fs.last() + seq![',']
    }
}

/// An optional `u32` as an optional natural.
pub open spec fn opt_nat32(o: Option<u32>) -> Option<nat> {
    match o {
        Some(v) => Some(v as nat),
        None => None,
    }
}

/// Reads satellite fields from the start of `i` for as long as each is
/// empty or a number and is followed by a comma: the text after the last
/// comma read, and the first 18 fields read.
#[verifier::spinoff_prover]
#[verifier::rlimit(50)]
pub fn gsa_prn_fields_parse(i: &str) -> (r: (&str, Vec<Option<u32>>))
    ensures
        ({
            let f = split_fields(i@);
            &&& r.1@.map_values(|o: Option<u32>| opt_nat32(o)) == first18_items(gsa_items(f, 0))
            &&& i@ == terminated_fields(f.take(gsa_stop(f, 0))) + r.0@
        }),
{
    let s = chars_of(i);
    let sp = field_spans(&s);
    let ghost f = split_fields(s@);
    let n = sp.len();
    proof {
        crate::text::lemma_split_fields_nonempty(s@);
        assert(f.take(0) =~= Seq::<Seq<char>>::empty());
        assert(s@.subrange(0, 0) =~= terminated_fields(f.take(0)));
    }
    let mut j: usize = 0;
    let mut items: Vec<Option<u32>> = Vec::new();
    let ghost mut seen: Seq<Option<nat>> = Seq::empty();
    let mut done = false;
    while !done && j + 1 < n
        invariant
            n == sp.len(),
            n == f.len(),
            f == split_fields(s@),
            s@ == i@,
            spans_match(s@, sp@),
            j < n,
            gsa_items(f, 0) == seen + gsa_items(f, j as int),
            gsa_stop(f, 0) == gsa_stop(f, j as int),
            done ==> gsa_stop(f, j as int) == j && gsa_items(f, j as int) == Seq::<Option<nat>>::empty(),
            items@.map_values(|o: Option<u32>| opt_nat32(o)) == first18_items(seen),
            s@.subrange(0, sp[j as int].0 as int) == terminated_fields(f.take(j as int)),
        decreases (n - j) * 2 + if done { 0int } else { 1int },
    {
        match read_opt_unsigned(&s, sp[j].0, sp[j].1, 4294967295) {
            None => {
                done = true;
            },
            Some(o) => {
                let ghost old_seen = seen;
                let item: Option<u32> = match o {
                    Some(v) => Some(v as u32),
                    None => None,
                };
                assert(prn_item(f[j as int]) == Some(opt_nat32(item)));
                proof {
                    seen = seen.push(opt_nat32(item));
                    assert(old_seen + gsa_items(f, j as int) =~= seen + gsa_items(f, j + 1));
                    assert(f.take(j + 1).drop_last() =~= f.take(j as int));
                    assert(s@.subrange(0, sp[j + 1].0 as int) =~= s@.subrange(0, sp[j as int].0 as int)
                        + s@.subrange(sp[j as int].0 as int, sp[j as int].1 as int) + seq![',']);
                }
                if items.len() < 18 {
                    items.push(item);
                    proof {
                        assert(first18_items(seen) =~= first18_items(old_seen).push(opt_nat32(item)));
                        assert(items@.map_values(|o: Option<u32>| opt_nat32(o)) =~= first18_items(seen));
                    }
                } else {
                    proof {
                        assert(first18_items(seen) =~= first18_items(old_seen));
                    }
                }
                j += 1;
            },
        }
    }
    proof {
        if !done {
            assert(gsa_stop(f, j as int) == j);
            assert(gsa_items(f, j as int) =~= Seq::<Option<nat>>::empty());
        }
        assert(seen + Seq::<Option<nat>>::empty() =~= seen);
    }
    let rest = i.substring_char(sp[j].0, s.len());
    assert(i@ =~= terminated_fields(f.take(j as int)) + rest@);
    (rest, items)
}

/// Reads the data of a GSA sentence.
pub fn parse_gsa(sentence: NmeaSentence<'_>) -> (r: Result<GsaData, Error>)
    ensures
        gsa_result(sentence, r),
{
    if sentence.message_id != SentenceType::GSA {
        return Err(Error::WrongSentenceHeader { expected: SentenceType::GSA, found: sentence.message_id });
    }
    let d = sentence.data;
    let s = chars_of(d);
    let sp = field_spans(&s);
    let ghost f = split_fields(s@);
    if sp.len() < 3 {
        return Err(Error::ParsingError);
    }
    let ma = ['M', 'A'];
    let modes = ['1', '2', '3'];
    assert(ma@ =~= seq!['M', 'A']);
    assert(modes@ =~= seq!['1', '2', '3']);
    let mode1 = match exec_one_of_field(&s, sp[0].0, sp[0].1, ma.as_slice()) {
        Some(c) => if c == 'M' { GsaMode1::Manual } else { GsaMode1::Automatic },
        None => return Err(Error::ParsingError),
    };
    let mode2 = match exec_one_of_field(&s, sp[1].0, sp[1].1, modes.as_slice()) {
        Some(c) => if c == '1' {
            GsaMode2::NoFix
        } else if c == '2' {
            GsaMode2::Fix2D
        } else {
            GsaMode2::Fix3D
        },
        None => return Err(Error::ParsingError),
    };
    if sp.len() >= 4 && all_empty_from(&sp, 2) {
        assert forall|j: int| 2 <= j < f.len() implies (#[trigger] f[j]).len() == 0 by {
            assert(sp@[j].0 == sp@[j].1);
        }
        let empty: Vec<u32> = Vec::new();
        let fix_sats_prn = match prns18_from_slice(empty.as_slice()) {
            Some(v) => v,
            None => return Err(Error::ParsingError),
        };
        assert(prn_view(fix_sats_prn) =~= Seq::<nat>::empty());
        return Ok(
            GsaData { mode1, mode2, fix_sats_prn, pdop: None, hdop: None, vdop: None, system_id: None },
        );
    }
    proof {
        if sp.len() >= 4 {
            assert(!gsa_empty_tail(f)) by {
                if gsa_empty_tail(f) {
                    assert forall|q: int| 2 <= q < sp.len() implies (#[trigger] sp@[q]).0 == sp@[q].1 by {
                        assert(f[q].len() == 0);
                    }
                }
            }
        }
    }
    let (k, flat) = read_prns(&s, &sp);
    let (pdop, hdop, vdop, system_id) = match read_dops(d, &s, &sp, k) {
        Some(x) => x,
        None => return Err(Error::ParsingError),
    };
    let fix_sats_prn = match prns18_from_slice(flat.as_slice()) {
        Some(v) => v,
        None => {
            proof {
                lemma_flatten_len(first18_items(gsa_items(f, 2)));
            }
            return Err(Error::ParsingError);
        },
    };
    assert(prn_view(fix_sats_prn) =~= flat@.map(|i: int, x: u32| x as nat));
    Ok(GsaData { mode1, mode2, fix_sats_prn, pdop: Some(pdop), hdop: Some(hdop), vdop: Some(vdop), system_id })
}

/// Reads the dilutions and the system id after the satellite fields, which
/// stop at field `k`.
fn read_dops(d: &str, s: &Vec<char>, sp: &Vec<(usize, usize)>, k: usize) -> (r: Option<(Number, Number, Number, Option<u8>)>)
    requires
        s@ == d@,
        spans_match(s@, sp@),
        k == gsa_stop(split_fields(s@), 2),
        k < sp.len(),
    ensures
        r is Some <==> gsa_dops_ok(split_fields(s@)),
        r matches Some(x) ==> {
            let f = split_fields(s@);
            &&& opt_num_is(Some(x.0), exact_number(f[k as int]))
            &&& opt_num_is(Some(x.1), exact_number(f[k + 1]))
            &&& opt_num_is(Some(x.2), Some(float_prefix(f[k + 2]).unwrap().0))
            &&& match x.3 {
                Some(v) => gsa_system(f) == Some(v as nat),
                None => gsa_system(f) is None,
            }
        },
{
    if sp.len() - k <= 2 {
        return None;
    }
    let pdop = match read_opt_float_field(d, s, sp[k].0, sp[k].1) {
        Some(Some(v)) => v,
        _ => return None,
    };
    let hdop = match read_opt_float_field(d, s, sp[k + 1].0, sp[k + 1].1) {
        Some(Some(v)) => v,
        _ => return None,
    };
    let vdop = match read_opt_float_prefix(d, s, sp[k + 2].0, sp[k + 2].1) {
        Some(Some(v)) => v,
        _ => return None,
    };
    let vdop_whole = match read_opt_float_field(d, s, sp[k + 2].0, sp[k + 2].1) {
        Some(Some(_)) => true,
        _ => false,
    };
    let system_id = if vdop_whole && sp.len() - k > 3 {
        crate::sentences::vdm::read_leading_u8(s, sp[k + 3].0, sp[k + 3].1)
    } else {
        None
    };
    Some((pdop, hdop, vdop, system_id))
}

/// Dropping the empty fields leaves no more numbers than fields.
pub proof fn lemma_flatten_len(s: Seq<Option<nat>>)
    ensures
        flatten(s).len() <= s.len(),
    decreases s.len(),
{
    if s.len() > 0 {
        lemma_flatten_len(s.drop_last());
    }
}

/// The twelve satellite slots as written: the first twelve numbers, each
/// slot followed by a comma, empty slots for missing numbers.
pub open spec fn gsa_slots(p: Seq<u32>, n: nat) -> Seq<char>
    decreases n,
{
    if n == 0 {
        Seq::empty()
    } else {
        gsa_slots(p, (n - 1) as nat) + (if n - 1 < p.len() {
            decimal(p[n - 1] as nat)
        } else {
            Seq::empty()
        }) + seq![',']
    }
}

/// The system id as written: after a comma, nothing when absent.
pub open spec fn system_chars(o: Option<u8>) -> Seq<char> {
    match o {
        Some(v) => seq![','] + decimal(v as nat),
        None => Seq::empty(),
    }
}

/// The body a GSA value is written as.
pub open spec fn gsa_body(d: GsaData) -> Seq<char> {
    seq![
        match d.mode1 {
            GsaMode1::Manual => 'M',
            GsaMode1::Automatic => 'A',
        },
        ',',
        match d.mode2 {
            GsaMode2::NoFix => '1',
            GsaMode2::Fix2D => '2',
            GsaMode2::Fix3D => '3',
        },
        ',',
    ] + gsa_slots(prns18(d.fix_sats_prn), 12) + opt_text(d.pdop) + seq![','] + opt_text(d.hdop) + seq![
        ',',
    ] + opt_text(d.vdop) + system_chars(d.system_id)
}

fn write_dops(f: &mut String, d: &GsaData)
    ensures
        final(f)@ == old(f)@ + opt_text(d.pdop) + seq![','] + opt_text(d.hdop) + seq![','] + opt_text(
            d.vdop,
        ) + system_chars(d.system_id),
{
    write_opt(f, &d.pdop);
    push_char(f, ',');
    write_opt(f, &d.hdop);
    push_char(f, ',');
    write_opt(f, &d.vdop);
    let ghost x = f@;
    if let Some(sid) = d.system_id {
        push_char(f, ',');
        push_decimal(f, sid as u64);
    }
    assert(f@ =~= x + system_chars(d.system_id));
    assert(f@ =~= old(f)@ + opt_text(d.pdop) + seq![','] + opt_text(d.hdop) + seq![','] + opt_text(
        d.vdop,
    ) + system_chars(d.system_id));
}

fn write_slots(f: &mut String, v: &heapless::Vec<u32, 18>)
    ensures
        final(f)@ == old(f)@ + gsa_slots(prns18(*v), 12),
{
    let p = prns18_as_slice(v);
    let mut idx: usize = 0;
    assert(f@ =~= old(f)@ + gsa_slots(p@, 0));
    while idx < 12
        invariant
            idx <= 12,
            p@ == prns18(*v),
            f@ == old(f)@ + gsa_slots(p@, idx as nat),
        decreases 12 - idx,
    {
        if idx < p.len() {
            push_decimal(f, p[idx] as u64);
        }
        push_char(f, ',');
        idx += 1;
        assert(f@ =~= old(f)@ + gsa_slots(p@, idx as nat));
    }
}

impl GenerateNmeaBody for GsaData {
    open spec fn spec_sentence_type(&self) -> SentenceType {
        SentenceType::GSA
    }

    open spec fn spec_body(&self) -> Seq<char> {
        gsa_body(*self)
    }

    fn sentence_type(&self) -> (t: SentenceType) {
        SentenceType::GSA
    }

    fn write_body(&self, f: &mut String) {
        push_char(
            f,
            match self.mode1 {
                GsaMode1::Manual => 'M',
                GsaMode1::Automatic => 'A',
            },
        );
        push_char(f, ',');
        push_char(
            f,
            match self.mode2 {
                GsaMode2::NoFix => '1',
                GsaMode2::Fix2D => '2',
                GsaMode2::Fix3D => '3',
            },
        );
        push_char(f, ',');
        write_slots(f, &self.fix_sats_prn);
        write_dops(f, self);
        assert(f@ =~= old(f)@ + gsa_body(*self));
    }
}

/// The text of satellite slot `i`: the number when there is one, nothing
/// otherwise.
pub open spec fn slot_text(p: Seq<u32>, i: int) -> Seq<char> {
    if 0 <= i < p.len() { decimal(p[i] as nat) } else { Seq::empty() }
}

/// What reading satellite slot `i` gives.
pub open spec fn slot_item(p: Seq<u32>, i: int) -> Option<nat> {
    if 0 <= i < p.len() { Some(p[i] as nat) } else { None }
}

/// The letter of the selection mode.
pub open spec fn mode1_char(m: GsaMode1) -> char {
    match m {
        GsaMode1::Manual => 'M',
        GsaMode1::Automatic => 'A',
    }
}

/// The digit of the fix mode.
pub open spec fn mode2_char(m: GsaMode2) -> char {
    match m {
        GsaMode2::NoFix => '1',
        GsaMode2::Fix2D => '2',
        GsaMode2::Fix3D => '3',
    }
}

/// A satellite slot holds no comma or `*`, is ASCII, and reads back.
proof fn lemma_slot_reads_back(p: Seq<u32>, i: int)
    ensures
        prn_item(slot_text(p, i)) == Some(slot_item(p, i)),
        !slot_text(p, i).contains(','),
        !slot_text(p, i).contains('*'),
        vstd::utf8::is_ascii_chars(slot_text(p, i)),
{
    if 0 <= i < p.len() {
        crate::readback::lemma_decimal_reads_back(p[i] as nat);
    }
}

/// The slots written after the two modes split into one field each, then
/// the comma-free text that follows them.
proof fn lemma_gsa_slots_split(m1: char, m2: char, p: Seq<u32>, n: nat, t: Seq<char>)
    requires
        m1 != ',',
        m2 != ',',
        !t.contains(','),
    ensures
        split_fields(seq![m1, ','] + seq![m2, ','] + gsa_slots(p, n) + t) == seq![seq![m1], seq![m2]] + Seq::new(n, |i: int| slot_text(p, i)) + seq![t],
    decreases n,
{
    crate::readback::lemma_char_comma_free(m1);
    crate::readback::lemma_char_comma_free(m2);
    if n == 0 {
        assert(seq![m1, ','] + seq![m2, ','] + gsa_slots(p, n) + t =~= seq![m1] + seq![','] + seq![m2] + seq![','] + t);
        crate::readback::lemma_split_fields_3(seq![m1], seq![m2], t);
        assert(seq![seq![m1], seq![m2]] + Seq::new(n, |i: int| slot_text(p, i)) + seq![t] =~= seq![seq![m1], seq![m2], t]);
    } else {
        let k = (n - 1) as nat;
        let s = slot_text(p, k as int);
        lemma_slot_reads_back(p, k as int);
        lemma_gsa_slots_split(m1, m2, p, k, s);
        let pre = seq![m1, ','] + seq![m2, ','] + gsa_slots(p, k) + s;
        assert(seq![m1, ','] + seq![m2, ','] + gsa_slots(p, n) + t =~= pre + seq![','] + t);
        crate::readback::lemma_split_push(pre, t);
        assert((seq![seq![m1], seq![m2]] + Seq::new(k, |i: int| slot_text(p, i)) + seq![s]).push(t) =~= seq![seq![m1], seq![m2]] + Seq::new(n, |i: int| slot_text(p, i)) + seq![t]);
    }
}

/// Dropping the empty slots of twelve slots gives the numbers back.
proof fn lemma_flatten_slots(p: Seq<u32>, n: nat)
    requires
        p.len() <= n,
    ensures
        flatten(Seq::new(n, |i: int| slot_item(p, i))) == p.map(|i: int, x: u32| x as nat),
    decreases n,
{
    let s = Seq::new(n, |i: int| slot_item(p, i));
    if n == 0 {
        assert(p.map(|i: int, x: u32| x as nat) =~= Seq::<nat>::empty());
    } else if n > p.len() {
        lemma_flatten_slots(p, (n - 1) as nat);
        assert(s.drop_last() =~= Seq::new((n - 1) as nat, |i: int| slot_item(p, i)));
    } else {
        let q = p.drop_last();
        lemma_flatten_slots(q, (n - 1) as nat);
        assert(s.drop_last() =~= Seq::new((n - 1) as nat, |i: int| slot_item(q, i)));
        assert(p.map(|i: int, x: u32| x as nat) =~= q.map(|i: int, x: u32| x as nat).push(p.last() as nat));
    }
}

/// Reading satellite fields from field `2 + j` on, over written slots
/// followed by a field that is no satellite, gives the slots from `j` on
/// and stops at that field.
proof fn lemma_gsa_items(f: Seq<Seq<char>>, p: Seq<u32>, j: int)
    requires
        0 <= j <= 12,
        f.len() > 15,
        forall|i: int| 0 <= i < 12 ==> f[2 + i] == #[trigger] slot_text(p, i),
        prn_item(f[14]) is None,
    ensures
        gsa_items(f, 2 + j) == Seq::new((12 - j) as nat, |i: int| slot_item(p, j + i)),
        gsa_stop(f, 2 + j) == 14,
    decreases 12 - j,
{
    if j < 12 {
        lemma_gsa_items(f, p, j + 1);
        assert(f[2 + j] == slot_text(p, j));
        lemma_slot_reads_back(p, j);
        assert(seq![slot_item(p, j)] + Seq::new((12 - (j + 1)) as nat, |i: int| slot_item(p, j + 1 + i)) =~= Seq::new((12 - j) as nat, |i: int| slot_item(p, j + i)));
    } else {
        assert(Seq::new(0, |i: int| slot_item(p, j + i)) =~= Seq::<Option<nat>>::empty());
    }
}

/// The fields of a written GSA value: the two modes, twelve satellite
/// slots, the three dilutions, and the system id when there is one.
pub open spec fn gsa_fields(d: GsaData) -> Seq<Seq<char>> {
    let p = prns18(d.fix_sats_prn);
    let h = seq![seq![mode1_char(d.mode1)], seq![mode2_char(d.mode2)]] + Seq::new(12, |i: int| slot_text(p, i)) + seq![opt_text(d.pdop), opt_text(d.hdop), opt_text(d.vdop)];
    match d.system_id {
        Some(v) => h.push(decimal(v as nat)),
        None => h,
    }
}

/// A GSA value that reads back: either it holds no satellites, no
/// dilutions and no system id, or it holds at most twelve satellites and
/// all three dilutions as decimal literals, the PDOP not a plain run of
/// digits, which would read as one more satellite.
pub open spec fn gsa_readable(d: GsaData) -> bool {
    let p = prns18(d.fix_sats_prn);
    ||| (p.len() == 0 && d.pdop is None && d.hdop is None && d.vdop is None && d.system_id is None)
    ||| {
        &&& p.len() <= 12
        &&& d.pdop matches Some(n) && crate::readback::valid_number(n) && !crate::text::all_digits(number_text(n))
        &&& d.hdop matches Some(n) && crate::readback::valid_number(n)
        &&& d.vdop matches Some(n) && crate::readback::valid_number(n)
    }
}

/// A written GSA value splits into its fields, none holding `*`.
#[verifier::rlimit(50)]
proof fn lemma_gsa_split(d: GsaData)
    requires
        gsa_readable(d),
    ensures
        split_fields(gsa_body(d)) == gsa_fields(d),
        crate::readback::plain_fields(gsa_fields(d)),
{
    let p = prns18(d.fix_sats_prn);
    let a = mode1_char(d.mode1);
    let b = mode2_char(d.mode2);
    let t = opt_text(d.pdop);
    let u = opt_text(d.hdop);
    let v = opt_text(d.vdop);
    crate::readback::lemma_opt_number_reads_back(d.pdop);
    crate::readback::lemma_opt_number_reads_back(d.hdop);
    crate::readback::lemma_opt_number_reads_back(d.vdop);
    crate::readback::lemma_char_plain(a);
    crate::readback::lemma_char_plain(b);
    lemma_gsa_slots_split(a, b, p, 12, t);
    let x = seq![a, ','] + seq![b, ','] + gsa_slots(p, 12) + t;
    crate::readback::lemma_split_push(x, u);
    crate::readback::lemma_split_push(x + seq![','] + u, v);
    let h = seq![seq![a], seq![b]] + Seq::new(12, |i: int| slot_text(p, i)) + seq![t, u, v];
    assert((seq![seq![a], seq![b]] + Seq::new(12, |i: int| slot_text(p, i)) + seq![t]).push(u).push(v) =~= h);
    match d.system_id {
        Some(n) => {
            crate::readback::lemma_decimal_reads_back(n as nat);
            assert(gsa_body(d) =~= (x + seq![','] + u + seq![','] + v) + seq![','] + decimal(n as nat));
            crate::readback::lemma_split_push(x + seq![','] + u + seq![','] + v, decimal(n as nat));
        },
        None => {
            assert(gsa_body(d) =~= x + seq![','] + u + seq![','] + v);
        },
    }
    let f = gsa_fields(d);
    assert forall|i: int| 0 <= i < f.len() implies !(#[trigger] f[i]).contains('*') && vstd::utf8::is_ascii_chars(f[i]) by {
        if 2 <= i < 14 {
            assert(f[i] == slot_text(p, i - 2));
            lemma_slot_reads_back(p, i - 2);
        }
    }
}

/// A written GSA value reads back as itself, when it holds no satellites,
/// dilutions or system id, or at most twelve satellites and all three
/// dilutions as decimal literals with a PDOP that is no plain run of
/// digits.
#[verifier::rlimit(50)]
pub proof fn lemma_gsa_reads_back(d: GsaData)
    requires
        gsa_readable(d),
    ensures
        gsa_data_result(gsa_body(d), Ok(d)),
        !gsa_body(d).contains('*'),
        vstd::utf8::is_ascii_chars(gsa_body(d)),
{
    let p = prns18(d.fix_sats_prn);
    lemma_gsa_split(d);
    crate::readback::lemma_plain_from_fields(gsa_body(d));
    let f = split_fields(gsa_body(d));
    assert(f[0] == seq![mode1_char(d.mode1)] && f[1] == seq![mode2_char(d.mode2)]);
    assert(seq!['M', 'A'][0] == 'M' && seq!['M', 'A'][1] == 'A');
    assert(seq!['1', '2', '3'][0] == '1' && seq!['1', '2', '3'][1] == '2' && seq!['1', '2', '3'][2] == '3');
    assert forall|i: int| 0 <= i < 12 implies f[2 + i] == #[trigger] slot_text(p, i) by {
        assert(f[2 + i] == Seq::new(12, |i: int| slot_text(p, i))[i]);
    }
    assert(f[14] == opt_text(d.pdop) && f[15] == opt_text(d.hdop) && f[16] == opt_text(d.vdop));
    crate::readback::lemma_opt_number_reads_back(d.pdop);
    crate::readback::lemma_opt_number_reads_back(d.hdop);
    crate::readback::lemma_opt_number_reads_back(d.vdop);
    if p.len() == 0 && d.pdop is None && d.hdop is None && d.vdop is None && d.system_id is None {
        assert forall|j: int| 2 <= j < f.len() implies (#[trigger] f[j]).len() == 0 by {
            if j < 14 {
                assert(f[j] == slot_text(p, j - 2));
            }
        }
        assert(gsa_empty_tail(f));
        assert(prns18(d.fix_sats_prn).map(|i: int, x: u32| x as nat) =~= Seq::<nat>::empty());
    } else {
        let n = d.pdop.unwrap();
        assert(f[14].len() > 0);
        assert(prn_item(f[14]) is None);
        lemma_gsa_items(f, p, 0);
        assert(Seq::new(12, |i: int| slot_item(p, 0 + i)) =~= Seq::new(12, |i: int| slot_item(p, i)));
        lemma_flatten_slots(p, 12);
        assert(!gsa_empty_tail(f));
        assert(float_prefix(f[16]) == Some((crate::text::num_view(d.vdop.unwrap()), f[16].len() as int)));
        match d.system_id {
            Some(v) => {
                assert(f[17] == decimal(v as nat));
                crate::sentences::vdm::lemma_leading_u8_decimal(v);
            },
            None => {
                assert(f.len() == 17);
            },
        }
    }
}

/// Reading a GSA sentence gives the mode letters their NMEA meaning: the
/// selection `M` is manual and `A` automatic; the fix `1` is none, `2` a 2D
/// fix and `3` a 3D fix.
pub proof fn lemma_gsa_mode_letters_read(data: Seq<char>, d: GsaData)
    requires
        gsa_data_result(data, Ok(d)),
    ensures
        ({
            let f = split_fields(data);
            &&& d.mode1 == GsaMode1::Manual <==> f[0] == seq!['M']
            &&& d.mode1 == GsaMode1::Automatic <==> f[0] == seq!['A']
            &&& d.mode2 == GsaMode2::NoFix <==> f[1] == seq!['1']
            &&& d.mode2 == GsaMode2::Fix2D <==> f[1] == seq!['2']
            &&& d.mode2 == GsaMode2::Fix3D <==> f[1] == seq!['3']
        }),
{
    let f = split_fields(data);
    crate::text::lemma_letters2('M', 'A', f[0]);
    crate::text::lemma_letters3('1', '2', '3', f[1]);
}

/// Writing a GSA value gives its modes their NMEA letters: the written
/// selection field is `M` when manual and `A` when automatic, the fix field
/// `1`, `2` or `3` for no fix, a 2D fix or a 3D fix.
pub proof fn lemma_gsa_mode_letters_written(d: GsaData)
    requires
        gsa_readable(d),
    ensures
        ({
            let f = split_fields(gsa_body(d));
            &&& d.mode1 == GsaMode1::Manual <==> f[0] == seq!['M']
            &&& d.mode1 == GsaMode1::Automatic <==> f[0] == seq!['A']
            &&& d.mode2 == GsaMode2::NoFix <==> f[1] == seq!['1']
            &&& d.mode2 == GsaMode2::Fix2D <==> f[1] == seq!['2']
            &&& d.mode2 == GsaMode2::Fix3D <==> f[1] == seq!['3']
        }),
{
    lemma_gsa_reads_back(d);
    lemma_gsa_mode_letters_read(gsa_body(d), d);
}

} // verus!
