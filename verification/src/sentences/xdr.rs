//! XDR - Transducer Measurement:
//! `$--XDR,a,x.x,a,c--c,...*hh`, repeated groups of four fields:
//! 1. Transducer type; 2. Measurement value; 3. Units; 4. Transducer name.
//! Up to eight groups are kept; the name is cut to at most 16 bytes, at a
//! character boundary.

use vstd::prelude::*;
use vstd::string::*;
use arrayvec::ArrayString;

use crate::bounded::{array_string16, as_str16, chars16, measurements8, measurements8_as_slice, measurements8_new, measurements8_push};
use crate::error::Error;
use crate::generate::GenerateNmeaBody;
use crate::parse::NmeaSentence;
use crate::sentence_type::SentenceType;
use crate::strings::{push_char, push_opt_number, push_str, opt_number_text};
use crate::text::{NumV, Number, chars_of, field_spans, fit_at_bytes, fit_prefix, fnum, lemma_split_fields_nonempty, lemma_utf8_len_is_encoding_len, opt_float_field, opt_num_is, read_opt_float_field, spans_match, split_fields};

verus! {

/// One transducer measurement.
#[derive(Debug, Clone, PartialEq)]
pub struct XdrMeasurement {
    pub transducer_type: Option<char>,
    pub value: Option<Number>,
    pub units: Option<char>,
    pub name: ArrayString<16>,
}

/// The measurements of an XDR sentence.
#[derive(Debug, Clone, PartialEq)]
pub struct XdrData {
    pub measurements: heapless::Vec<XdrMeasurement, 8>,
}

/// The content of one measurement.
pub struct XdrMV {
    pub transducer_type: Option<char>,
    pub value: Option<NumV>,
    pub units: Option<char>,
    pub name: Seq<char>,
}

pub open spec fn xdr_m_is(m: XdrMeasurement, v: XdrMV) -> bool {
    &&& m.transducer_type == v.transducer_type
    &&& opt_num_is(m.value, v.value)
    &&& m.units == v.units
    &&& chars16(m.name) == v.name
}

/// How reading the groups from some field on ends.
pub enum XdrOutcome {
    /// All groups were read; these are their contents.
    Done(Seq<XdrMV>),
    /// A group does not follow the grammar.
    Fail,
}

/// A group starting at field `g` follows the grammar: a type field of at
/// most one character followed by a comma, a value field followed by a
/// comma, and a units field of at most one character, which must be followed
/// by a comma when it is not empty.
pub open spec fn xdr_group_ok(f: Seq<Seq<char>>, g: int) -> bool {
    &&& 0 <= g
    &&& g + 2 < f.len()
    &&& f[g].len() <= 1
    &&& opt_float_field(f[g + 1]) is Some
    &&& f[g + 2].len() <= 1
    &&& (f[g + 2].len() == 1 ==> g + 3 < f.len())
}

pub open spec fn first_char(f: Seq<char>) -> Option<char> {
    if f.len() == 0 { None } else { Some(f[0]) }
}

/// The name field of the group at `g` (empty when there is none).
pub open spec fn xdr_name_text(f: Seq<Seq<char>>, g: int) -> Seq<char> {
    if g + 3 < f.len() { f[g + 3] } else { Seq::empty() }
}

/// The measurement read from the group at `g`, its name cut to at most 16
/// bytes, at a character boundary.
pub open spec fn xdr_mv(f: Seq<Seq<char>>, g: int) -> XdrMV {
    XdrMV {
        transducer_type: first_char(f[g]),
        value: fnum(f[g + 1]),
        units: first_char(f[g + 2]),
        name: fit_prefix(xdr_name_text(f, g), 16),
    }
}

/// Reading groups from field `g` on: groups start every four fields and the
/// reading stops at the end of the data.
pub open spec fn xdr_from(f: Seq<Seq<char>>, g: int) -> XdrOutcome
    decreases f.len() - g,
{
    if g < 0 || g >= f.len() || (g == f.len() - 1 && f[g].len() == 0) {
        XdrOutcome::Done(Seq::empty())
    } else if !xdr_group_ok(f, g) {
        XdrOutcome::Fail
    } else if g + 4 < f.len() {
        match xdr_from(f, g + 4) {
            XdrOutcome::Done(r) => XdrOutcome::Done(seq![xdr_mv(f, g)] + r),
            o => o,
        }
    } else {
        XdrOutcome::Done(seq![xdr_mv(f, g)])
    }
}

/// What reading the data `data` of an XDR sentence gives: the first eight
/// measurements when all groups follow the grammar, a parsing error otherwise.
pub open spec fn xdr_data_result(data: Seq<char>, r: Result<XdrData, Error>) -> bool {
    match xdr_from(split_fields(data), 0) {
        XdrOutcome::Done(ms) => r matches Ok(d) && {
            let got = measurements8(d.measurements);
            &&& got.len() == if ms.len() < 8 { ms.len() } else { 8 }
            &&& forall|j: int| 0 <= j < got.len() ==> xdr_m_is(#[trigger] got[j], ms[j])
        },
        _ => r == Err::<XdrData, Error>(Error::ParsingError),
    }
}

/// What [`parse_xdr`] gives for a sentence.
pub open spec fn xdr_result(s: NmeaSentence, r: Result<XdrData, Error>) -> bool {
    if s.message_id != SentenceType::XDR {
        r == Err::<XdrData, Error>(
            Error::WrongSentenceHeader { expected: SentenceType::XDR, found: s.message_id },
        )
    } else {
        xdr_data_result(s.data@, r)
    }
}

fn first_char_of(s: &Vec<char>, a: usize, b: usize) -> (r: Option<char>)
    requires
        a <= b <= s.len(),
    ensures
        r == first_char(s@.subrange(a as int, b as int)),
{
    if a == b { None } else { Some(s[a]) }
}

/// Reads the group of four fields starting at field `g`: `None` when it does
/// not follow the grammar.
#[verifier::spinoff_prover]
fn read_group(d: &str, s: &Vec<char>, sp: &Vec<(usize, usize)>, g: usize) -> (r: Option<XdrMeasurement>)
    requires
        s@ == d@,
        spans_match(s@, sp@),
        g < sp.len(),
    ensures
        r is None <==> !xdr_group_ok(split_fields(s@), g as int),
        r matches Some(m) ==> xdr_m_is(m, xdr_mv(split_fields(s@), g as int)),
{
    let ghost f = split_fields(s@);
    let n = sp.len();
    if n - g <= 2 || sp[g].1 - sp[g].0 > 1 || sp[g + 2].1 - sp[g + 2].0 > 1 {
        return None;
    }
    let value = read_opt_float_field(d, s, sp[g + 1].0, sp[g + 1].1);
    if value.is_none() || (sp[g + 2].1 - sp[g + 2].0 == 1 && n - g <= 3) {
        return None;
    }
    assert(xdr_group_ok(f, g as int));
    let (na, nb) = if n - g > 3 { sp[g + 3] } else { (0, 0) };
    let ghost nt = xdr_name_text(f, g as int);
    assert(nt =~= s@.subrange(na as int, nb as int));
    assert(na <= nb <= s.len()) by {
        if n - g > 3 {
            assert(sp@[g + 3 as int] == sp[g + 3]);
        }
    }
    let k = fit_at_bytes(s, na, nb, 16);
    let name_str = d.substring_char(na, na + k);
    proof {
        lemma_utf8_len_is_encoding_len(name_str@);
        assert(name_str@ =~= nt.take(k as int));
    }
    let name = match array_string16(name_str) {
        Some(a) => a,
        None => {
            return None;
        },
    };
    Some(XdrMeasurement {
        transducer_type: first_char_of(s, sp[g].0, sp[g].1),
        value: value.unwrap(),
        units: first_char_of(s, sp[g + 2].0, sp[g + 2].1),
        name,
    })
}

/// Reads the data of an XDR sentence.
pub fn parse_xdr(sentence: NmeaSentence<'_>) -> (r: Result<XdrData, Error>)
    ensures
        xdr_result(sentence, r),
{
    if sentence.message_id != SentenceType::XDR {
        return Err(Error::WrongSentenceHeader { expected: SentenceType::XDR, found: sentence.message_id });
    }
    let d = sentence.data;
    let s = chars_of(d);
    let sp = field_spans(&s);
    let ghost f = split_fields(s@);
    let n = sp.len();
    proof {
        lemma_split_fields_nonempty(s@);
    }
    let mut hv = measurements8_new();
    let ghost mut done: Seq<XdrMV> = Seq::empty();
    let mut g: usize = 0;
    loop
        invariant
            n == sp.len(),
            n == f.len(),
            n >= 1,
            s@ == d@,
            d@ == sentence.data@,
            sentence.message_id == SentenceType::XDR,
            f == split_fields(s@),
            spans_match(s@, sp@),
            g < n,
            xdr_from(f, 0) == (match xdr_from(f, g as int) {
                XdrOutcome::Done(r) => XdrOutcome::Done(done + r),
                o => o,
            }),
            measurements8(hv).len() == if done.len() < 8 { done.len() } else { 8 },
            forall|j: int| 0 <= j < measurements8(hv).len() ==> xdr_m_is(#[trigger] measurements8(hv)[j], done[j]),
        decreases n - g,
    {
        if g == n - 1 && sp[g].0 == sp[g].1 {
            assert(done + Seq::<XdrMV>::empty() =~= done);
            return Ok(XdrData { measurements: hv });
        }
        let m = match read_group(d, &s, &sp, g) {
            Some(m) => m,
            None => {
                return Err(Error::ParsingError);
            },
        };
        let ghost mv = xdr_mv(f, g as int);
        let ghost old_hv = measurements8(hv);
        let _ = measurements8_push(&mut hv, m);
        let ghost old_done = done;
        proof {
            done = done.push(mv);
            assert forall|j: int| 0 <= j < measurements8(hv).len() implies xdr_m_is(#[trigger] measurements8(hv)[j], done[j]) by {
                if j < old_hv.len() {
                    assert(done[j] == old_done[j]);
                }
            }
        }
        if n - g > 4 {
            assert(xdr_from(f, 0) == (match xdr_from(f, g + 4) {
                XdrOutcome::Done(r) => XdrOutcome::Done(done + r),
                o => o,
            })) by {
                match xdr_from(f, g + 4) {
                    XdrOutcome::Done(r) => {
                        assert(old_done + (seq![mv] + r) =~= done + r);
                    },
                    _ => {},
                }
            }
            g = g + 4;
        } else {
            assert(old_done + seq![mv] =~= done);
            return Ok(XdrData { measurements: hv });
        }
    }
}

/// The text of one measurement: `type,value,units,name`.
pub open spec fn xdr_m_text(m: XdrMeasurement) -> Seq<char> {
    (match m.transducer_type { Some(c) => seq![c], None => Seq::empty() }) + seq![','] + opt_number_text(m.value)
        + seq![','] + (match m.units { Some(c) => seq![c], None => Seq::empty() }) + seq![','] + chars16(m.name)
}

/// The measurements written one after another, separated by commas.
pub open spec fn xdr_text(ms: Seq<XdrMeasurement>) -> Seq<char>
    decreases ms.len(),
{
    if ms.len() == 0 {
        Seq::empty()
    } else if ms.len() == 1 {
        xdr_m_text(ms[0])
    } else {
        xdr_text(ms.drop_last()) + seq![','] + xdr_m_text(ms.last())
    }
}

fn write_measurement(f: &mut String, m: &XdrMeasurement)
    ensures
        final(f)@ == old(f)@ + xdr_m_text(*m),
{
    if let Some(t) = m.transducer_type {
        push_char(f, t);
    }
    push_char(f, ',');
    push_opt_number(f, &m.value);
    push_char(f, ',');
    if let Some(u) = m.units {
        push_char(f, u);
    }
    push_char(f, ',');
    push_str(f, as_str16(&m.name));
    assert(f@ =~= old(f)@ + xdr_m_text(*m));
}

impl GenerateNmeaBody for XdrData {
    open spec fn spec_sentence_type(&self) -> SentenceType {
        SentenceType::XDR
    }

    open spec fn spec_body(&self) -> Seq<char> {
        xdr_text(measurements8(self.measurements))
    }

    fn sentence_type(&self) -> (t: SentenceType) {
        SentenceType::XDR
    }

    fn write_body(&self, f: &mut String) {
        let ms = measurements8_as_slice(&self.measurements);
        let mut i: usize = 0;
        while i < ms.len()
            invariant
                i <= ms@.len(),
                ms@ == measurements8(self.measurements),
                f@ == old(f)@ + xdr_text(ms@.take(i as int)),
            decreases ms@.len() - i,
        {
            let ghost before = f@;
            if i > 0 {
                push_char(f, ',');
            }
            let m = &ms[i];
            write_measurement(f, m);
            proof {
                let t = ms@.take(i + 1);
                assert(t.drop_last() =~= ms@.take(i as int));
                assert(t.last() == *m);
                if i == 0 {
                    assert(f@ =~= old(f)@ + xdr_text(t));
                } else {
                    assert(f@ =~= before + seq![','] + xdr_m_text(*m));
                    assert(f@ =~= old(f)@ + xdr_text(t));
                }
            }
            i += 1;
        }
        assert(ms@.take(ms@.len() as int) =~= ms@);
    }
}

/// An optional character as written: nothing when absent.
pub open spec fn xdr_opt_char(o: Option<char>) -> Seq<char> {
    match o {
        Some(c) => seq![c],
        None => Seq::empty(),
    }
}

/// The four fields of a written measurement.
pub open spec fn xdr_m_fields(m: XdrMeasurement) -> Seq<Seq<char>> {
    seq![xdr_opt_char(m.transducer_type), opt_number_text(m.value), xdr_opt_char(m.units), chars16(m.name)]
}

/// The fields of written measurements: four for each, or one empty field
/// when there are none.
pub open spec fn xdr_fields(ms: Seq<XdrMeasurement>) -> Seq<Seq<char>>
    decreases ms.len(),
{
    if ms.len() == 0 {
        seq![Seq::empty()]
    } else if ms.len() == 1 {
        xdr_m_fields(ms[0])
    } else {
        xdr_fields(ms.drop_last()) + xdr_m_fields(ms.last())
    }
}

/// A measurement that the library writes in a form it reads back.
pub open spec fn valid_measurement(m: XdrMeasurement) -> bool {
    &&& crate::readback::valid_opt_char(m.transducer_type)
    &&& crate::readback::valid_opt_number(m.value)
    &&& crate::readback::valid_opt_char(m.units)
    &&& crate::readback::valid_text(chars16(m.name), 16)
}

/// The content of a measurement.
pub open spec fn xdr_m_view(m: XdrMeasurement) -> XdrMV {
    XdrMV {
        transducer_type: m.transducer_type,
        value: crate::text::opt_num_view(m.value),
        units: m.units,
        name: chars16(m.name),
    }
}

/// The text of a written measurement is its four fields joined with
/// commas, none holding a comma or `*`.
proof fn lemma_xdr_m_parts(m: XdrMeasurement)
    requires
        valid_measurement(m),
    ensures
        xdr_m_text(m) == xdr_opt_char(m.transducer_type) + seq![','] + opt_number_text(m.value) + seq![','] + xdr_opt_char(m.units) + seq![','] + chars16(m.name),
        crate::readback::plain_fields(xdr_m_fields(m)),
        forall|r: int| 0 <= r < 4 ==> !(#[trigger] xdr_m_fields(m)[r]).contains(','),
{
    assert(xdr_m_text(m) =~= xdr_opt_char(m.transducer_type) + seq![','] + opt_number_text(m.value) + seq![','] + xdr_opt_char(m.units) + seq![','] + chars16(m.name));
    crate::readback::lemma_opt_number_plain(m.value);
    match m.transducer_type {
        Some(c) => crate::readback::lemma_char_plain(c),
        None => {},
    }
    match m.units {
        Some(c) => crate::readback::lemma_char_plain(c),
        None => {},
    }
    let f = xdr_m_fields(m);
    assert(f[0] == xdr_opt_char(m.transducer_type) && f[1] == opt_number_text(m.value) && f[2] == xdr_opt_char(m.units) && f[3] == chars16(m.name));
}

/// Written measurements split into their fields, none holding `*`.
proof fn lemma_xdr_split(ms: Seq<XdrMeasurement>)
    requires
        forall|j: int| 0 <= j < ms.len() ==> valid_measurement(#[trigger] ms[j]),
    ensures
        split_fields(xdr_text(ms)) == xdr_fields(ms),
        crate::readback::plain_fields(xdr_fields(ms)),
    decreases ms.len(),
{
    if ms.len() == 0 {
        crate::readback::lemma_split_fields_single(Seq::<char>::empty());
        assert(crate::readback::plain_fields(xdr_fields(ms))) by {
            assert(xdr_fields(ms)[0] =~= Seq::<char>::empty());
        }
    } else if ms.len() == 1 {
        let m = ms[0];
        lemma_xdr_m_parts(m);
        let f = xdr_m_fields(m);
        crate::readback::lemma_split_fields_4(f[0], f[1], f[2], f[3]);
        assert(seq![f[0], f[1], f[2], f[3]] =~= f);
    } else {
        let p = ms.drop_last();
        let m = ms.last();
        assert forall|j: int| 0 <= j < p.len() implies valid_measurement(#[trigger] p[j]) by {
            assert(p[j] == ms[j]);
        }
        lemma_xdr_split(p);
        lemma_xdr_m_parts(m);
        let f = xdr_m_fields(m);
        let a = xdr_text(p);
        assert(xdr_text(ms) =~= a + seq![','] + f[0] + seq![','] + f[1] + seq![','] + f[2] + seq![','] + f[3]);
        crate::readback::lemma_split_push(a, f[0]);
        crate::readback::lemma_split_push(a + seq![','] + f[0], f[1]);
        crate::readback::lemma_split_push(a + seq![','] + f[0] + seq![','] + f[1], f[2]);
        crate::readback::lemma_split_push(a + seq![','] + f[0] + seq![','] + f[1] + seq![','] + f[2], f[3]);
        assert(xdr_fields(p).push(f[0]).push(f[1]).push(f[2]).push(f[3]) =~= xdr_fields(ms));
        let g = xdr_fields(ms);
        assert forall|i: int| 0 <= i < g.len() implies !(#[trigger] g[i]).contains('*') && vstd::utf8::is_ascii_chars(g[i]) by {
            if i < xdr_fields(p).len() {
                assert(g[i] == xdr_fields(p)[i]);
            } else {
                assert(g[i] == f[i - xdr_fields(p).len()]);
            }
        }
    }
}

/// The fields of one or more written measurements: four for each, in
/// order.
proof fn lemma_xdr_fields_index(ms: Seq<XdrMeasurement>)
    requires
        ms.len() >= 1,
    ensures
        xdr_fields(ms).len() == 4 * ms.len(),
        forall|j: int| 0 <= j < ms.len() ==> xdr_fields(ms).subrange(4 * j, 4 * j + 4) == xdr_m_fields(#[trigger] ms[j]),
    decreases ms.len(),
{
    let f = xdr_fields(ms);
    if ms.len() > 1 {
        let p = ms.drop_last();
        lemma_xdr_fields_index(p);
        assert(f == xdr_fields(p) + xdr_m_fields(ms.last()));
        assert forall|j: int| 0 <= j < ms.len() implies f.subrange(4 * j, 4 * j + 4) == xdr_m_fields(#[trigger] ms[j]) by {
            if j < p.len() {
                assert(p[j] == ms[j]);
                assert(f.subrange(4 * j, 4 * j + 4) =~= xdr_fields(p).subrange(4 * j, 4 * j + 4));
            } else {
                assert(f.subrange(4 * j, 4 * j + 4) =~= xdr_m_fields(ms.last()));
            }
        }
    } else {
        assert forall|j: int| 0 <= j < ms.len() implies f.subrange(4 * j, 4 * j + 4) == xdr_m_fields(#[trigger] ms[j]) by {
            assert(j == 0);
            assert(f.subrange(0, 4) =~= xdr_m_fields(ms[0]));
        }
    }
}

/// Reading the groups of written measurements from measurement `i` on
/// gives their contents.
proof fn lemma_xdr_from(ms: Seq<XdrMeasurement>, i: int)
    requires
        ms.len() >= 1,
        0 <= i < ms.len(),
        forall|j: int| 0 <= j < ms.len() ==> valid_measurement(#[trigger] ms[j]),
    ensures
        xdr_from(xdr_fields(ms), 4 * i) == XdrOutcome::Done(ms.subrange(i, ms.len() as int).map_values(|m: XdrMeasurement| xdr_m_view(m))),
    decreases ms.len() - i,
{
    let f = xdr_fields(ms);
    let g = 4 * i;
    let m = ms[i];
    lemma_xdr_fields_index(ms);
    let q = f.subrange(g, g + 4);
    assert(q == xdr_m_fields(m));
    assert(f[g] == q[0] && f[g + 1] == q[1] && f[g + 2] == q[2] && f[g + 3] == q[3]);
    crate::readback::lemma_opt_number_reads_back(m.value);
    crate::readback::lemma_text_reads_back(chars16(m.name), 16);
    assert(xdr_group_ok(f, g));
    assert(xdr_name_text(f, g) == chars16(m.name));
    assert(xdr_mv(f, g) == xdr_m_view(m));
    if i + 1 < ms.len() {
        lemma_xdr_from(ms, i + 1);
        assert(4 * (i + 1) == g + 4);
        assert(seq![xdr_m_view(m)] + ms.subrange(i + 1, ms.len() as int).map_values(|m: XdrMeasurement| xdr_m_view(m)) =~= ms.subrange(i, ms.len() as int).map_values(|m: XdrMeasurement| xdr_m_view(m)));
    } else {
        assert(seq![xdr_m_view(m)] =~= ms.subrange(i, ms.len() as int).map_values(|m: XdrMeasurement| xdr_m_view(m)));
    }
}

/// Written XDR measurements read back as themselves, when there are at
/// most eight and each has characters other than comma and `*`, a decimal
/// literal and an ASCII name of at most 16 bytes free of commas and `*`.
pub proof fn lemma_xdr_reads_back(d: XdrData)
    requires
        measurements8(d.measurements).len() <= 8,
        forall|j: int| 0 <= j < measurements8(d.measurements).len() ==> valid_measurement(#[trigger] measurements8(d.measurements)[j]),
    ensures
        xdr_data_result(xdr_text(measurements8(d.measurements)), Ok(d)),
        !xdr_text(measurements8(d.measurements)).contains('*'),
        vstd::utf8::is_ascii_chars(xdr_text(measurements8(d.measurements))),
{
    let ms = measurements8(d.measurements);
    lemma_xdr_split(ms);
    crate::readback::lemma_plain_from_fields(xdr_text(ms));
    if ms.len() == 0 {
        assert(xdr_fields(ms).len() == 1 && xdr_fields(ms)[0].len() == 0);
    } else {
        lemma_xdr_from(ms, 0);
        assert(ms.subrange(0, ms.len() as int) =~= ms);
    }
}

} // verus!
