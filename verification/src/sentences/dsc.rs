//! DSC - Digital Selective Calling Information:
//! `$CDDSC,xx,xxxxxxxxxx,xx,xx,xx,xxxxxxxxxx,xxxx,xxxxxxxxxx,xx,x,x*hh`
//! 1. Format specifier (two digits, the leading `1` of the ITU symbol
//! omitted); 2. MMSI of the sender (ten digits, the last a check digit);
//! 3. Category; 4. First telecommand or nature of distress; 5. Second
//! telecommand or type of communication; 6. Position (`QDDMMDDDMM`) or other
//! data; 7. UTC time `HHMM`; 8. Second MMSI; 9. Additional information;
//! 10. Acknowledgment type; 11. Expansion indicator.
//!
//! Text fields are cut to the capacity of the string that holds them:
//! ten bytes, four for the time, at the last character boundary that fits.

use vstd::prelude::*;
use vstd::string::*;
use arrayvec::ArrayString;

use crate::bounded::{array_string10, array_string4, as_str10, as_str4, chars10, chars4};
use crate::error::Error;
use crate::generate::GenerateNmeaBody;
use crate::parse::NmeaSentence;
use crate::position::{
    opt_uint_field, padded, push_padded, read_opt_uint_text, read_uint_text, u32_max, uint_text,
};
use crate::sentence_type::SentenceType;
use crate::strings::{push_char, push_str};
use crate::text::{
    byte_cut, byte_prefix, chars_of, cut_at_bytes, cut_target, field_spans, fit_at_bytes,
    fit_prefix, lemma_utf8_len_is_encoding_len, split_fields, utf8_len, win,
};

verus! {

/// The data of a DSC sentence.
#[derive(Debug, Clone, PartialEq)]
pub struct DscData {
    /// Format specifier code (two digits, the leading `1` of the ITU symbol omitted).
    pub format_specifier: u8,
    /// MMSI of the sender, check digit included.
    pub mmsi: ArrayString<10>,
    /// Category code (00 routine, 08 safety, 10 urgency, 12 distress).
    pub category: Option<u8>,
    pub first_telecommand: Option<u8>,
    pub second_telecommand: Option<u8>,
    /// Position or other data, as written.
    pub position_or_data: ArrayString<10>,
    /// UTC time as `HHMM`.
    pub time_utc: ArrayString<4>,
    /// Second MMSI (receiver, or vessel in distress).
    pub mmsi_2: ArrayString<10>,
    pub additional_info: ArrayString<10>,
    /// Acknowledgment type (`R`, `B`, `S`, ...).
    pub ack_type: Option<char>,
    /// Expansion indicator (`E` when an expansion follows, `S` otherwise).
    pub expansion_indicator: Option<char>,
}

/// A numeric field of the sentence: empty, or a number of at most 255.
pub open spec fn dsc_num(f: Seq<char>) -> Option<Option<nat>> {
    opt_uint_field(f, 255)
}

/// The DSC grammar over the comma-separated fields. The text fields take any
/// text and are cut to their capacity; the acknowledgment field holds at
/// most one character, which must be followed by a comma.
pub open spec fn dsc_accepts(f: Seq<Seq<char>>) -> bool {
    &&& f.len() >= 10
    &&& dsc_num(f[0]) matches Some(Some(_))
    &&& dsc_num(f[2]) is Some
    &&& dsc_num(f[3]) is Some
    &&& dsc_num(f[4]) is Some
    &&& (f[9].len() == 0 || (f[9].len() == 1 && f.len() >= 11))
}

pub open spec fn opt_u8_of(o: Option<u8>, v: Option<nat>) -> bool {
    match (o, v) {
        (Some(x), Some(y)) => x as nat == y,
        (None, None) => true,
        _ => false,
    }
}

/// What reading the data `data` of a DSC sentence gives.
pub open spec fn dsc_data_result(data: Seq<char>, r: Result<DscData, Error>) -> bool {
    let f = split_fields(data);
    if dsc_accepts(f) {
        r matches Ok(d) && {
            &&& Some(Some(d.format_specifier as nat)) == dsc_num(f[0])
            &&& chars10(d.mmsi) == fit_prefix(f[1], 10)
            &&& opt_u8_of(d.category, dsc_num(f[2]).unwrap())
            &&& opt_u8_of(d.first_telecommand, dsc_num(f[3]).unwrap())
            &&& opt_u8_of(d.second_telecommand, dsc_num(f[4]).unwrap())
            &&& chars10(d.position_or_data) == fit_prefix(f[5], 10)
            &&& chars4(d.time_utc) == fit_prefix(f[6], 4)
            &&& chars10(d.mmsi_2) == fit_prefix(f[7], 10)
            &&& chars10(d.additional_info) == fit_prefix(f[8], 10)
            &&& d.ack_type == if f[9].len() == 1 { Some(f[9][0]) } else { None }
            &&& d.expansion_indicator == if f.len() > 10 && f[10].len() > 0 {
                Some(f[10][0])
            } else {
                None
            }
        }
    } else {
        r == Err::<DscData, Error>(Error::ParsingError)
    }
}

/// What [`parse_dsc`] gives for a sentence.
pub open spec fn dsc_result(s: NmeaSentence, r: Result<DscData, Error>) -> bool {
    if s.message_id != SentenceType::DSC {
        r == Err::<DscData, Error>(
            Error::WrongSentenceHeader { expected: SentenceType::DSC, found: s.message_id },
        )
    } else {
        dsc_data_result(s.data@, r)
    }
}

/// Cuts the window `s[a..b]` of `data` to at most ten bytes, at the
/// character boundary at or before the tenth byte.
fn cut10(data: &str, s: &Vec<char>, a: usize, b: usize) -> (r: ArrayString<10>)
    requires
        s@ == data@,
        a <= b <= s.len(),
    ensures
        chars10(r) == fit_prefix(win(s@, a as int, b as int), 10),
{
    let ghost t = win(s@, a as int, b as int);
    let k = fit_at_bytes(s, a, b, 10);
    let piece = data.substring_char(a, a + k);
    proof {
        lemma_utf8_len_is_encoding_len(piece@);
        assert(piece@ =~= t.take(k as int));
    }
    match array_string10(piece) {
        Some(x) => x,
        None => vstd::pervasive::unreached(),
    }
}

/// Cuts the window `s[a..b]` of `data` to at most four bytes, at the
/// character boundary at or before the fourth byte.
fn cut4(data: &str, s: &Vec<char>, a: usize, b: usize) -> (r: ArrayString<4>)
    requires
        s@ == data@,
        a <= b <= s.len(),
    ensures
        chars4(r) == fit_prefix(win(s@, a as int, b as int), 4),
{
    let ghost t = win(s@, a as int, b as int);
    let k = fit_at_bytes(s, a, b, 4);
    let piece = data.substring_char(a, a + k);
    proof {
        lemma_utf8_len_is_encoding_len(piece@);
        assert(piece@ =~= t.take(k as int));
    }
    match array_string4(piece) {
        Some(x) => x,
        None => vstd::pervasive::unreached(),
    }
}

/// Reads the data of a DSC sentence.
pub fn parse_dsc(sentence: NmeaSentence<'_>) -> (r: Result<DscData, Error>)
    ensures
        dsc_result(sentence, r),
{
    if sentence.message_id != SentenceType::DSC {
        return Err(Error::WrongSentenceHeader { expected: SentenceType::DSC, found: sentence.message_id });
    }
    let d = sentence.data;
    let s = chars_of(d);
    let sp = field_spans(&s);
    proof {
        crate::text::lemma_split_fields_nonempty(s@);
    }
    let format_specifier = match read_opt_uint_text(&s, sp[0].0, sp[0].1, 255) {
        Some(Some(v)) => v as u8,
        _ => return Err(Error::ParsingError),
    };
    if sp.len() < 2 {
        return Err(Error::ParsingError);
    }
    let mmsi = cut10(d, &s, sp[1].0, sp[1].1);
    if sp.len() < 5 {
        return Err(Error::ParsingError);
    }
    let category = match read_opt_uint_text(&s, sp[2].0, sp[2].1, 255) {
        Some(o) => match o {
            Some(v) => Some(v as u8),
            None => None,
        },
        None => return Err(Error::ParsingError),
    };
    let first_telecommand = match read_opt_uint_text(&s, sp[3].0, sp[3].1, 255) {
        Some(o) => match o {
            Some(v) => Some(v as u8),
            None => None,
        },
        None => return Err(Error::ParsingError),
    };
    let second_telecommand = match read_opt_uint_text(&s, sp[4].0, sp[4].1, 255) {
        Some(o) => match o {
            Some(v) => Some(v as u8),
            None => None,
        },
        None => return Err(Error::ParsingError),
    };
    if sp.len() < 6 {
        return Err(Error::ParsingError);
    }
    let position_or_data = cut10(d, &s, sp[5].0, sp[5].1);
    if sp.len() < 7 {
        return Err(Error::ParsingError);
    }
    let time_utc = cut4(d, &s, sp[6].0, sp[6].1);
    if sp.len() < 8 {
        return Err(Error::ParsingError);
    }
    let mmsi_2 = cut10(d, &s, sp[7].0, sp[7].1);
    if sp.len() < 9 {
        return Err(Error::ParsingError);
    }
    let additional_info = cut10(d, &s, sp[8].0, sp[8].1);
    if sp.len() < 10 {
        return Err(Error::ParsingError);
    }
    let ack_len = sp[9].1 - sp[9].0;
    if ack_len > 1 || (ack_len == 1 && sp.len() < 11) {
        return Err(Error::ParsingError);
    }
    let ack_type = if ack_len == 1 { Some(s[sp[9].0]) } else { None };
    let expansion_indicator = if sp.len() > 10 && sp[10].0 < sp[10].1 { Some(s[sp[10].0]) } else { None };
    Ok(
        DscData {
            format_specifier,
            mmsi,
            category,
            first_telecommand,
            second_telecommand,
            position_or_data,
            time_utc,
            mmsi_2,
            additional_info,
            ack_type,
            expansion_indicator,
        },
    )
}

/// A position field holds ten ASCII characters, the first a quadrant digit
/// from `0` to `3`.
pub open spec fn position_field_shape(p: Seq<char>) -> bool {
    &&& p.len() == 10
    &&& forall|j: int| 0 <= j < 10 ==> (#[trigger] p[j] as u32) < 0x80
    &&& '0' <= p[0] <= '3'
}

/// The characters `v[a..b]` as a string.
fn window_text(v: &Vec<char>, a: usize, b: usize) -> (r: String)
    requires
        a <= b <= v.len(),
    ensures
        r@ == v@.subrange(a as int, b as int),
{
    let mut r = String::new();
    let mut i: usize = a;
    while i < b
        invariant
            a <= i <= b <= v.len(),
            r@ == v@.subrange(a as int, i as int),
        decreases b - i,
    {
        push_char(&mut r, v[i]);
        assert(r@ =~= v@.subrange(a as int, i + 1));
        i += 1;
    }
    r
}

/// The number of the first nine bytes of an MMSI field, when it has that many.
pub open spec fn sender_mmsi_of(m: Seq<char>) -> Option<nat> {
    if utf8_len(m) >= 9 {
        match byte_prefix(m, 9) {
            Some(p) => uint_text(p, u32_max()),
            None => None,
        }
    } else {
        None
    }
}

impl DscData {
    /// The sender's nine-digit MMSI, without the check digit: the first nine
    /// bytes of the MMSI field read as an unsigned number, or `None` when
    /// the field is shorter or they are no number.
    pub fn sender_mmsi(&self) -> (r: Option<u32>)
        requires
            utf8_len(chars10(self.mmsi)) >= 9 ==> exists|k: int| byte_cut(chars10(self.mmsi), 9, k),
        ensures
            match r {
                Some(v) => sender_mmsi_of(chars10(self.mmsi)) == Some(v as nat),
                None => sender_mmsi_of(chars10(self.mmsi)) is None,
            },
    {
        let t = as_str10(&self.mmsi);
        let v = chars_of(t);
        proof {
            lemma_utf8_len_is_encoding_len(t@);
        }
        if t.as_bytes().len() < 9 {
            return None;
        }
        let ghost m = chars10(self.mmsi);
        assert(cut_target(m, 9) == 9);
        let k = match cut_at_bytes(&v, 0, v.len(), 9) {
            Some(k) => k,
            None => {
                assert(v@.subrange(0, v@.len() as int) =~= m);
                assert(false);
                return None;
            },
        };
        assert(v@.subrange(0, v@.len() as int) =~= m);
        match read_uint_text(&v, 0, k, 4294967295) {
            Some(n) => {
                assert(win(v@, 0, k as int) =~= m.take(k as int));
                Some(n as u32)
            },
            None => {
                assert(win(v@, 0, k as int) =~= m.take(k as int));
                None
            },
        }
    }

    /// The parts of a position in the position field, `QDDMMDDDMM`: the
    /// quadrant (0 north-east, 1 north-west, 2 south-east, 3 south-west)
    /// and the texts of the latitude's degrees and minutes and of the
    /// longitude's degrees and minutes. `None` when the field is not ten
    /// ASCII characters starting with a quadrant digit.
    pub fn position_fields(&self) -> (r: Option<(u8, String, String, String, String)>)
        ensures
            ({
                let p = chars10(self.position_or_data);
                match r {
                    Some((q, lat_deg, lat_min, lon_deg, lon_min)) => {
                        &&& position_field_shape(p)
                        &&& q as u32 == (p[0] as u32) - ('0' as u32)
                        &&& lat_deg@ == p.subrange(1, 3)
                        &&& lat_min@ == p.subrange(3, 5)
                        &&& lon_deg@ == p.subrange(5, 8)
                        &&& lon_min@ == p.subrange(8, 10)
                    },
                    None => !position_field_shape(p),
                }
            }),
    {
        let t = as_str10(&self.position_or_data);
        let v = chars_of(t);
        if v.len() != 10 {
            return None;
        }
        let mut i: usize = 0;
        while i < 10
            invariant
                v.len() == 10,
                v@ == chars10(self.position_or_data),
                i <= 10,
                forall|j: int| 0 <= j < i ==> (v@[j] as u32) < 0x80,
            decreases 10 - i,
        {
            if (v[i] as u32) >= 0x80 {
                return None;
            }
            i += 1;
        }
        let c = v[0];
        if !('0' <= c && c <= '3') {
            return None;
        }
        let q = ((c as u32) - ('0' as u32)) as u8;
        Some((q, window_text(&v, 1, 3), window_text(&v, 3, 5), window_text(&v, 5, 8), window_text(&v, 8, 10)))
    }

    /// [`DscData::sender_mmsi`] where it can be asked: `None` when the MMSI
    /// field holds nine bytes or more and its first nine bytes end inside a
    /// character.
    pub fn try_sender_mmsi(&self) -> (r: Option<Option<u32>>)
        ensures
            r is None <==> (utf8_len(chars10(self.mmsi)) >= 9 && !exists|k: int| byte_cut(chars10(self.mmsi), 9, k)),
            r matches Some(Some(v)) ==> sender_mmsi_of(chars10(self.mmsi)) == Some(v as nat),
            r matches Some(None) ==> sender_mmsi_of(chars10(self.mmsi)) is None,
    {
        let t = as_str10(&self.mmsi);
        let v = chars_of(t);
        proof {
            lemma_utf8_len_is_encoding_len(t@);
        }
        let ghost m = chars10(self.mmsi);
        assert(v@.subrange(0, v@.len() as int) =~= m);
        if t.as_bytes().len() >= 9 {
            assert(cut_target(m, 9) == 9);
            if cut_at_bytes(&v, 0, v.len(), 9).is_none() {
                return None;
            }
        }
        Some(self.sender_mmsi())
    }
}

/// An optional number written in at least two digits, nothing when absent.
pub open spec fn opt_padded2(o: Option<u8>) -> Seq<char> {
    match o {
        Some(v) => padded(v as nat, 2),
        None => Seq::empty(),
    }
}

/// An optional character, nothing when absent.
pub open spec fn opt_char(o: Option<char>) -> Seq<char> {
    match o {
        Some(c) => seq![c],
        None => Seq::empty(),
    }
}

/// The fields of a DSC value up to the second telecommand.
pub open spec fn dsc_head(d: DscData) -> Seq<char> {
    padded(d.format_specifier as nat, 2) + seq![','] + chars10(d.mmsi) + seq![','] + opt_padded2(
        d.category,
    ) + seq![','] + opt_padded2(d.first_telecommand) + seq![','] + opt_padded2(d.second_telecommand)
        + seq![',']
}

/// The fields of a DSC value from the position on.
pub open spec fn dsc_tail(d: DscData) -> Seq<char> {
    chars10(d.position_or_data) + seq![','] + chars4(d.time_utc) + seq![','] + chars10(d.mmsi_2)
        + seq![','] + chars10(d.additional_info) + seq![','] + opt_char(d.ack_type) + seq![',']
        + opt_char(d.expansion_indicator)
}

/// The body a DSC value is written as.
pub open spec fn dsc_body(d: DscData) -> Seq<char> {
    dsc_head(d) + dsc_tail(d)
}

fn write_opt_padded2(f: &mut String, o: Option<u8>)
    ensures
        final(f)@ == old(f)@ + opt_padded2(o),
{
    match o {
        Some(v) => push_padded(f, v as u64, 2),
        None => {
            assert(old(f)@ + Seq::<char>::empty() =~= old(f)@);
        },
    }
}

fn write_opt_char(f: &mut String, o: Option<char>)
    ensures
        final(f)@ == old(f)@ + opt_char(o),
{
    match o {
        Some(c) => push_char(f, c),
        None => {},
    }
    assert(f@ =~= old(f)@ + opt_char(o));
}

fn write_dsc_head(f: &mut String, d: &DscData)
    ensures
        final(f)@ == old(f)@ + dsc_head(*d),
{
    push_padded(f, d.format_specifier as u64, 2);
    push_char(f, ',');
    push_str(f, as_str10(&d.mmsi));
    push_char(f, ',');
    write_opt_padded2(f, d.category);
    push_char(f, ',');
    write_opt_padded2(f, d.first_telecommand);
    push_char(f, ',');
    write_opt_padded2(f, d.second_telecommand);
    push_char(f, ',');
    assert(f@ =~= old(f)@ + dsc_head(*d));
}

fn write_dsc_tail(f: &mut String, d: &DscData)
    ensures
        final(f)@ == old(f)@ + dsc_tail(*d),
{
    push_str(f, as_str10(&d.position_or_data));
    push_char(f, ',');
    push_str(f, as_str4(&d.time_utc));
    push_char(f, ',');
    push_str(f, as_str10(&d.mmsi_2));
    push_char(f, ',');
    push_str(f, as_str10(&d.additional_info));
    push_char(f, ',');
    write_opt_char(f, d.ack_type);
    push_char(f, ',');
    write_opt_char(f, d.expansion_indicator);
    assert(f@ =~= old(f)@ + dsc_tail(*d));
}

impl GenerateNmeaBody for DscData {
    open spec fn spec_sentence_type(&self) -> SentenceType {
        SentenceType::DSC
    }

    open spec fn spec_body(&self) -> Seq<char> {
        dsc_body(*self)
    }

    fn sentence_type(&self) -> (t: SentenceType) {
        SentenceType::DSC
    }

    fn write_body(&self, f: &mut String) {
        write_dsc_head(f, self);
        write_dsc_tail(f, self);
        assert(f@ =~= old(f)@ + dsc_body(*self));
    }
}

proof fn lemma_padded2_reads_back(v: u8)
    ensures
        dsc_num(padded(v as nat, 2)) == Some(Some(v as nat)),
        !padded(v as nat, 2).contains(','),
        !padded(v as nat, 2).contains('*'),
        vstd::utf8::is_ascii_chars(padded(v as nat, 2)),
{
    crate::readback::lemma_decimal_len(v as nat);
    if crate::strings::decimal(v as nat).len() <= 2 {
        crate::readback::lemma_padded_reads_back(v as nat, 2, 255);
    } else {
        crate::readback::lemma_padded_reads_back(v as nat, 3, 255);
        assert(padded(v as nat, 2) == padded(v as nat, 3));
    }
}

/// An optional number padded to two digits reads back as a numeric field.
proof fn lemma_opt_padded2_reads_back(o: Option<u8>)
    ensures
        dsc_num(opt_padded2(o)) is Some,
        opt_u8_of(o, dsc_num(opt_padded2(o)).unwrap()),
        !opt_padded2(o).contains(','),
        !opt_padded2(o).contains('*'),
        vstd::utf8::is_ascii_chars(opt_padded2(o)),
{
    match o {
        Some(v) => lemma_padded2_reads_back(v),
        None => {},
    }
}

/// An optional character that reads back holds no comma or `*` and is
/// ASCII.
proof fn lemma_opt_char_plain(o: Option<char>)
    requires
        crate::readback::valid_opt_char(o),
    ensures
        !opt_char(o).contains(','),
        !opt_char(o).contains('*'),
        vstd::utf8::is_ascii_chars(opt_char(o)),
{
    match o {
        Some(c) => crate::readback::lemma_char_plain(c),
        None => {},
    }
}

/// The body of a DSC value is its parts joined with commas.
#[verifier::spinoff_prover]
proof fn lemma_dsc_body_parts(d: DscData)
    ensures
        dsc_body(d) == padded(d.format_specifier as nat, 2) + seq![','] + chars10(d.mmsi) + seq![','] + opt_padded2(d.category) + seq![','] + opt_padded2(d.first_telecommand) + seq![','] + opt_padded2(d.second_telecommand) + seq![','] + chars10(d.position_or_data) + seq![','] + chars4(d.time_utc) + seq![','] + chars10(d.mmsi_2) + seq![','] + chars10(d.additional_info) + seq![','] + opt_char(d.ack_type) + seq![','] + opt_char(d.expansion_indicator),
{
    let t0 = padded(d.format_specifier as nat, 2);
    let t1 = chars10(d.mmsi);
    let t2 = opt_padded2(d.category);
    let t3 = opt_padded2(d.first_telecommand);
    let t4 = opt_padded2(d.second_telecommand);
    let t5 = chars10(d.position_or_data);
    let t6 = chars4(d.time_utc);
    let t7 = chars10(d.mmsi_2);
    let t8 = chars10(d.additional_info);
    let t9 = opt_char(d.ack_type);
    let t10 = opt_char(d.expansion_indicator);
    
    assert(t0 + seq![','] + t1 + seq![','] + t2 + seq![','] + t3 + seq![','] + t4 + seq![','] + t5 + seq![','] + t6 + seq![','] + t7 + seq![','] + t8 + seq![','] + t9 + seq![','] + t10 =~= dsc_body(d));
}

/// The fields of a written DSC value are its parts, none
/// holding a comma or `*`.
#[verifier::spinoff_prover]
proof fn lemma_dsc_fields(d: DscData)
    requires
        crate::readback::valid_text(chars10(d.mmsi), 10),
        crate::readback::valid_text(chars10(d.position_or_data), 10),
        crate::readback::valid_text(chars4(d.time_utc), 4),
        crate::readback::valid_text(chars10(d.mmsi_2), 10),
        crate::readback::valid_text(chars10(d.additional_info), 10),
        crate::readback::valid_opt_char(d.ack_type),
        crate::readback::valid_opt_char(d.expansion_indicator),
    ensures
        split_fields(dsc_body(d)) == seq![padded(d.format_specifier as nat, 2), chars10(d.mmsi), opt_padded2(d.category), opt_padded2(d.first_telecommand), opt_padded2(d.second_telecommand), chars10(d.position_or_data), chars4(d.time_utc), chars10(d.mmsi_2), chars10(d.additional_info), opt_char(d.ack_type), opt_char(d.expansion_indicator)],
{
    let t0 = padded(d.format_specifier as nat, 2);
    let t1 = chars10(d.mmsi);
    let t2 = opt_padded2(d.category);
    let t3 = opt_padded2(d.first_telecommand);
    let t4 = opt_padded2(d.second_telecommand);
    let t5 = chars10(d.position_or_data);
    let t6 = chars4(d.time_utc);
    let t7 = chars10(d.mmsi_2);
    let t8 = chars10(d.additional_info);
    let t9 = opt_char(d.ack_type);
    let t10 = opt_char(d.expansion_indicator);
    lemma_padded2_reads_back(d.format_specifier);
    lemma_opt_padded2_reads_back(d.category);
    lemma_opt_padded2_reads_back(d.first_telecommand);
    lemma_opt_padded2_reads_back(d.second_telecommand);
    lemma_opt_char_plain(d.ack_type);
    lemma_opt_char_plain(d.expansion_indicator);
    crate::readback::lemma_split_fields_11(t0, t1, t2, t3, t4, t5, t6, t7, t8, t9, t10);
    lemma_dsc_body_parts(d);
}

/// A written DSC value reads back as itself, when its texts are ASCII, free
/// of commas and `*` and fit their strings, and its characters are neither
/// comma nor `*`.
#[verifier::spinoff_prover]
#[verifier::rlimit(50)]
pub proof fn lemma_dsc_reads_back(d: DscData)
    requires
        crate::readback::valid_text(chars10(d.mmsi), 10),
        crate::readback::valid_text(chars10(d.position_or_data), 10),
        crate::readback::valid_text(chars4(d.time_utc), 4),
        crate::readback::valid_text(chars10(d.mmsi_2), 10),
        crate::readback::valid_text(chars10(d.additional_info), 10),
        crate::readback::valid_opt_char(d.ack_type),
        crate::readback::valid_opt_char(d.expansion_indicator),
    ensures
        dsc_data_result(dsc_body(d), Ok(d)),
        !dsc_body(d).contains('*'),
        vstd::utf8::is_ascii_chars(dsc_body(d)),
{
    lemma_dsc_fields(d);
    assert(crate::readback::plain_fields(split_fields(dsc_body(d)))) by {
        lemma_padded2_reads_back(d.format_specifier);
        lemma_opt_padded2_reads_back(d.category);
        lemma_opt_padded2_reads_back(d.first_telecommand);
        lemma_opt_padded2_reads_back(d.second_telecommand);
        lemma_opt_char_plain(d.ack_type);
        lemma_opt_char_plain(d.expansion_indicator);
    }
    crate::readback::lemma_plain_from_fields(dsc_body(d));
    lemma_padded2_reads_back(d.format_specifier);
    crate::readback::lemma_text_reads_back(chars10(d.mmsi), 10);
    lemma_opt_padded2_reads_back(d.category);
    lemma_opt_padded2_reads_back(d.first_telecommand);
    lemma_opt_padded2_reads_back(d.second_telecommand);
    crate::readback::lemma_text_reads_back(chars10(d.position_or_data), 10);
    crate::readback::lemma_text_reads_back(chars4(d.time_utc), 4);
    crate::readback::lemma_text_reads_back(chars10(d.mmsi_2), 10);
    crate::readback::lemma_text_reads_back(chars10(d.additional_info), 10);
}

} // verus!
