//! VDM / VDO - AIS VHF Data-link Message, of another vessel (VDM) or of
//! one's own (VDO): `!--VDM,x,x,x,a,s--s,x*hh`
//! 1. Number of fragments; 2. Fragment number; 3. Sequential message id;
//! 4. Radio channel, `A`, `B`, `1` or `2`; 5. Payload, armored AIS data of
//! at most 82 bytes; 6. Number of fill bits.

use vstd::prelude::*;
use vstd::string::*;
use arrayvec::ArrayString;

use crate::bounded::{as_str82, array_string82, chars82};
use crate::error::Error;
use crate::generate::GenerateNmeaBody;
use crate::parse::NmeaSentence;
use crate::sentence_type::SentenceType;
use crate::strings::{decimal, opt_text, push_char, push_decimal, push_str, write_opt};
use crate::text::{
    chars_of, digit_run, digits_value, exec_opt_one_of_field, field_spans, funs,
    lemma_digit_run_bounds, lemma_utf8_len_is_encoding_len, opt_one_of_field, opt_u8_is,
    opt_unsigned_field, read_opt_unsigned, read_unsigned, split_fields, unsigned_field,
    utf8_len, win,
};

verus! {

/// The data of a VDM or VDO sentence.
#[derive(Debug, Clone, PartialEq)]
pub struct VdmData {
    pub fragment_count: u8,
    pub fragment_number: u8,
    pub message_id: Option<u8>,
    pub channel: Option<char>,
    pub payload: ArrayString<82>,
    pub fill_bits: u8,
    /// The message is about one's own vessel (VDO).
    pub own_vessel: bool,
}

/// The number that the digits at the start of a field make, when there are
/// some and it is at most 255; what follows them is ignored.
pub open spec fn leading_u8(f: Seq<char>) -> Option<nat> {
    let d = f.take(digit_run(f, 0));
    if digit_run(f, 0) > 0 && digits_value(d) <= 255 {
        Some(digits_value(d))
    } else {
        None
    }
}

/// The VDM grammar over the comma-separated fields. The payload is not
/// empty and takes at most 82 bytes; the fill bits are read from the digits
/// at the start of the sixth field.
pub open spec fn vdm_accepts(f: Seq<Seq<char>>) -> bool {
    &&& f.len() >= 6
    &&& unsigned_field(f[0], 255) is Some
    &&& unsigned_field(f[1], 255) is Some
    &&& opt_unsigned_field(f[2], 255) is Some
    &&& opt_one_of_field(f[3], seq!['A', 'B', '1', '2']) is Some
    &&& f[4].len() > 0
    &&& utf8_len(f[4]) <= 82
    &&& leading_u8(f[5]) is Some
}

/// What reading the data `data` of a VDM or VDO sentence gives.
pub open spec fn vdm_data_result(data: Seq<char>, own: bool, r: Result<VdmData, Error>) -> bool {
    let f = split_fields(data);
    if vdm_accepts(f) {
        r matches Ok(d) && {
            &&& Some(d.fragment_count as nat) == unsigned_field(f[0], 255)
            &&& Some(d.fragment_number as nat) == unsigned_field(f[1], 255)
            &&& opt_u8_is(d.message_id, funs(f[2], 255))
            &&& d.channel == opt_one_of_field(f[3], seq!['A', 'B', '1', '2']).unwrap()
            &&& chars82(d.payload) == f[4]
            &&& Some(d.fill_bits as nat) == leading_u8(f[5])
            &&& d.own_vessel == own
        }
    } else {
        r == Err::<VdmData, Error>(Error::ParsingError)
    }
}

/// What [`parse_vdm`] gives for a sentence: it reads VDM and VDO sentences.
pub open spec fn vdm_result(s: NmeaSentence, r: Result<VdmData, Error>) -> bool {
    if s.message_id != SentenceType::VDM && s.message_id != SentenceType::VDO {
        r == Err::<VdmData, Error>(
            Error::WrongSentenceHeader { expected: SentenceType::VDM, found: s.message_id },
        )
    } else {
        vdm_data_result(s.data@, s.message_id == SentenceType::VDO, r)
    }
}

pub(crate) fn read_leading_u8(s: &Vec<char>, a: usize, b: usize) -> (r: Option<u8>)
    requires
        a <= b <= s.len(),
    ensures
        match r {
            Some(v) => leading_u8(win(s@, a as int, b as int)) == Some(v as nat),
            None => leading_u8(win(s@, a as int, b as int)) is None,
        },
{
    let ghost f = win(s@, a as int, b as int);
    let mut k: usize = 0;
    while k < b - a && '0' <= s[a + k] && s[a + k] <= '9'
        invariant
            a <= b <= s.len(),
            f == win(s@, a as int, b as int),
            k <= b - a,
            forall|m: int| 0 <= m < k ==> crate::text::is_digit(#[trigger] f[m]),
        decreases b - a - k,
    {
        k += 1;
    }
    proof {
        lemma_digit_run_bounds(f, 0);
        if k < digit_run(f, 0) {
            assert(crate::text::is_digit(f[k as int]));
        }
        if k > digit_run(f, 0) {
            assert(crate::text::is_digit(f[digit_run(f, 0)]));
        }
        assert(k == digit_run(f, 0));
        assert(win(s@, a as int, a + k) =~= f.take(k as int));
    }
    match read_unsigned(s, a, a + k, 255) {
        Some(v) => Some(v as u8),
        None => None,
    }
}

/// Reads the data of a VDM or VDO sentence.
pub fn parse_vdm(sentence: NmeaSentence<'_>) -> (r: Result<VdmData, Error>)
    ensures
        vdm_result(sentence, r),
{
    if sentence.message_id != SentenceType::VDM && sentence.message_id != SentenceType::VDO {
        return Err(Error::WrongSentenceHeader { expected: SentenceType::VDM, found: sentence.message_id });
    }
    let own_vessel = sentence.message_id == SentenceType::VDO;
    let d = sentence.data;
    let s = chars_of(d);
    let sp = field_spans(&s);
    let ghost f = split_fields(s@);
    if sp.len() < 6 {
        return Err(Error::ParsingError);
    }
    let channels = ['A', 'B', '1', '2'];
    assert(channels@ =~= seq!['A', 'B', '1', '2']);
    let fragment_count = match read_unsigned(&s, sp[0].0, sp[0].1, 255) {
        Some(v) => v as u8,
        None => return Err(Error::ParsingError),
    };
    let fragment_number = match read_unsigned(&s, sp[1].0, sp[1].1, 255) {
        Some(v) => v as u8,
        None => return Err(Error::ParsingError),
    };
    let message_id = match read_opt_unsigned(&s, sp[2].0, sp[2].1, 255) {
        Some(o) => match o {
            Some(v) => Some(v as u8),
            None => None,
        },
        None => return Err(Error::ParsingError),
    };
    let channel = match exec_opt_one_of_field(&s, sp[3].0, sp[3].1, channels.as_slice()) {
        Some(o) => o,
        None => return Err(Error::ParsingError),
    };
    if sp[4].0 == sp[4].1 {
        return Err(Error::ParsingError);
    }
    let p = d.substring_char(sp[4].0, sp[4].1);
    proof {
        lemma_utf8_len_is_encoding_len(p@);
        assert(p@ =~= f[4]);
    }
    let payload = match array_string82(p) {
        Some(a) => a,
        None => return Err(Error::ParsingError),
    };
    let fill_bits = match read_leading_u8(&s, sp[5].0, sp[5].1) {
        Some(v) => v,
        None => return Err(Error::ParsingError),
    };
    Ok(VdmData { fragment_count, fragment_number, message_id, channel, payload, fill_bits, own_vessel })
}

/// The body a VDM or VDO value is written as.
pub open spec fn vdm_body(d: VdmData) -> Seq<char> {
    decimal(d.fragment_count as nat) + seq![','] + decimal(d.fragment_number as nat) + seq![',']
        + opt_text(d.message_id) + seq![','] + opt_text(d.channel) + seq![','] + chars82(d.payload)
        + seq![','] + decimal(d.fill_bits as nat)
}

impl GenerateNmeaBody for VdmData {
    open spec fn spec_sentence_type(&self) -> SentenceType {
        if self.own_vessel {
            SentenceType::VDO
        } else {
            SentenceType::VDM
        }
    }

    open spec fn spec_body(&self) -> Seq<char> {
        vdm_body(*self)
    }

    fn sentence_type(&self) -> (t: SentenceType) {
        if self.own_vessel {
            SentenceType::VDO
        } else {
            SentenceType::VDM
        }
    }

    fn write_body(&self, f: &mut String) {
        push_decimal(f, self.fragment_count as u64);
        push_char(f, ',');
        push_decimal(f, self.fragment_number as u64);
        push_char(f, ',');
        write_opt(f, &self.message_id);
        push_char(f, ',');
        write_opt(f, &self.channel);
        push_char(f, ',');
        push_str(f, as_str82(&self.payload));
        push_char(f, ',');
        push_decimal(f, self.fill_bits as u64);
        assert(f@ =~= old(f)@ + vdm_body(*self));
    }
}

/// The decimal digits of a small number are read back by [`leading_u8`].
pub proof fn lemma_leading_u8_decimal(n: u8)
    ensures
        leading_u8(decimal(n as nat)) == Some(n as nat),
{
    let t = decimal(n as nat);
    crate::readback::lemma_decimal_reads_back(n as nat);
    crate::text::lemma_digit_run_bounds(t, 0);
    if digit_run(t, 0) < t.len() {
        assert(crate::text::is_digit(t[digit_run(t, 0)]));
    }
    assert(t.take(digit_run(t, 0)) =~= t);
}

/// The body of a VDM value is its parts joined with commas.
#[verifier::spinoff_prover]
proof fn lemma_vdm_body_parts(d: VdmData)
    ensures
        vdm_body(d) == decimal(d.fragment_count as nat) + seq![','] + decimal(d.fragment_number as nat) + seq![','] + opt_text(d.message_id) + seq![','] + opt_text(d.channel) + seq![','] + chars82(d.payload) + seq![','] + decimal(d.fill_bits as nat),
{
    let t0 = decimal(d.fragment_count as nat);
    let t1 = decimal(d.fragment_number as nat);
    let t2 = opt_text(d.message_id);
    let t3 = opt_text(d.channel);
    let t4 = chars82(d.payload);
    let t5 = decimal(d.fill_bits as nat);
    
    assert(t0 + seq![','] + t1 + seq![','] + t2 + seq![','] + t3 + seq![','] + t4 + seq![','] + t5 =~= vdm_body(d));
}

/// The fields of a written VDM value are its parts, none
/// holding a comma or `*`.
#[verifier::spinoff_prover]
proof fn lemma_vdm_fields(d: VdmData)
    requires
        d.channel matches Some(c) ==> (c == 'A' || c == 'B' || c == '1' || c == '2'),
        crate::readback::valid_name(chars82(d.payload)),
        crate::text::utf8_len(chars82(d.payload)) <= 82,
    ensures
        split_fields(vdm_body(d)) == seq![decimal(d.fragment_count as nat), decimal(d.fragment_number as nat), opt_text(d.message_id), opt_text(d.channel), chars82(d.payload), decimal(d.fill_bits as nat)],
{
    let t0 = decimal(d.fragment_count as nat);
    let t1 = decimal(d.fragment_number as nat);
    let t2 = opt_text(d.message_id);
    let t3 = opt_text(d.channel);
    let t4 = chars82(d.payload);
    let t5 = decimal(d.fill_bits as nat);
    crate::readback::lemma_decimal_reads_back(d.fragment_count as nat);
    crate::readback::lemma_decimal_reads_back(d.fragment_number as nat);
    crate::readback::lemma_opt_u8_reads_back(d.message_id, 255);
    match d.channel { Some(c) => { crate::readback::lemma_char_plain(c); }, None => {} }
    crate::readback::lemma_decimal_reads_back(d.fill_bits as nat);
    crate::readback::lemma_split_fields_6(t0, t1, t2, t3, t4, t5);
    lemma_vdm_body_parts(d);
}

/// A written VDM or VDO value reads back as itself, when its channel is
/// `A`, `B`, `1` or `2` and its payload is ASCII, not empty, free of commas
/// and `*`, and at most 82 bytes.
#[verifier::spinoff_prover]
pub proof fn lemma_vdm_reads_back(d: VdmData)
    requires
        d.channel matches Some(c) ==> (c == 'A' || c == 'B' || c == '1' || c == '2'),
        crate::readback::valid_name(chars82(d.payload)),
        crate::text::utf8_len(chars82(d.payload)) <= 82,
    ensures
        vdm_data_result(vdm_body(d), d.own_vessel, Ok(d)),
        !vdm_body(d).contains('*'),
        vstd::utf8::is_ascii_chars(vdm_body(d)),
{
    lemma_vdm_fields(d);
    assert(crate::readback::plain_fields(split_fields(vdm_body(d)))) by {
        crate::readback::lemma_decimal_reads_back(d.fragment_count as nat);
        crate::readback::lemma_decimal_reads_back(d.fragment_number as nat);
        crate::readback::lemma_opt_u8_reads_back(d.message_id, 255);
        match d.channel { Some(c) => { crate::readback::lemma_char_plain(c); }, None => {} }
        crate::readback::lemma_decimal_reads_back(d.fill_bits as nat);
    }
    crate::readback::lemma_plain_from_fields(vdm_body(d));
    crate::readback::lemma_decimal_reads_back(d.fragment_count as nat);
    crate::readback::lemma_decimal_reads_back(d.fragment_number as nat);
    crate::readback::lemma_opt_u8_reads_back(d.message_id, 255);
    assert(seq!['A', 'B', '1', '2'][0] == 'A' && seq!['A', 'B', '1', '2'][1] == 'B' && seq!['A', 'B', '1', '2'][2] == '1' && seq!['A', 'B', '1', '2'][3] == '2');
    lemma_leading_u8_decimal(d.fill_bits);
}

} // verus!
