//! ALK - SeaTalk datagrams carried in NMEA 0183: `$STALK,x1,x2,...*hh`,
//! a command byte followed by payload bytes, each two hexadecimal digits.
//! At most 18 payload bytes are kept.

use vstd::prelude::*;
use vstd::string::*;

use crate::bounded::{bytes18, bytes18_as_slice, bytes18_new, bytes18_push};
use crate::error::Error;
use crate::generate::{GenerateNmeaBody, exec_hex_char, hex_char};
use crate::parse::{NmeaSentence, exec_hex_pair, hex_pair};
use crate::sentence_type::SentenceType;
use crate::strings::push_char;
use crate::text::{chars_of, field_spans, spans_match, split_fields, lemma_split_fields_nonempty};

verus! {

/// The data of a SeaTalk sentence.
#[derive(Debug, Clone, PartialEq)]
pub struct StalkData {
    pub command: u8,
    pub payload: heapless::Vec<u8, 18>,
}

/// The byte of a field's first two characters.
pub open spec fn field_byte(f: Seq<char>) -> Option<u8> {
    if f.len() >= 2 {
        hex_pair(f[0], f[1])
    } else {
        None
    }
}

/// The payload bytes from field `i` on: each field starts with two
/// hexadecimal digits; a field with more characters ends the payload, what
/// follows being ignored.
pub open spec fn stalk_bytes(f: Seq<Seq<char>>, i: int) -> Option<Seq<u8>>
    decreases f.len() - i,
{
    if i < 1 || i >= f.len() {
        Some(Seq::empty())
    } else {
        match field_byte(f[i]) {
            None => None,
            Some(b) => if f[i].len() > 2 {
                Some(seq![b])
            } else {
                match stalk_bytes(f, i + 1) {
                    Some(r) => Some(seq![b] + r),
                    None => None,
                }
            },
        }
    }
}

/// All payload bytes of the fields: none when the command field is longer
/// than two characters.
pub open spec fn stalk_payload(f: Seq<Seq<char>>) -> Option<Seq<u8>> {
    if f[0].len() > 2 {
        Some(Seq::empty())
    } else {
        stalk_bytes(f, 1)
    }
}

/// The first 18 bytes of a payload.
pub open spec fn first18(p: Seq<u8>) -> Seq<u8> {
    if p.len() <= 18 { p } else { p.take(18) }
}

/// What reading the data `data` of a SeaTalk sentence gives.
pub open spec fn stalk_data_result(data: Seq<char>, r: Result<StalkData, Error>) -> bool {
    let f = split_fields(data);
    if field_byte(f[0]) is Some && stalk_payload(f) is Some {
        r matches Ok(d) && {
            &&& Some(d.command) == field_byte(f[0])
            &&& bytes18(d.payload) == first18(stalk_payload(f).unwrap())
        }
    } else {
        r == Err::<StalkData, Error>(Error::ParsingError)
    }
}

/// What [`parse_stalk`] gives for a sentence.
pub open spec fn stalk_result(s: NmeaSentence, r: Result<StalkData, Error>) -> bool {
    if s.message_id != SentenceType::ALK {
        r == Err::<StalkData, Error>(
            Error::WrongSentenceHeader { expected: SentenceType::ALK, found: s.message_id },
        )
    } else {
        stalk_data_result(s.data@, r)
    }
}

fn read_field_byte(s: &Vec<char>, a: usize, b: usize) -> (r: Option<u8>)
    requires
        a <= b <= s.len(),
    ensures
        r == field_byte(s@.subrange(a as int, b as int)),
{
    if b - a >= 2 {
        exec_hex_pair(s[a], s[a + 1])
    } else {
        None
    }
}

/// Reads the data of a SeaTalk sentence.
pub fn parse_stalk(sentence: NmeaSentence<'_>) -> (r: Result<StalkData, Error>)
    ensures
        stalk_result(sentence, r),
{
    if sentence.message_id != SentenceType::ALK {
        return Err(Error::WrongSentenceHeader { expected: SentenceType::ALK, found: sentence.message_id });
    }
    let d = sentence.data;
    let s = chars_of(d);
    let sp = field_spans(&s);
    let ghost f = split_fields(s@);
    proof {
        lemma_split_fields_nonempty(s@);
    }
    let command = match read_field_byte(&s, sp[0].0, sp[0].1) {
        Some(c) => c,
        None => return Err(Error::ParsingError),
    };
    let mut payload = bytes18_new();
    if sp[0].1 - sp[0].0 > 2 {
        return Ok(StalkData { command, payload });
    }
    let ghost mut seen: Seq<u8> = Seq::empty();
    let mut i: usize = 1;
    while i < sp.len()
        invariant
            1 <= i <= sp.len(),
            s@ == sentence.data@,
            sentence.message_id == SentenceType::ALK,
            sp.len() == f.len(),
            f == split_fields(s@),
            spans_match(s@, sp@),
            f[0].len() <= 2,
            field_byte(f[0]) == Some(command),
            stalk_payload(f) == match stalk_bytes(f, i as int) {
                Some(r) => Some(seen + r),
                None => None,
            },
            bytes18(payload) == first18(seen),
        decreases sp.len() - i,
    {
        assert(f[i as int] == s@.subrange(sp@[i as int].0 as int, sp@[i as int].1 as int));
        let b = match read_field_byte(&s, sp[i].0, sp[i].1) {
            Some(b) => b,
            None => {
                assert(stalk_bytes(f, i as int) is None);
                return Err(Error::ParsingError);
            },
        };
        assert(field_byte(f[i as int]) == Some(b));
        let ghost old_seen = seen;
        let _ = bytes18_push(&mut payload, b);
        proof {
            seen = seen.push(b);
            if old_seen.len() >= 18 {
                assert(first18(seen) =~= first18(old_seen));
            } else {
                assert(first18(seen) =~= first18(old_seen).push(b));
            }
        }
        if sp[i].1 - sp[i].0 > 2 {
            assert(stalk_bytes(f, i as int) == Some(seq![b]));
            assert(old_seen + seq![b] =~= seen);
            return Ok(StalkData { command, payload });
        }
        proof {
            match stalk_bytes(f, i + 1) {
                Some(r) => {
                    assert(old_seen + (seq![b] + r) =~= seen + r);
                },
                None => {},
            }
        }
        i += 1;
    }
    assert(seen + Seq::<u8>::empty() =~= seen);
    Ok(StalkData { command, payload })
}

/// A byte as two upper-case hexadecimal digits.
pub open spec fn hex2(b: u8) -> Seq<char> {
    seq![hex_char(b / 16), hex_char(b % 16)]
}

/// The payload bytes, each after a comma.
pub open spec fn payload_chars(p: Seq<u8>) -> Seq<char>
    decreases p.len(),
{
    if p.len() == 0 {
        Seq::empty()
    } else {
        payload_chars(p.drop_last()) + seq![','] + hex2(p.last())
    }
}

/// The body a SeaTalk value is written as.
pub open spec fn stalk_body(d: StalkData) -> Seq<char> {
    hex2(d.command) + payload_chars(bytes18(d.payload))
}

fn write_hex2(f: &mut String, b: u8)
    ensures
        final(f)@ == old(f)@ + hex2(b),
{
    push_char(f, exec_hex_char(b / 16));
    push_char(f, exec_hex_char(b % 16));
    assert(f@ =~= old(f)@ + hex2(b));
}

impl GenerateNmeaBody for StalkData {
    open spec fn spec_sentence_type(&self) -> SentenceType {
        SentenceType::ALK
    }

    open spec fn spec_body(&self) -> Seq<char> {
        stalk_body(*self)
    }

    fn sentence_type(&self) -> (t: SentenceType) {
        SentenceType::ALK
    }

    fn write_body(&self, f: &mut String) {
        write_hex2(f, self.command);
        let p = bytes18_as_slice(&self.payload);
        let mut i: usize = 0;
        assert(p@.take(0) =~= Seq::<u8>::empty());
        while i < p.len()
            invariant
                i <= p@.len(),
                p@ == bytes18(self.payload),
                f@ == old(f)@ + hex2(self.command) + payload_chars(p@.take(i as int)),
            decreases p@.len() - i,
        {
            push_char(f, ',');
            write_hex2(f, p[i]);
            assert(p@.take(i + 1).drop_last() =~= p@.take(i as int));
            assert(f@ =~= old(f)@ + hex2(self.command) + payload_chars(p@.take(i + 1)));
            i += 1;
        }
        assert(p@.take(p@.len() as int) =~= p@);
    }
}

/// A byte written as two hexadecimal digits reads back; the text holds no
/// comma or `*` and is ASCII.
proof fn lemma_hex2_reads_back(b: u8)
    ensures
        field_byte(hex2(b)) == Some(b),
        hex2(b).len() == 2,
        !hex2(b).contains(','),
        !hex2(b).contains('*'),
        vstd::utf8::is_ascii_chars(hex2(b)),
{
    crate::generate::lemma_hex_char_digit(b / 16);
    crate::generate::lemma_hex_char_digit(b % 16);
    let h = hex2(b);
    assert(hex_pair(h[0], h[1]) == Some(b)) by {
        assert(((b / 16) * 16 + b % 16) as u8 == b);
    }
    assert(!h.contains(',')) by {
        if h.contains(',') {
            let i = choose|i: int| 0 <= i < h.len() && h[i] == ',';
            assert(i == 0 || i == 1);
        }
    }
    assert(!h.contains('*')) by {
        if h.contains('*') {
            let i = choose|i: int| 0 <= i < h.len() && h[i] == '*';
            assert(i == 0 || i == 1);
        }
    }
    assert forall|i: int| 0 <= i < h.len() implies '\0' <= #[trigger] h[i] <= '\u{7f}' by {
        assert(i == 0 || i == 1);
    }
}

/// The fields of a written command and payload: the command byte, then
/// one field per payload byte.
pub open spec fn stalk_fields(c: u8, p: Seq<u8>) -> Seq<Seq<char>> {
    seq![hex2(c)] + p.map_values(|b: u8| hex2(b))
}

/// The written command and payload split into their fields, none holding
/// `*`.
proof fn lemma_stalk_split(c: u8, p: Seq<u8>)
    ensures
        split_fields(hex2(c) + payload_chars(p)) == stalk_fields(c, p),
        crate::readback::plain_fields(stalk_fields(c, p)),
    decreases p.len(),
{
    lemma_hex2_reads_back(c);
    if p.len() == 0 {
        assert(hex2(c) + payload_chars(p) =~= hex2(c));
        crate::readback::lemma_split_fields_single(hex2(c));
        assert(stalk_fields(c, p) =~= seq![hex2(c)]);
    } else {
        let q = p.drop_last();
        lemma_stalk_split(c, q);
        lemma_hex2_reads_back(p.last());
        assert(hex2(c) + payload_chars(p) =~= (hex2(c) + payload_chars(q)) + seq![','] + hex2(p.last()));
        crate::readback::lemma_split_push(hex2(c) + payload_chars(q), hex2(p.last()));
        assert(stalk_fields(c, p) =~= stalk_fields(c, q).push(hex2(p.last())));
    }
    assert forall|i: int| 0 <= i < stalk_fields(c, p).len() implies !(#[trigger] stalk_fields(c, p)[i]).contains('*') && vstd::utf8::is_ascii_chars(stalk_fields(c, p)[i]) by {
        if i > 0 {
            lemma_hex2_reads_back(p[i - 1]);
        }
    }
}

/// The payload fields from field `i` on read back as the payload bytes
/// from `i - 1` on.
proof fn lemma_stalk_bytes(c: u8, p: Seq<u8>, i: int)
    requires
        1 <= i <= p.len() + 1,
    ensures
        stalk_bytes(stalk_fields(c, p), i) == Some(p.subrange(i - 1, p.len() as int)),
    decreases p.len() + 1 - i,
{
    let f = stalk_fields(c, p);
    if i <= p.len() {
        lemma_stalk_bytes(c, p, i + 1);
        lemma_hex2_reads_back(p[i - 1]);
        assert(f[i] == hex2(p[i - 1]));
        assert(seq![p[i - 1]] + p.subrange(i, p.len() as int) =~= p.subrange(i - 1, p.len() as int));
    } else {
        assert(p.subrange(i - 1, p.len() as int) =~= Seq::<u8>::empty());
    }
}

/// A written SeaTalk value reads back as itself.
pub proof fn lemma_stalk_reads_back(d: StalkData)
    requires
        bytes18(d.payload).len() <= 18,
    ensures
        stalk_data_result(stalk_body(d), Ok(d)),
        !stalk_body(d).contains('*'),
        vstd::utf8::is_ascii_chars(stalk_body(d)),
{
    let p = bytes18(d.payload);
    lemma_stalk_split(d.command, p);
    crate::readback::lemma_plain_from_fields(stalk_body(d));
    lemma_hex2_reads_back(d.command);
    lemma_stalk_bytes(d.command, p, 1);
    assert(p.subrange(0, p.len() as int) =~= p);
}

} // verus!
