//! Writing sentences: a body is framed as `$<talker><type>,<body>*<checksum>`.

use vstd::prelude::*;
use vstd::string::*;

use crate::parse::{
    FrameV, NmeaSentence, SENTENCE_MAX_LEN, ascii_byte, checksum_extend, checksummed_bytes,
    code_bytes, hex_digit, hex_pair, spec_frame, star_from, xor_all,
};
use crate::sentence_type::{SentenceType, lemma_code_is_ascii, lemma_code_round_trip, spec_code};
use crate::bounded::{as_str_h102, chars_h102, heapless_string102_new, heapless_string102_push};
use crate::strings::{push_char, push_str};

verus! {

/// A value that can be written as the data fields of a sentence.
pub trait GenerateNmeaBody {
    /// The sentence type the value is written as.
    spec fn spec_sentence_type(&self) -> SentenceType;

    /// The data fields as text: everything between `$XXYYY,` and `*HH`.
    spec fn spec_body(&self) -> Seq<char>;

    /// The sentence type the value is written as.
    fn sentence_type(&self) -> (t: SentenceType)
        ensures
            t == self.spec_sentence_type(),
    ;

    /// Appends the comma-separated data fields.
    fn write_body(&self, f: &mut String)
        ensures
            final(f)@ == old(f)@ + self.spec_body(),
    ;
}

/// The UTF-8 bytes of a text.
pub open spec fn bytes_of(s: Seq<char>) -> Seq<u8> {
    vstd::utf8::encode_utf8(s)
}

/// The upper-case hexadecimal digit of a value below sixteen.
pub open spec fn hex_char(d: u8) -> char {
    if d < 10 {
        ((d as u32) + ('0' as u32)) as char
    } else {
        ((d as u32) - 10 + ('A' as u32)) as char
    }
}

/// The three characters of a sentence type's code.
pub open spec fn code_chars(t: SentenceType) -> Seq<char> {
    seq![spec_code(t).0, spec_code(t).1, spec_code(t).2]
}

/// The part of a sentence the checksum covers: talker id, type, `,`, body.
pub open spec fn checksummed_text(talker: Seq<char>, t: SentenceType, body: Seq<char>) -> Seq<char> {
    talker + code_chars(t) + seq![','] + body
}

/// The checksum of a sentence with these parts.
pub open spec fn sentence_checksum(talker: Seq<char>, t: SentenceType, body: Seq<char>) -> u8 {
    xor_all(bytes_of(checksummed_text(talker, t, body)))
}

/// The whole sentence text: `$`, the checksummed part, `*` and two
/// upper-case hexadecimal digits of the checksum.
pub open spec fn sentence_text(talker: Seq<char>, t: SentenceType, body: Seq<char>) -> Seq<char> {
    let cs = sentence_checksum(talker, t, body);
    seq!['$'] + checksummed_text(talker, t, body) + seq!['*', hex_char(cs / 16), hex_char(cs % 16)]
}

pub(crate) fn exec_hex_char(d: u8) -> (c: char)
    requires
        d < 16,
    ensures
        c == hex_char(d),
{
    let digits = ['0', '1', '2', '3', '4', '5', '6', '7', '8', '9', 'A', 'B', 'C', 'D', 'E', 'F'];
    let c = digits[d as usize];
    assert(c == hex_char(d)) by {
        assert(digits@[d as int] == c);
    }
    c
}

/// Copies the characters of `text` into a string of `SENTENCE_MAX_LEN`
/// bytes; `None` when they do not fit.
fn bounded_copy(text: &str) -> (r: Option<heapless::String<102>>)
    ensures
        r is Some <==> crate::text::utf8_len(text@) <= SENTENCE_MAX_LEN,
        r matches Some(h) ==> chars_h102(h) == text@,
{
    let v = crate::text::chars_of(text);
    let mut h = heapless_string102_new();
    let mut i: usize = 0;
    while i < v.len()
        invariant
            v@ == text@,
            i <= v.len(),
            chars_h102(h) == v@.take(i as int),
            crate::text::utf8_len(v@.take(i as int)) <= SENTENCE_MAX_LEN,
        decreases v.len() - i,
    {
        let ghost before = chars_h102(h);
        proof {
            crate::text::lemma_utf8_len_push(v@.take(i as int), v@[i as int]);
            assert(v@.take(i as int).push(v@[i as int]) =~= v@.take(i + 1));
        }
        if !heapless_string102_push(&mut h, v[i]) {
            proof {
                crate::text::lemma_utf8_prefix_mono(v@, i + 1);
                if i + 1 < v@.len() {
                    assert(crate::text::utf8_len(v@.take(v@.len() as int)) > crate::text::utf8_len(v@.take(i + 1)));
                }
                assert(v@.take(v@.len() as int) =~= v@);
            }
            return None;
        }
        i += 1;
    }
    assert(v@.take(v@.len() as int) =~= v@);
    Some(h)
}

/// Writes a whole sentence for `data`, with talker id `talker_id`, at the end
/// of `out`. A written sentence takes at most `SENTENCE_MAX_LEN` bytes, the
/// most a reader accepts: when the whole sentence (`$`, the checksummed part,
/// `*` and two hexadecimal digits) would be longer, nothing is written and
/// `Err` is returned.
pub fn generate_sentence<T: GenerateNmeaBody>(talker_id: &str, data: &T, out: &mut String) -> (r: Result<(), ()>)
    ensures
        r is Err <==> bytes_of(sentence_text(talker_id@, data.spec_sentence_type(), data.spec_body())).len()
            > SENTENCE_MAX_LEN,
        r is Err ==> final(out)@ == old(out)@,
        r is Ok ==> final(out)@ == old(out)@ + sentence_text(
            talker_id@,
            data.spec_sentence_type(),
            data.spec_body(),
        ),
{
    let mut text = String::new();
    push_str(&mut text, talker_id);
    let t = data.sentence_type();
    let (a, b, c) = t.code();
    push_char(&mut text, a);
    push_char(&mut text, b);
    push_char(&mut text, c);
    push_char(&mut text, ',');
    data.write_body(&mut text);
    let ghost whole = checksummed_text(talker_id@, t, data.spec_body());
    assert(text@ =~= whole);
    proof {
        crate::text::lemma_utf8_len_is_encoding_len(whole);
    }
    let ghost cs0 = sentence_checksum(talker_id@, t, data.spec_body());
    let ghost tail = seq!['*', hex_char(cs0 / 16), hex_char(cs0 % 16)];
    proof {
        let full = sentence_text(talker_id@, t, data.spec_body());
        assert(full =~= seq!['$'] + whole + tail);
        crate::text::lemma_utf8_len_concat(seq!['$'], whole);
        crate::text::lemma_utf8_len_concat(seq!['$'] + whole, tail);
        crate::text::lemma_utf8_len_is_encoding_len(full);
        assert(vstd::utf8::is_ascii_chars(seq!['$']));
        crate::text::lemma_utf8_len_ascii(seq!['$']);
        assert(vstd::utf8::is_ascii_chars(tail));
        crate::text::lemma_utf8_len_ascii(tail);
    }
    let buf = match bounded_copy(text.as_str()) {
        Some(h) => h,
        None => return Err(()),
    };
    let s = as_str_h102(&buf);
    let bytes = s.as_bytes();
    if bytes.len() > SENTENCE_MAX_LEN - 4 {
        return Err(());
    }
    let cs = checksum_extend(0, bytes, Ghost(Seq::empty()));
    assert(Seq::<u8>::empty() + bytes@ =~= bytes@);
    push_char(out, '$');
    push_str(out, s);
    push_char(out, '*');
    push_char(out, exec_hex_char(cs / 16));
    push_char(out, exec_hex_char(cs % 16));
    assert(out@ =~= old(out)@ + sentence_text(talker_id@, t, data.spec_body()));
    Ok(())
}

pub proof fn lemma_hex_char_digit(d: u8)
    requires
        d < 16,
    ensures
        hex_digit(hex_char(d)) == Some(d),
        hex_char(d) != '+',
        hex_char(d) != '*',
{
}

pub proof fn lemma_star_from_skip(c: Seq<char>, i: int, k: int)
    requires
        0 <= i <= k < c.len(),
        c[k] == '*',
        forall|j: int| i <= j < k ==> c[j] != '*',
    ensures
        star_from(c, i) == Some(k),
    decreases k - i,
{
    if i < k {
        lemma_star_from_skip(c, i + 1, k);
    }
}

/// A written sentence reads back: its frame holds the talker id, sentence
/// type and body it was written from, and the checksum it carries is the one
/// computed over those parts. This holds for every two-character talker id
/// and every body without `*`.
pub proof fn lemma_sentence_frame_round_trip(talker: Seq<char>, t: SentenceType, body: Seq<char>)
    requires
        talker.len() == 2,
        !body.contains('*'),
    ensures
        spec_frame(sentence_text(talker, t, body)) == Some(
            FrameV {
                talker_id: talker,
                message_id: t,
                data: body,
                checksum: sentence_checksum(talker, t, body),
            },
        ),
{
    let c = sentence_text(talker, t, body);
    let cs = sentence_checksum(talker, t, body);
    let k: int = 7 + body.len() as int;
    lemma_code_round_trip(t);
    lemma_hex_char_digit(cs / 16);
    lemma_hex_char_digit(cs % 16);
    assert(c.len() == k + 3);
    assert(c[3] == spec_code(t).0 && c[4] == spec_code(t).1 && c[5] == spec_code(t).2);
    assert(c[k] == '*');
    assert forall|j: int| 7 <= j < k implies c[j] != '*' by {
        assert(c[j] == body[j - 7]);
    }
    lemma_star_from_skip(c, 7, k);
    assert(c.subrange(1, 3) =~= talker);
    assert(c.subrange(7, k) =~= body);
    assert(hex_pair(c[k + 1], c[k + 2]) == Some(((cs / 16) * 16 + cs % 16) as u8));
}


pub proof fn lemma_encode_concat(a: Seq<char>, b: Seq<char>)
    ensures
        bytes_of(a + b) == bytes_of(a) + bytes_of(b),
    decreases a.len(),
{
    if a.len() > 0 {
        assert((a + b).drop_first() =~= a.drop_first() + b);
        lemma_encode_concat(a.drop_first(), b);
        assert(bytes_of(a + b) =~= bytes_of(a) + bytes_of(b));
    } else {
        assert(a + b =~= b);
        assert(bytes_of(a) =~= Seq::<u8>::empty());
        assert(bytes_of(a) + bytes_of(b) =~= bytes_of(b));
    }
}

/// The checksum a written sentence carries is the checksum computed over
/// the UTF-8 bytes of its talker id, type, `,` and body — which is what
/// `NmeaSentence::calc_checksum` computes for the sentence read back.
pub proof fn lemma_written_checksum_is_computed(talker: Seq<char>, t: SentenceType, body: Seq<char>)
    ensures
        sentence_checksum(talker, t, body) == xor_all(
            checksummed_bytes(bytes_of(talker), t, bytes_of(body)),
        ),
{
    let mid = code_chars(t) + seq![','];
    lemma_code_is_ascii(t);
    assert(vstd::utf8::is_ascii_chars(mid));
    vstd::utf8::is_ascii_chars_encode_utf8(mid);
    assert(bytes_of(mid) =~= code_bytes(t) + seq![ascii_byte(',')]);
    assert(checksummed_text(talker, t, body) =~= talker + mid + body);
    lemma_encode_concat(talker, mid);
    lemma_encode_concat(talker + mid, body);
    assert(checksummed_bytes(bytes_of(talker), t, bytes_of(body)) =~= bytes_of(talker) + bytes_of(mid)
        + bytes_of(body));
}

} // verus!
