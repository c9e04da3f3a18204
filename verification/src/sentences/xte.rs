//! XTE - Cross-Track Error, Measured: `$--XTE,A,A,x.x,a,N,m*hh`
//! 1. Status, `A` valid, `V` Loran-C blink or SNR warning; 2. Status, `A`
//! valid, `V` Loran-C cycle lock warning; 3. Cross-track error magnitude;
//! 4. Direction to steer, `L` or `R`; 5. Units, `N` nautical miles; 6. FAA
//! mode (ignored). An error with direction `L` is given as a negative number.

use vstd::prelude::*;
use vstd::string::*;

use crate::error::Error;
use crate::generate::GenerateNmeaBody;
use crate::parse::NmeaSentence;
use crate::sentence_type::SentenceType;
use crate::strings::{decimal, push_char, push_str};
use crate::text::{
    Number, chars_of, exec_one_of_field, exec_opt_one_of_field, field_is, field_spans, fnum,
    negate_if, negate_opt, one_of_field, opt_float_field, opt_num_view, opt_one_of_field,
    read_opt_float_field, split_fields,
};

verus! {

/// The data of an XTE sentence.
#[derive(Debug, Clone, PartialEq)]
pub struct XteData {
    pub cross_track_error: Option<Number>,
    pub status_general: bool,
    pub status_cycle_lock: bool,
}

/// The XTE grammar over the comma-separated fields.
pub open spec fn xte_accepts(f: Seq<Seq<char>>) -> bool {
    &&& f.len() >= 5
    &&& one_of_field(f[0], seq!['A', 'V']) is Some
    &&& one_of_field(f[1], seq!['A', 'V']) is Some
    &&& opt_float_field(f[2]) is Some
    &&& opt_one_of_field(f[3], seq!['L', 'R']) is Some
}

/// What reading the data `data` of an XTE sentence gives: the fields it
/// holds when the grammar accepts the data, a parsing error otherwise.
pub open spec fn xte_data_result(data: Seq<char>, r: Result<XteData, Error>) -> bool {
    let f = split_fields(data);
    if xte_accepts(f) {
        r matches Ok(d) && {
            &&& opt_num_view(d.cross_track_error) == negate_if(fnum(f[2]), opt_one_of_field(f[3], seq!['L', 'R']) == Some(Some('L')))
            &&& d.status_general == field_is(f[0], 'A')
            &&& d.status_cycle_lock == field_is(f[1], 'A')
        }
    } else {
        r == Err::<XteData, Error>(Error::ParsingError)
    }
}

/// What [`parse_xte`] gives for a sentence.
pub open spec fn xte_result(s: NmeaSentence, r: Result<XteData, Error>) -> bool {
    if s.message_id != SentenceType::XTE {
        r == Err::<XteData, Error>(
            Error::WrongSentenceHeader { expected: SentenceType::XTE, found: s.message_id },
        )
    } else {
        xte_data_result(s.data@, r)
    }
}

/// Reads the data of an XTE sentence.
pub fn parse_xte(sentence: NmeaSentence<'_>) -> (r: Result<XteData, Error>)
    ensures
        xte_result(sentence, r),
{
    if sentence.message_id != SentenceType::XTE {
        return Err(Error::WrongSentenceHeader { expected: SentenceType::XTE, found: sentence.message_id });
    }
    let d = sentence.data;
    let s = chars_of(d);
    let sp = field_spans(&s);
    if sp.len() < 5 {
        return Err(Error::ParsingError);
    }
    let av = ['A', 'V'];
    let lr = ['L', 'R'];
    assert(av@ =~= seq!['A', 'V']);
    assert(lr@ =~= seq!['L', 'R']);
    let s1 = exec_one_of_field(&s, sp[0].0, sp[0].1, av.as_slice());
    let s2 = exec_one_of_field(&s, sp[1].0, sp[1].1, av.as_slice());
    let m = read_opt_float_field(d, &s, sp[2].0, sp[2].1);
    let dir = exec_opt_one_of_field(&s, sp[3].0, sp[3].1, lr.as_slice());
    if s1.is_none() || s2.is_none() || m.is_none() || dir.is_none() {
        return Err(Error::ParsingError);
    }
    let cross_track_error = negate_opt(m.unwrap(), dir == Some(Some('L')));
    Ok(XteData { cross_track_error, status_general: s1 == Some('A'), status_cycle_lock: s2 == Some('A') })
}

/// The body an XTE value is written as.
pub open spec fn xte_body(d: XteData) -> Seq<char> {
    (if d.status_general { seq!['A'] } else { seq!['V'] }) + seq![','] + (if d.status_cycle_lock { seq!['A'] } else { seq!['V'] }) + seq![','] + (match d.cross_track_error { Some(n) => n.magnitude@ + seq![',', (if n.negative { 'L' } else { 'R' })], None => seq![','] }) + seq![',', 'N']
}

impl GenerateNmeaBody for XteData {
    open spec fn spec_sentence_type(&self) -> SentenceType {
        SentenceType::XTE
    }

    open spec fn spec_body(&self) -> Seq<char> {
        xte_body(*self)
    }

    fn sentence_type(&self) -> (t: SentenceType) {
        SentenceType::XTE
    }

    fn write_body(&self, f: &mut String) {
        if self.status_general { push_char(f, 'A'); } else { push_char(f, 'V'); }
        push_char(f, ',');
        if self.status_cycle_lock { push_char(f, 'A'); } else { push_char(f, 'V'); }
        push_char(f, ',');
        match &self.cross_track_error {
            Some(n) => {
                push_str(f, n.magnitude.as_str());
                push_char(f, ',');
                push_char(f, if n.negative { 'L' } else { 'R' });
            },
            None => push_char(f, ','),
        }
        push_char(f, ',');
        push_char(f, 'N');
        assert(f@ =~= old(f)@ + xte_body(*self));
    }
}

/// The body of an XTE value is its parts joined with commas.
#[verifier::spinoff_prover]
proof fn lemma_xte_body_parts(d: XteData)
    ensures
        xte_body(d) == (if d.status_general { seq!['A'] } else { seq!['V'] }) + seq![','] + (if d.status_cycle_lock { seq!['A'] } else { seq!['V'] }) + seq![','] + crate::readback::mag_text(d.cross_track_error) + seq![','] + crate::readback::dir_text(d.cross_track_error, 'L', 'R') + seq![','] + seq!['N'],
{
    let t0 = (if d.status_general { seq!['A'] } else { seq!['V'] });
    let t1 = (if d.status_cycle_lock { seq!['A'] } else { seq!['V'] });
    let t2 = crate::readback::mag_text(d.cross_track_error);
    let t3 = crate::readback::dir_text(d.cross_track_error, 'L', 'R');
    let t4 = seq!['N'];
    
    assert(t0 + seq![','] + t1 + seq![','] + t2 + seq![','] + t3 + seq![','] + t4 =~= xte_body(d));
}

/// The fields of an written XTE value are its parts, none
/// holding a comma or `*`.
#[verifier::spinoff_prover]
proof fn lemma_xte_fields(d: XteData)
    requires
        crate::readback::valid_opt_number(d.cross_track_error),
    ensures
        split_fields(xte_body(d)) == seq![(if d.status_general { seq!['A'] } else { seq!['V'] }), (if d.status_cycle_lock { seq!['A'] } else { seq!['V'] }), crate::readback::mag_text(d.cross_track_error), crate::readback::dir_text(d.cross_track_error, 'L', 'R'), seq!['N']],
{
    let t0 = (if d.status_general { seq!['A'] } else { seq!['V'] });
    let t1 = (if d.status_cycle_lock { seq!['A'] } else { seq!['V'] });
    let t2 = crate::readback::mag_text(d.cross_track_error);
    let t3 = crate::readback::dir_text(d.cross_track_error, 'L', 'R');
    let t4 = seq!['N'];
    crate::readback::lemma_flag_plain(d.status_general, 'A', 'V');
    crate::readback::lemma_flag_plain(d.status_cycle_lock, 'A', 'V');
    crate::readback::lemma_signed_plain(d.cross_track_error, 'L', 'R');
    crate::readback::lemma_char_plain('N');
    crate::readback::lemma_split_fields_5(t0, t1, t2, t3, t4);
    lemma_xte_body_parts(d);
}

/// A written XTE value reads back as itself, when its numbers are decimal
/// literals.
#[verifier::spinoff_prover]
pub proof fn lemma_xte_reads_back(d: XteData)
    requires
        crate::readback::valid_opt_number(d.cross_track_error),
    ensures
        xte_data_result(xte_body(d), Ok(d)),
        !xte_body(d).contains('*'),
        vstd::utf8::is_ascii_chars(xte_body(d)),
{
    lemma_xte_fields(d);
    assert(crate::readback::plain_fields(split_fields(xte_body(d)))) by {
        crate::readback::lemma_flag_plain(d.status_general, 'A', 'V');
        crate::readback::lemma_flag_plain(d.status_cycle_lock, 'A', 'V');
        crate::readback::lemma_signed_plain(d.cross_track_error, 'L', 'R');
        crate::readback::lemma_char_plain('N');
    }
    crate::readback::lemma_plain_from_fields(xte_body(d));
    assert(crate::text::negate_if(opt_float_field(crate::readback::mag_text(d.cross_track_error)).unwrap(), crate::readback::dir_text(d.cross_track_error, 'L', 'R') == seq!['L']) == crate::text::opt_num_view(d.cross_track_error) && opt_float_field(crate::readback::mag_text(d.cross_track_error)) is Some && crate::readback::dir_text(d.cross_track_error, 'L', 'R').len() <= 1 && (d.cross_track_error is None ==> crate::readback::dir_text(d.cross_track_error, 'L', 'R').len() == 0) && (d.cross_track_error matches Some(n) ==> crate::readback::dir_text(d.cross_track_error, 'L', 'R') == seq![if n.negative { 'L' } else { 'R' }])) by {
        crate::readback::lemma_signed_reads_back(d.cross_track_error, 'L', 'R');
    }
}

/// Reading an XTE sentence gives its letters their NMEA meaning: the statuses `A` are true; a cross-track error with the direction letter
/// `L` reads negated, with `R` as written.
#[verifier::spinoff_prover]
pub proof fn lemma_xte_letters_read(data: Seq<char>, d: XteData)
    requires
        xte_data_result(data, Ok(d)),
    ensures
        ({
            let f = split_fields(data);
            &&& d.status_general <==> f[0] == seq!['A']
            &&& d.status_cycle_lock <==> f[1] == seq!['A']
            &&& d.cross_track_error is None <==> fnum(f[2]) is None
            &&& d.cross_track_error matches Some(n) ==> (fnum(f[2]) matches Some(v) && n.magnitude@ == v.magnitude
                && (n.negative <==> (v.negative != (f[3] == seq!['L']))))
        }),
{
    let f = split_fields(data);
    crate::text::lemma_letters2('A', 'V', f[0]);
    crate::text::lemma_letters2('A', 'V', f[1]);
    crate::text::lemma_letters2('L', 'R', f[3]);
}

} // verus!
