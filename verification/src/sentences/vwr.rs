//! VWR - Relative Wind Speed and Angle: `$--VWR,x.x,a,x.x,N,x.x,M,x.x,K*hh`
//! 1. Wind direction magnitude, degrees; 2. `L` port or `R` starboard of the
//! bow; 3. Speed, knots; 4. `N`; 5. Speed, meters per second; 6. `M`;
//! 7. Speed, kilometers per hour; 8. `K`.

use vstd::prelude::*;
use vstd::string::*;

use crate::error::Error;
use crate::generate::GenerateNmeaBody;
use crate::parse::NmeaSentence;
use crate::sentence_type::SentenceType;
use crate::strings::{decimal, opt_number_text, push_char, push_opt_number, push_str};
use crate::text::{
    Number, chars_of, exec_opt_char_field, exec_opt_one_of_field, field_spans, fnum, negate_if,
    negate_opt, opt_char_field, opt_float_field, opt_num_is, opt_num_view, opt_one_of_field,
    opt_std_float_field, read_opt_float_field, split_fields,
};

verus! {

/// The data of a VWR sentence.
#[derive(Debug, Clone, PartialEq)]
pub struct VwrData {
    /// Wind angle relative to the bow, 0 to 180 degrees; negative to port.
    pub wind_angle: Option<Number>,
    pub speed_knots: Option<Number>,
    pub speed_mps: Option<Number>,
    pub speed_kmph: Option<Number>,
}

/// The VWR grammar over the comma-separated fields.
pub open spec fn vwr_accepts(f: Seq<Seq<char>>) -> bool {
    &&& f.len() >= 8
    &&& opt_float_field(f[0]) is Some
    &&& opt_one_of_field(f[1], seq!['L', 'R']) is Some
    &&& opt_float_field(f[2]) is Some
    &&& opt_char_field(f[3], 'N')
    &&& opt_float_field(f[4]) is Some
    &&& opt_char_field(f[5], 'M')
    &&& opt_float_field(f[6]) is Some
}

/// What reading the data `data` of a VWR sentence gives: the fields it
/// holds when the grammar accepts the data, a parsing error otherwise.
pub open spec fn vwr_data_result(data: Seq<char>, r: Result<VwrData, Error>) -> bool {
    let f = split_fields(data);
    if vwr_accepts(f) {
        r matches Ok(d) && {
            &&& opt_num_view(d.wind_angle) == negate_if(fnum(f[0]), opt_one_of_field(f[1], seq!['L', 'R']) == Some(Some('L')))
            &&& opt_num_is(d.speed_knots, fnum(f[2]))
            &&& opt_num_is(d.speed_mps, fnum(f[4]))
            &&& opt_num_is(d.speed_kmph, fnum(f[6]))
        }
    } else {
        r == Err::<VwrData, Error>(Error::ParsingError)
    }
}

/// What [`parse_vwr`] gives for a sentence.
pub open spec fn vwr_result(s: NmeaSentence, r: Result<VwrData, Error>) -> bool {
    if s.message_id != SentenceType::VWR {
        r == Err::<VwrData, Error>(
            Error::WrongSentenceHeader { expected: SentenceType::VWR, found: s.message_id },
        )
    } else {
        vwr_data_result(s.data@, r)
    }
}

/// Reads the data of a VWR sentence.
pub fn parse_vwr(sentence: NmeaSentence<'_>) -> (r: Result<VwrData, Error>)
    ensures
        vwr_result(sentence, r),
{
    if sentence.message_id != SentenceType::VWR {
        return Err(Error::WrongSentenceHeader { expected: SentenceType::VWR, found: sentence.message_id });
    }
    let d = sentence.data;
    let s = chars_of(d);
    let sp = field_spans(&s);
    if sp.len() < 8 {
        return Err(Error::ParsingError);
    }
    let lr = ['L', 'R'];
    assert(lr@ =~= seq!['L', 'R']);
    let angle = read_opt_float_field(d, &s, sp[0].0, sp[0].1);
    let dir = exec_opt_one_of_field(&s, sp[1].0, sp[1].1, lr.as_slice());
    let knots = read_opt_float_field(d, &s, sp[2].0, sp[2].1);
    let mps = read_opt_float_field(d, &s, sp[4].0, sp[4].1);
    let kmph = read_opt_float_field(d, &s, sp[6].0, sp[6].1);
    if angle.is_none() || dir.is_none() || knots.is_none() || !exec_opt_char_field(&s, sp[3].0, sp[3].1, 'N') || mps.is_none() || !exec_opt_char_field(&s, sp[5].0, sp[5].1, 'M') || kmph.is_none() {
        return Err(Error::ParsingError);
    }
    let wind_angle = negate_opt(angle.unwrap(), dir == Some(Some('L')));
    Ok(VwrData { wind_angle, speed_knots: knots.unwrap(), speed_mps: mps.unwrap(), speed_kmph: kmph.unwrap() })
}

/// The body a VWR value is written as.
pub open spec fn vwr_body(d: VwrData) -> Seq<char> {
    (match d.wind_angle { Some(n) => n.magnitude@ + seq![',', (if n.negative { 'L' } else { 'R' })], None => seq![','] }) + seq![','] + opt_number_text(d.speed_knots) + seq![',', 'N', ','] + opt_number_text(d.speed_mps) + seq![',', 'M', ','] + opt_number_text(d.speed_kmph) + seq![',', 'K']
}

impl GenerateNmeaBody for VwrData {
    open spec fn spec_sentence_type(&self) -> SentenceType {
        SentenceType::VWR
    }

    open spec fn spec_body(&self) -> Seq<char> {
        vwr_body(*self)
    }

    fn sentence_type(&self) -> (t: SentenceType) {
        SentenceType::VWR
    }

    fn write_body(&self, f: &mut String) {
        match &self.wind_angle {
            Some(n) => {
                push_str(f, n.magnitude.as_str());
                push_char(f, ',');
                push_char(f, if n.negative { 'L' } else { 'R' });
            },
            None => push_char(f, ','),
        }
        push_char(f, ',');
        push_opt_number(f, &self.speed_knots);
        push_char(f, ',');
        push_char(f, 'N');
        push_char(f, ',');
        push_opt_number(f, &self.speed_mps);
        push_char(f, ',');
        push_char(f, 'M');
        push_char(f, ',');
        push_opt_number(f, &self.speed_kmph);
        push_char(f, ',');
        push_char(f, 'K');
        assert(f@ =~= old(f)@ + vwr_body(*self));
    }
}

/// The body of a VWR value is its parts joined with commas.
#[verifier::spinoff_prover]
proof fn lemma_vwr_body_parts(d: VwrData)
    ensures
        vwr_body(d) == crate::readback::mag_text(d.wind_angle) + seq![','] + crate::readback::dir_text(d.wind_angle, 'L', 'R') + seq![','] + opt_number_text(d.speed_knots) + seq![','] + seq!['N'] + seq![','] + opt_number_text(d.speed_mps) + seq![','] + seq!['M'] + seq![','] + opt_number_text(d.speed_kmph) + seq![','] + seq!['K'],
{
    let t0 = crate::readback::mag_text(d.wind_angle);
    let t1 = crate::readback::dir_text(d.wind_angle, 'L', 'R');
    let t2 = opt_number_text(d.speed_knots);
    let t3 = seq!['N'];
    let t4 = opt_number_text(d.speed_mps);
    let t5 = seq!['M'];
    let t6 = opt_number_text(d.speed_kmph);
    let t7 = seq!['K'];
    
    assert(t0 + seq![','] + t1 + seq![','] + t2 + seq![','] + t3 + seq![','] + t4 + seq![','] + t5 + seq![','] + t6 + seq![','] + t7 =~= vwr_body(d));
}

/// The fields of a written VWR value are its parts, none
/// holding a comma or `*`.
#[verifier::spinoff_prover]
proof fn lemma_vwr_fields(d: VwrData)
    requires
        crate::readback::valid_opt_number(d.wind_angle),
        crate::readback::valid_opt_number(d.speed_knots),
        crate::readback::valid_opt_number(d.speed_mps),
        crate::readback::valid_opt_number(d.speed_kmph),
    ensures
        split_fields(vwr_body(d)) == seq![crate::readback::mag_text(d.wind_angle), crate::readback::dir_text(d.wind_angle, 'L', 'R'), opt_number_text(d.speed_knots), seq!['N'], opt_number_text(d.speed_mps), seq!['M'], opt_number_text(d.speed_kmph), seq!['K']],
{
    let t0 = crate::readback::mag_text(d.wind_angle);
    let t1 = crate::readback::dir_text(d.wind_angle, 'L', 'R');
    let t2 = opt_number_text(d.speed_knots);
    let t3 = seq!['N'];
    let t4 = opt_number_text(d.speed_mps);
    let t5 = seq!['M'];
    let t6 = opt_number_text(d.speed_kmph);
    let t7 = seq!['K'];
    crate::readback::lemma_signed_plain(d.wind_angle, 'L', 'R');
    crate::readback::lemma_opt_number_plain(d.speed_knots);
    crate::readback::lemma_char_plain('N');
    crate::readback::lemma_opt_number_plain(d.speed_mps);
    crate::readback::lemma_char_plain('M');
    crate::readback::lemma_opt_number_plain(d.speed_kmph);
    crate::readback::lemma_char_plain('K');
    crate::readback::lemma_split_fields_8(t0, t1, t2, t3, t4, t5, t6, t7);
    lemma_vwr_body_parts(d);
}

/// A written VWR value reads back as itself, when its numbers are decimal
/// literals.
#[verifier::spinoff_prover]
#[verifier::rlimit(50)]
pub proof fn lemma_vwr_reads_back(d: VwrData)
    requires
        crate::readback::valid_opt_number(d.wind_angle),
        crate::readback::valid_opt_number(d.speed_knots),
        crate::readback::valid_opt_number(d.speed_mps),
        crate::readback::valid_opt_number(d.speed_kmph),
    ensures
        vwr_data_result(vwr_body(d), Ok(d)),
        !vwr_body(d).contains('*'),
        vstd::utf8::is_ascii_chars(vwr_body(d)),
{
    lemma_vwr_fields(d);
    assert(crate::readback::plain_fields(split_fields(vwr_body(d)))) by {
        crate::readback::lemma_signed_plain(d.wind_angle, 'L', 'R');
        crate::readback::lemma_opt_number_plain(d.speed_knots);
        crate::readback::lemma_char_plain('N');
        crate::readback::lemma_opt_number_plain(d.speed_mps);
        crate::readback::lemma_char_plain('M');
        crate::readback::lemma_opt_number_plain(d.speed_kmph);
        crate::readback::lemma_char_plain('K');
    }
    crate::readback::lemma_plain_from_fields(vwr_body(d));
    assert(crate::text::negate_if(opt_float_field(crate::readback::mag_text(d.wind_angle)).unwrap(), crate::readback::dir_text(d.wind_angle, 'L', 'R') == seq!['L']) == crate::text::opt_num_view(d.wind_angle) && opt_float_field(crate::readback::mag_text(d.wind_angle)) is Some && crate::readback::dir_text(d.wind_angle, 'L', 'R').len() <= 1 && (d.wind_angle is None ==> crate::readback::dir_text(d.wind_angle, 'L', 'R').len() == 0) && (d.wind_angle matches Some(n) ==> crate::readback::dir_text(d.wind_angle, 'L', 'R') == seq![if n.negative { 'L' } else { 'R' }])) by {
        crate::readback::lemma_signed_reads_back(d.wind_angle, 'L', 'R');
    }
    assert(opt_float_field(opt_number_text(d.speed_knots)) == Some(crate::text::opt_num_view(d.speed_knots)) && opt_std_float_field(opt_number_text(d.speed_knots)) == Some(crate::text::opt_num_view(d.speed_knots))) by {
        crate::readback::lemma_opt_number_reads_back(d.speed_knots);
    }
    assert(opt_float_field(opt_number_text(d.speed_mps)) == Some(crate::text::opt_num_view(d.speed_mps)) && opt_std_float_field(opt_number_text(d.speed_mps)) == Some(crate::text::opt_num_view(d.speed_mps))) by {
        crate::readback::lemma_opt_number_reads_back(d.speed_mps);
    }
    assert(opt_float_field(opt_number_text(d.speed_kmph)) == Some(crate::text::opt_num_view(d.speed_kmph)) && opt_std_float_field(opt_number_text(d.speed_kmph)) == Some(crate::text::opt_num_view(d.speed_kmph))) by {
        crate::readback::lemma_opt_number_reads_back(d.speed_kmph);
    }
}

/// Reading an VWR sentence gives its letters their NMEA meaning: a wind angle with the letter `L` (left of the bow) reads negated, with `R`
/// as written.
#[verifier::spinoff_prover]
pub proof fn lemma_vwr_letters_read(data: Seq<char>, d: VwrData)
    requires
        vwr_data_result(data, Ok(d)),
    ensures
        ({
            let f = split_fields(data);
            &&& d.wind_angle is None <==> fnum(f[0]) is None
            &&& d.wind_angle matches Some(n) ==> (fnum(f[0]) matches Some(v) && n.magnitude@ == v.magnitude
                && (n.negative <==> (v.negative != (f[1] == seq!['L']))))
        }),
{
    let f = split_fields(data);
    crate::text::lemma_letters2('L', 'R', f[1]);
}

} // verus!
