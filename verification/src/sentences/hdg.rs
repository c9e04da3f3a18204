//! HDG - Heading, Deviation and Variation: `$--HDG,x.x,x.x,a,x.x,a*hh`
//! 1. Magnetic sensor heading, degrees; 2. Magnetic deviation, degrees;
//! 3. Deviation direction, `E` or `W`; 4. Magnetic variation, degrees;
//! 5. Variation direction, `E` or `W`. A westerly deviation or variation is
//! given as a negative number.

use vstd::prelude::*;
use vstd::string::*;

use crate::error::Error;
use crate::generate::GenerateNmeaBody;
use crate::parse::NmeaSentence;
use crate::sentence_type::SentenceType;
use crate::strings::{decimal, opt_number_text, push_char, push_opt_number, push_str};
use crate::text::{
    Number, chars_of, exec_opt_one_of_field, exec_opt_one_of_prefix, field_spans, fnum,
    negate_if, negate_opt, opt_float_field, opt_num_is, opt_num_view, opt_one_of_field,
    opt_one_of_prefix, opt_std_float_field, read_opt_float_field, split_fields,
};

verus! {

/// The data of an HDG sentence.
#[derive(Debug, Clone, PartialEq)]
pub struct HdgData {
    pub heading: Option<Number>,
    pub deviation: Option<Number>,
    pub variation: Option<Number>,
}

/// The HDG grammar over the comma-separated fields.
pub open spec fn hdg_accepts(f: Seq<Seq<char>>) -> bool {
    &&& f.len() >= 5
    &&& opt_float_field(f[0]) is Some
    &&& opt_float_field(f[1]) is Some
    &&& opt_one_of_field(f[2], seq!['E', 'W']) is Some
    &&& opt_float_field(f[3]) is Some
}

/// What reading the data `data` of an HDG sentence gives: the fields it
/// holds when the grammar accepts the data, a parsing error otherwise.
pub open spec fn hdg_data_result(data: Seq<char>, r: Result<HdgData, Error>) -> bool {
    let f = split_fields(data);
    if hdg_accepts(f) {
        r matches Ok(d) && {
            &&& opt_num_is(d.heading, fnum(f[0]))
            &&& opt_num_view(d.deviation) == negate_if(fnum(f[1]), opt_one_of_field(f[2], seq!['E', 'W']) == Some(Some('W')))
            &&& opt_num_view(d.variation) == negate_if(fnum(f[3]), opt_one_of_prefix(f[4], seq!['E', 'W']) == Some('W'))
        }
    } else {
        r == Err::<HdgData, Error>(Error::ParsingError)
    }
}

/// What [`parse_hdg`] gives for a sentence.
pub open spec fn hdg_result(s: NmeaSentence, r: Result<HdgData, Error>) -> bool {
    if s.message_id != SentenceType::HDG {
        r == Err::<HdgData, Error>(
            Error::WrongSentenceHeader { expected: SentenceType::HDG, found: s.message_id },
        )
    } else {
        hdg_data_result(s.data@, r)
    }
}

/// Reads the data of an HDG sentence.
pub fn parse_hdg(sentence: NmeaSentence<'_>) -> (r: Result<HdgData, Error>)
    ensures
        hdg_result(sentence, r),
{
    if sentence.message_id != SentenceType::HDG {
        return Err(Error::WrongSentenceHeader { expected: SentenceType::HDG, found: sentence.message_id });
    }
    let d = sentence.data;
    let s = chars_of(d);
    let sp = field_spans(&s);
    if sp.len() < 5 {
        return Err(Error::ParsingError);
    }
    let ew = ['E', 'W'];
    assert(ew@ =~= seq!['E', 'W']);
    let heading = read_opt_float_field(d, &s, sp[0].0, sp[0].1);
    let dev = read_opt_float_field(d, &s, sp[1].0, sp[1].1);
    let dev_dir = exec_opt_one_of_field(&s, sp[2].0, sp[2].1, ew.as_slice());
    let var = read_opt_float_field(d, &s, sp[3].0, sp[3].1);
    if heading.is_none() || dev.is_none() || dev_dir.is_none() || var.is_none() {
        return Err(Error::ParsingError);
    }
    let var_dir = exec_opt_one_of_prefix(&s, sp[4].0, sp[4].1, ew.as_slice());
    let deviation = negate_opt(dev.unwrap(), dev_dir == Some(Some('W')));
    let variation = negate_opt(var.unwrap(), var_dir == Some('W'));
    Ok(HdgData { heading: heading.unwrap(), deviation, variation })
}

/// The body an HDG value is written as.
pub open spec fn hdg_body(d: HdgData) -> Seq<char> {
    opt_number_text(d.heading) + seq![','] + (match d.deviation { Some(n) => n.magnitude@ + seq![',', (if n.negative { 'W' } else { 'E' })], None => seq![','] }) + seq![','] + (match d.variation { Some(n) => n.magnitude@ + seq![',', (if n.negative { 'W' } else { 'E' })], None => seq![','] })
}

impl GenerateNmeaBody for HdgData {
    open spec fn spec_sentence_type(&self) -> SentenceType {
        SentenceType::HDG
    }

    open spec fn spec_body(&self) -> Seq<char> {
        hdg_body(*self)
    }

    fn sentence_type(&self) -> (t: SentenceType) {
        SentenceType::HDG
    }

    fn write_body(&self, f: &mut String) {
        push_opt_number(f, &self.heading);
        push_char(f, ',');
        match &self.deviation {
            Some(n) => {
                push_str(f, n.magnitude.as_str());
                push_char(f, ',');
                push_char(f, if n.negative { 'W' } else { 'E' });
            },
            None => push_char(f, ','),
        }
        push_char(f, ',');
        match &self.variation {
            Some(n) => {
                push_str(f, n.magnitude.as_str());
                push_char(f, ',');
                push_char(f, if n.negative { 'W' } else { 'E' });
            },
            None => push_char(f, ','),
        }
        assert(f@ =~= old(f)@ + hdg_body(*self));
    }
}

/// The body of an HDG value is its parts joined with commas.
#[verifier::spinoff_prover]
proof fn lemma_hdg_body_parts(d: HdgData)
    ensures
        hdg_body(d) == opt_number_text(d.heading) + seq![','] + crate::readback::mag_text(d.deviation) + seq![','] + crate::readback::dir_text(d.deviation, 'W', 'E') + seq![','] + crate::readback::mag_text(d.variation) + seq![','] + crate::readback::dir_text(d.variation, 'W', 'E'),
{
    let t0 = opt_number_text(d.heading);
    let t1 = crate::readback::mag_text(d.deviation);
    let t2 = crate::readback::dir_text(d.deviation, 'W', 'E');
    let t3 = crate::readback::mag_text(d.variation);
    let t4 = crate::readback::dir_text(d.variation, 'W', 'E');
    
    assert(t0 + seq![','] + t1 + seq![','] + t2 + seq![','] + t3 + seq![','] + t4 =~= hdg_body(d));
}

/// The fields of an written HDG value are its parts, none
/// holding a comma or `*`.
#[verifier::spinoff_prover]
proof fn lemma_hdg_fields(d: HdgData)
    requires
        crate::readback::valid_opt_number(d.heading),
        crate::readback::valid_opt_number(d.deviation),
        crate::readback::valid_opt_number(d.variation),
    ensures
        split_fields(hdg_body(d)) == seq![opt_number_text(d.heading), crate::readback::mag_text(d.deviation), crate::readback::dir_text(d.deviation, 'W', 'E'), crate::readback::mag_text(d.variation), crate::readback::dir_text(d.variation, 'W', 'E')],
{
    let t0 = opt_number_text(d.heading);
    let t1 = crate::readback::mag_text(d.deviation);
    let t2 = crate::readback::dir_text(d.deviation, 'W', 'E');
    let t3 = crate::readback::mag_text(d.variation);
    let t4 = crate::readback::dir_text(d.variation, 'W', 'E');
    crate::readback::lemma_opt_number_plain(d.heading);
    crate::readback::lemma_signed_plain(d.deviation, 'W', 'E');
    crate::readback::lemma_signed_plain(d.variation, 'W', 'E');
    crate::readback::lemma_split_fields_5(t0, t1, t2, t3, t4);
    lemma_hdg_body_parts(d);
}

/// A written HDG value reads back as itself, when its numbers are decimal
/// literals.
#[verifier::spinoff_prover]
pub proof fn lemma_hdg_reads_back(d: HdgData)
    requires
        crate::readback::valid_opt_number(d.heading),
        crate::readback::valid_opt_number(d.deviation),
        crate::readback::valid_opt_number(d.variation),
    ensures
        hdg_data_result(hdg_body(d), Ok(d)),
        !hdg_body(d).contains('*'),
        vstd::utf8::is_ascii_chars(hdg_body(d)),
{
    lemma_hdg_fields(d);
    assert(crate::readback::plain_fields(split_fields(hdg_body(d)))) by {
        crate::readback::lemma_opt_number_plain(d.heading);
        crate::readback::lemma_signed_plain(d.deviation, 'W', 'E');
        crate::readback::lemma_signed_plain(d.variation, 'W', 'E');
    }
    crate::readback::lemma_plain_from_fields(hdg_body(d));
    assert(opt_float_field(opt_number_text(d.heading)) == Some(crate::text::opt_num_view(d.heading)) && opt_std_float_field(opt_number_text(d.heading)) == Some(crate::text::opt_num_view(d.heading))) by {
        crate::readback::lemma_opt_number_reads_back(d.heading);
    }
    assert(crate::text::negate_if(opt_float_field(crate::readback::mag_text(d.deviation)).unwrap(), crate::readback::dir_text(d.deviation, 'W', 'E') == seq!['W']) == crate::text::opt_num_view(d.deviation) && opt_float_field(crate::readback::mag_text(d.deviation)) is Some && crate::readback::dir_text(d.deviation, 'W', 'E').len() <= 1 && (d.deviation is None ==> crate::readback::dir_text(d.deviation, 'W', 'E').len() == 0) && (d.deviation matches Some(n) ==> crate::readback::dir_text(d.deviation, 'W', 'E') == seq![if n.negative { 'W' } else { 'E' }])) by {
        crate::readback::lemma_signed_reads_back(d.deviation, 'W', 'E');
    }
    assert(crate::text::negate_if(opt_float_field(crate::readback::mag_text(d.variation)).unwrap(), crate::readback::dir_text(d.variation, 'W', 'E') == seq!['W']) == crate::text::opt_num_view(d.variation) && opt_float_field(crate::readback::mag_text(d.variation)) is Some && crate::readback::dir_text(d.variation, 'W', 'E').len() <= 1 && (d.variation is None ==> crate::readback::dir_text(d.variation, 'W', 'E').len() == 0) && (d.variation matches Some(n) ==> crate::readback::dir_text(d.variation, 'W', 'E') == seq![if n.negative { 'W' } else { 'E' }])) by {
        crate::readback::lemma_signed_reads_back(d.variation, 'W', 'E');
    }
}

/// Reading an HDG sentence gives its letters their NMEA meaning: a deviation or variation with the letter `W` (west) reads negated, with
/// `E` (east) as written.
#[verifier::spinoff_prover]
pub proof fn lemma_hdg_letters_read(data: Seq<char>, d: HdgData)
    requires
        hdg_data_result(data, Ok(d)),
    ensures
        ({
            let f = split_fields(data);
            &&& d.deviation is None <==> fnum(f[1]) is None
            &&& d.deviation matches Some(n) ==> (fnum(f[1]) matches Some(v) && n.magnitude@ == v.magnitude
                && (n.negative <==> (v.negative != (f[2] == seq!['W']))))
            &&& d.variation is None <==> fnum(f[3]) is None
            &&& d.variation matches Some(n) ==> (fnum(f[3]) matches Some(v) && n.magnitude@ == v.magnitude
                && (n.negative <==> (v.negative != (f[4].len() >= 1 && f[4][0] == 'W'))))
        }),
{
    let f = split_fields(data);
    crate::text::lemma_letters2('E', 'W', f[2]);
    crate::text::lemma_letters2('E', 'W', f[4]);
}

} // verus!
