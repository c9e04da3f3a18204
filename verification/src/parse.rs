//! The frame of an NMEA 0183 sentence: `$` or `!`, a two-character talker id,
//! a three-letter sentence type, `,`, the data fields, `*` and two hexadecimal
//! checksum digits; and the dispatch of a checked sentence to its parser.

use vstd::prelude::*;
use vstd::string::*;

use crate::error::Error;
use crate::sentence_type::{SentenceType, spec_code, spec_from_code};
use crate::text::chars_of;
use crate::sentences::apb::{ApbData, apb_data_result, parse_apb};
use crate::sentences::dbs::{DbsData, dbs_data_result, parse_dbs};
use crate::sentences::dbt::{DbtData, dbt_data_result, parse_dbt};
use crate::sentences::dsc::{DscData, dsc_data_result, parse_dsc};
use crate::sentences::gbs::{GbsData, gbs_data_result, parse_gbs};
use crate::sentences::gll::{GllData, gll_data_result, parse_gll};
use crate::sentences::gns::{GnsData, gns_data_result, parse_gns};
use crate::sentences::gsa::{GsaData, gsa_data_result, parse_gsa};
use crate::sentences::gst::{GstData, gst_data_result, parse_gst};
use crate::sentences::hdg::{HdgData, hdg_data_result, parse_hdg};
use crate::sentences::hdm::{HdmData, hdm_data_result, parse_hdm};
use crate::sentences::hsc::{HscData, hsc_data_result, parse_hsc};
use crate::sentences::mda::{MdaData, mda_data_result, parse_mda};
use crate::sentences::mwd::{MwdData, mwd_data_result, parse_mwd};
use crate::sentences::rmb::{RmbData, rmb_data_result, parse_rmb};
use crate::sentences::rot::{RotData, rot_data_result, parse_rot};
use crate::sentences::rpm::{RpmData, rpm_data_result, parse_rpm};
use crate::sentences::rsa::{RsaData, rsa_data_result, parse_rsa};
use crate::sentences::stalk::{StalkData, stalk_data_result, parse_stalk};
use crate::sentences::ttm::{TtmData, ttm_data_result, parse_ttm};
use crate::sentences::vdr::{VdrData, vdr_data_result, parse_vdr};
use crate::sentences::vlw::{VlwData, vlw_data_result, parse_vlw};
use crate::sentences::vpw::{VpwData, vpw_data_result, parse_vpw};
use crate::sentences::vwr::{VwrData, vwr_data_result, parse_vwr};
use crate::sentences::vwt::{VwtData, vwt_data_result, parse_vwt};
use crate::sentences::xdr::{XdrData, xdr_data_result, parse_xdr};
use crate::sentences::xte::{XteData, xte_data_result, parse_xte};
use crate::sentences::ztg::{ZtgData, ztg_data_result, parse_ztg};
use crate::sentences::vdm::{VdmData, vdm_data_result, parse_vdm};
use vstd::utf8::*;

verus! {

/// The maximum sentence length, in bytes, that the library reads.
///
/// NMEA 3.01 allows 82 characters, but some receivers emit longer sentences;
/// anything longer than this is taken to be two sentences run together.
pub const SENTENCE_MAX_LEN: usize = 102;

/// The maximum length, in bytes, of a waypoint id or other text parameter.
pub const TEXT_PARAMETER_MAX_LEN: usize = 64;

/// A sentence split into its frame parts; the data fields are not read yet.
pub struct NmeaSentence<'a> {
    pub talker_id: &'a str,
    pub message_id: SentenceType,
    pub data: &'a str,
    pub checksum: u8,
}

/// The frame parts that a sentence text holds.
pub struct FrameV {
    pub talker_id: Seq<char>,
    pub message_id: SentenceType,
    pub data: Seq<char>,
    pub checksum: u8,
}

/// The exclusive-or of all bytes, starting from zero.
pub open spec fn xor_all(b: Seq<u8>) -> u8
    decreases b.len(),
{
    if b.len() == 0 {
        0
    } else {
        xor_all(b.drop_last()) ^ b.last()
    }
}

/// The byte of an ASCII character.
pub open spec fn ascii_byte(c: char) -> u8 {
    c as u8
}

/// The three bytes of a sentence type's code.
pub open spec fn code_bytes(t: SentenceType) -> Seq<u8> {
    seq![ascii_byte(spec_code(t).0), ascii_byte(spec_code(t).1), ascii_byte(spec_code(t).2)]
}

/// The bytes over which a sentence's checksum is computed:
/// talker id, sentence type, `,` and data.
pub open spec fn checksummed_bytes(talker: Seq<u8>, t: SentenceType, data: Seq<u8>) -> Seq<u8> {
    talker + code_bytes(t) + seq![ascii_byte(',')] + data
}

/// The value of a hexadecimal digit.
pub open spec fn hex_digit(c: char) -> Option<u8> {
    if '0' <= c && c <= '9' {
        Some(((c as u32) - ('0' as u32)) as u8)
    } else if 'a' <= c && c <= 'f' {
        Some(((c as u32) - ('a' as u32) + 10) as u8)
    } else if 'A' <= c && c <= 'F' {
        Some(((c as u32) - ('A' as u32) + 10) as u8)
    } else {
        None
    }
}

/// Two characters read as a hexadecimal byte, the way the standard library
/// reads an unsigned number in base 16: two digits, or `+` and one digit.
pub open spec fn hex_pair(a: char, b: char) -> Option<u8> {
    if a == '+' {
        hex_digit(b)
    } else {
        match (hex_digit(a), hex_digit(b)) {
            (Some(x), Some(y)) => Some((x * 16 + y) as u8),
            _ => None,
        }
    }
}

/// The position of the first `*` at or after `i`.
pub open spec fn star_from(c: Seq<char>, i: int) -> Option<int>
    decreases c.len() - i,
{
    if i < 0 || i >= c.len() {
        None
    } else if c[i] == '*' {
        Some(i)
    } else {
        star_from(c, i + 1)
    }
}

/// The first `*` found at or after `i` lies in the text, at or after `i`.
pub proof fn lemma_star_from_bounds(c: Seq<char>, i: int)
    ensures
        star_from(c, i) matches Some(k) ==> i <= k < c.len() && c[k] == '*',
    decreases c.len() - i,
{
    if 0 <= i < c.len() && c[i] != '*' {
        lemma_star_from_bounds(c, i + 1);
    }
}

/// The frame of a sentence text, if it has one: `$` or `!`, two talker
/// characters, a known three-letter type, `,`, the data up to the first `*`,
/// and a two-character hexadecimal checksum; whatever follows is ignored.
pub open spec fn spec_frame(c: Seq<char>) -> Option<FrameV> {
    if c.len() >= 7 && (c[0] == '$' || c[0] == '!') && spec_from_code(c[3], c[4], c[5]) is Some
        && c[6] == ',' {
        match star_from(c, 7) {
            Some(k) => if k + 3 <= c.len() && hex_pair(c[k + 1], c[k + 2]) is Some {
                Some(
                    FrameV {
                        talker_id: c.subrange(1, 3),
                        message_id: spec_from_code(c[3], c[4], c[5]).unwrap(),
                        data: c.subrange(7, k),
                        checksum: hex_pair(c[k + 1], c[k + 2]).unwrap(),
                    },
                )
            } else {
                None
            },
            None => None,
        }
    } else {
        None
    }
}

/// A frame names the sentence type spelled by the three letters after its
/// talker id: the type's letters are exactly those.
pub proof fn lemma_frame_names_type(c: Seq<char>)
    ensures
        spec_frame(c) matches Some(f) ==> spec_code(f.message_id) == (c[3], c[4], c[5]),
{
    if c.len() >= 7 {
        crate::sentence_type::lemma_from_code_inverse(c[3], c[4], c[5]);
    }
}

/// `ns` holds exactly the frame parts `f`.
pub open spec fn sentence_is(ns: NmeaSentence, f: FrameV) -> bool {
    &&& ns.talker_id@ == f.talker_id
    &&& ns.message_id == f.message_id
    &&& ns.data@ == f.data
    &&& ns.checksum == f.checksum
}

/// What [`parse_nmea_sentence`] gives for a sentence text.
pub open spec fn nmea_sentence_result(s: &str, r: Result<NmeaSentence, Error>) -> bool {
    if s.spec_bytes().len() > SENTENCE_MAX_LEN {
        r == Err::<NmeaSentence, Error>(Error::SentenceLength(s.spec_bytes().len() as usize))
    } else {
        match spec_frame(s@) {
            Some(f) => r matches Ok(ns) && sentence_is(ns, f),
            None => r == Err::<NmeaSentence, Error>(Error::ParsingError),
        }
    }
}

fn exec_hex_digit(c: char) -> (r: Option<u8>)
    ensures
        r == hex_digit(c),
{
    if '0' <= c && c <= '9' {
        Some((c as u32 - '0' as u32) as u8)
    } else if 'a' <= c && c <= 'f' {
        Some((c as u32 - 'a' as u32 + 10) as u8)
    } else if 'A' <= c && c <= 'F' {
        Some((c as u32 - 'A' as u32 + 10) as u8)
    } else {
        None
    }
}

pub(crate) fn exec_hex_pair(a: char, b: char) -> (r: Option<u8>)
    ensures
        r == hex_pair(a, b),
{
    if a == '+' {
        exec_hex_digit(b)
    } else {
        match (exec_hex_digit(a), exec_hex_digit(b)) {
            (Some(x), Some(y)) => Some(x * 16 + y),
            _ => None,
        }
    }
}

fn exec_star_from(c: &Vec<char>, i: usize) -> (r: Option<usize>)
    requires
        i <= c.len(),
    ensures
        match r {
            Some(k) => star_from(c@, i as int) == Some(k as int) && i <= k < c.len(),
            None => star_from(c@, i as int) is None,
        },
{
    let mut j = i;
    while j < c.len()
        invariant
            i <= j <= c.len(),
            star_from(c@, i as int) == star_from(c@, j as int),
        decreases c.len() - j,
    {
        if c[j] == '*' {
            return Some(j);
        }
        j += 1;
    }
    None
}

/// Splits a sentence into talker id, sentence type, data and the checksum it
/// carries, without checking the checksum.
pub fn parse_nmea_sentence(sentence: &str) -> (r: Result<NmeaSentence<'_>, Error>)
    ensures
        nmea_sentence_result(sentence, r),
{
    let len = sentence.as_bytes().len();
    if len > SENTENCE_MAX_LEN {
        return Err(Error::SentenceLength(len));
    }
    let c = chars_of(sentence);
    if c.len() < 7 || !(c[0] == '$' || c[0] == '!') || c[6] != ',' {
        assert(spec_frame(sentence@) is None);
        return Err(Error::ParsingError);
    }
    let message_id = match SentenceType::from_code(c[3], c[4], c[5]) {
        Some(t) => t,
        None => {
            assert(spec_frame(sentence@) is None);
            return Err(Error::ParsingError);
        },
    };
    let k = match exec_star_from(&c, 7) {
        Some(k) => k,
        None => return Err(Error::ParsingError),
    };
    if c.len() - k < 3 {
        return Err(Error::ParsingError);
    }
    let checksum = match exec_hex_pair(c[k + 1], c[k + 2]) {
        Some(h) => h,
        None => return Err(Error::ParsingError),
    };
    let talker_id = sentence.substring_char(1, 3);
    let data = sentence.substring_char(7, k);
    Ok(NmeaSentence { talker_id, message_id, data, checksum })
}


/// The exclusive-or of `prefix + b`, given that of `prefix`.
pub(crate) fn checksum_extend(acc: u8, b: &[u8], Ghost(prefix): Ghost<Seq<u8>>) -> (r: u8)
    requires
        xor_all(prefix) == acc,
    ensures
        r == xor_all(prefix + b@),
{
    let mut r = acc;
    let mut i: usize = 0;
    assert(prefix + b@.take(0) =~= prefix);
    while i < b.len()
        invariant
            i <= b.len(),
            r == xor_all(prefix + b@.take(i as int)),
        decreases b.len() - i,
    {
        assert((prefix + b@.take(i + 1)).drop_last() =~= prefix + b@.take(i as int));
        r = r ^ b[i];
        i += 1;
    }
    assert(b@.take(b.len() as int) =~= b@);
    r
}

fn exec_ascii_byte(c: char) -> (r: u8)
    ensures
        r == ascii_byte(c),
{
    c as u8
}

impl<'a> NmeaSentence<'a> {
    /// The checksum computed over talker id, sentence type, `,` and data:
    /// the exclusive-or of all their bytes.
    pub fn calc_checksum(&self) -> (r: u8)
        ensures
            r == xor_all(
                checksummed_bytes(self.talker_id.spec_bytes(), self.message_id, self.data.spec_bytes()),
            ),
    {
        let (a, b, c) = self.message_id.code();
        let mid = [exec_ascii_byte(a), exec_ascii_byte(b), exec_ascii_byte(c), exec_ascii_byte(',')];
        let mid_s = mid.as_slice();
        let ghost t = self.talker_id.spec_bytes();
        let ghost m = code_bytes(self.message_id) + seq![ascii_byte(',')];
        assert(mid_s@ =~= m);
        assert(Seq::<u8>::empty() + t =~= t);
        let x = checksum_extend(0, self.talker_id.as_bytes(), Ghost(Seq::empty()));
        let y = checksum_extend(x, mid_s, Ghost(t));
        let z = checksum_extend(y, self.data.as_bytes(), Ghost(t + m));
        assert(t + m + self.data.spec_bytes() =~= checksummed_bytes(t, self.message_id, self.data.spec_bytes()));
        z
    }
}


/// The result of reading one sentence.
#[derive(Debug, Clone, PartialEq)]
pub enum ParseResult {
    APB(ApbData),
    DBS(DbsData),
    DBT(DbtData),
    DSC(DscData),
    GBS(GbsData),
    GLL(GllData),
    GNS(GnsData),
    GSA(GsaData),
    GST(GstData),
    HDG(HdgData),
    HDM(HdmData),
    HSC(HscData),
    MDA(MdaData),
    MWD(MwdData),
    RMB(RmbData),
    ROT(RotData),
    RPM(RpmData),
    RSA(RsaData),
    STALK(StalkData),
    TTM(TtmData),
    VDM(VdmData),
    VDO(VdmData),
    VDR(VdrData),
    VLW(VlwData),
    VPW(VpwData),
    VWR(VwrData),
    VWT(VwtData),
    XDR(XdrData),
    XTE(XteData),
    ZTG(ZtgData),
    /// A known sentence type that this library does not read.
    Unsupported(SentenceType),
}

/// The sentence type a parse result was read from.
pub open spec fn spec_sentence_type_of(r: ParseResult) -> SentenceType {
    match r {
        ParseResult::APB(_) => SentenceType::APB,
        ParseResult::DBS(_) => SentenceType::DBS,
        ParseResult::DBT(_) => SentenceType::DBT,
        ParseResult::DSC(_) => SentenceType::DSC,
        ParseResult::GBS(_) => SentenceType::GBS,
        ParseResult::GLL(_) => SentenceType::GLL,
        ParseResult::GNS(_) => SentenceType::GNS,
        ParseResult::GSA(_) => SentenceType::GSA,
        ParseResult::GST(_) => SentenceType::GST,
        ParseResult::HDG(_) => SentenceType::HDG,
        ParseResult::HDM(_) => SentenceType::HDM,
        ParseResult::HSC(_) => SentenceType::HSC,
        ParseResult::MDA(_) => SentenceType::MDA,
        ParseResult::MWD(_) => SentenceType::MWD,
        ParseResult::RMB(_) => SentenceType::RMB,
        ParseResult::ROT(_) => SentenceType::ROT,
        ParseResult::RPM(_) => SentenceType::RPM,
        ParseResult::RSA(_) => SentenceType::RSA,
        ParseResult::STALK(_) => SentenceType::ALK,
        ParseResult::TTM(_) => SentenceType::TTM,
        ParseResult::VDM(_) => SentenceType::VDM,
        ParseResult::VDO(_) => SentenceType::VDO,
        ParseResult::VDR(_) => SentenceType::VDR,
        ParseResult::VLW(_) => SentenceType::VLW,
        ParseResult::VPW(_) => SentenceType::VPW,
        ParseResult::VWR(_) => SentenceType::VWR,
        ParseResult::VWT(_) => SentenceType::VWT,
        ParseResult::XDR(_) => SentenceType::XDR,
        ParseResult::XTE(_) => SentenceType::XTE,
        ParseResult::ZTG(_) => SentenceType::ZTG,
        ParseResult::Unsupported(t) => t,
    }
}

impl<'a> From<&'a ParseResult> for SentenceType {
    fn from(parse_result: &'a ParseResult) -> (t: SentenceType) {
        match parse_result {
            ParseResult::APB(_) => SentenceType::APB,
            ParseResult::DBS(_) => SentenceType::DBS,
            ParseResult::DBT(_) => SentenceType::DBT,
            ParseResult::DSC(_) => SentenceType::DSC,
            ParseResult::GBS(_) => SentenceType::GBS,
            ParseResult::GLL(_) => SentenceType::GLL,
            ParseResult::GNS(_) => SentenceType::GNS,
            ParseResult::GSA(_) => SentenceType::GSA,
            ParseResult::GST(_) => SentenceType::GST,
            ParseResult::HDG(_) => SentenceType::HDG,
            ParseResult::HDM(_) => SentenceType::HDM,
            ParseResult::HSC(_) => SentenceType::HSC,
            ParseResult::MDA(_) => SentenceType::MDA,
            ParseResult::MWD(_) => SentenceType::MWD,
            ParseResult::RMB(_) => SentenceType::RMB,
            ParseResult::ROT(_) => SentenceType::ROT,
            ParseResult::RPM(_) => SentenceType::RPM,
            ParseResult::RSA(_) => SentenceType::RSA,
            ParseResult::STALK(_) => SentenceType::ALK,
            ParseResult::TTM(_) => SentenceType::TTM,
            ParseResult::VDM(_) => SentenceType::VDM,
            ParseResult::VDO(_) => SentenceType::VDO,
            ParseResult::VDR(_) => SentenceType::VDR,
            ParseResult::VLW(_) => SentenceType::VLW,
            ParseResult::VPW(_) => SentenceType::VPW,
            ParseResult::VWR(_) => SentenceType::VWR,
            ParseResult::VWT(_) => SentenceType::VWT,
            ParseResult::XDR(_) => SentenceType::XDR,
            ParseResult::XTE(_) => SentenceType::XTE,
            ParseResult::ZTG(_) => SentenceType::ZTG,
            ParseResult::Unsupported(t) => *t,
        }
    }
}

impl<'a> vstd::std_specs::convert::FromSpecImpl<&'a ParseResult> for SentenceType {
    open spec fn obeys_from_spec() -> bool {
        true
    }

    open spec fn from_spec(v: &'a ParseResult) -> SentenceType {
        spec_sentence_type_of(*v)
    }
}

/// What reading a checked sentence of type `t` with data `data` gives:
/// the parser of that type's result, or `Unsupported` for other types.
pub open spec fn dispatch_result(t: SentenceType, data: Seq<char>, r: Result<ParseResult, Error>) -> bool {
    match t {
        SentenceType::APB => match r {
            Ok(ParseResult::APB(d)) => apb_data_result(data, Ok(d)),
            Err(e) => apb_data_result(data, Err(e)),
            _ => false,
        },
        SentenceType::DBS => match r {
            Ok(ParseResult::DBS(d)) => dbs_data_result(data, Ok(d)),
            Err(e) => dbs_data_result(data, Err(e)),
            _ => false,
        },
        SentenceType::DBT => match r {
            Ok(ParseResult::DBT(d)) => dbt_data_result(data, Ok(d)),
            Err(e) => dbt_data_result(data, Err(e)),
            _ => false,
        },
        SentenceType::DSC => match r {
            Ok(ParseResult::DSC(d)) => dsc_data_result(data, Ok(d)),
            Err(e) => dsc_data_result(data, Err(e)),
            _ => false,
        },
        SentenceType::GBS => match r {
            Ok(ParseResult::GBS(d)) => gbs_data_result(data, Ok(d)),
            Err(e) => gbs_data_result(data, Err(e)),
            _ => false,
        },
        SentenceType::GLL => match r {
            Ok(ParseResult::GLL(d)) => gll_data_result(data, Ok(d)),
            Err(e) => gll_data_result(data, Err(e)),
            _ => false,
        },
        SentenceType::GNS => match r {
            Ok(ParseResult::GNS(d)) => gns_data_result(data, Ok(d)),
            Err(e) => gns_data_result(data, Err(e)),
            _ => false,
        },
        SentenceType::GSA => match r {
            Ok(ParseResult::GSA(d)) => gsa_data_result(data, Ok(d)),
            Err(e) => gsa_data_result(data, Err(e)),
            _ => false,
        },
        SentenceType::GST => match r {
            Ok(ParseResult::GST(d)) => gst_data_result(data, Ok(d)),
            Err(e) => gst_data_result(data, Err(e)),
            _ => false,
        },
        SentenceType::HDG => match r {
            Ok(ParseResult::HDG(d)) => hdg_data_result(data, Ok(d)),
            Err(e) => hdg_data_result(data, Err(e)),
            _ => false,
        },
        SentenceType::HDM => match r {
            Ok(ParseResult::HDM(d)) => hdm_data_result(data, Ok(d)),
            Err(e) => hdm_data_result(data, Err(e)),
            _ => false,
        },
        SentenceType::HSC => match r {
            Ok(ParseResult::HSC(d)) => hsc_data_result(data, Ok(d)),
            Err(e) => hsc_data_result(data, Err(e)),
            _ => false,
        },
        SentenceType::MDA => match r {
            Ok(ParseResult::MDA(d)) => mda_data_result(data, Ok(d)),
            Err(e) => mda_data_result(data, Err(e)),
            _ => false,
        },
        SentenceType::MWD => match r {
            Ok(ParseResult::MWD(d)) => mwd_data_result(data, Ok(d)),
            Err(e) => mwd_data_result(data, Err(e)),
            _ => false,
        },
        SentenceType::RMB => match r {
            Ok(ParseResult::RMB(d)) => rmb_data_result(data, Ok(d)),
            Err(e) => rmb_data_result(data, Err(e)),
            _ => false,
        },
        SentenceType::ROT => match r {
            Ok(ParseResult::ROT(d)) => rot_data_result(data, Ok(d)),
            Err(e) => rot_data_result(data, Err(e)),
            _ => false,
        },
        SentenceType::RPM => match r {
            Ok(ParseResult::RPM(d)) => rpm_data_result(data, Ok(d)),
            Err(e) => rpm_data_result(data, Err(e)),
            _ => false,
        },
        SentenceType::RSA => match r {
            Ok(ParseResult::RSA(d)) => rsa_data_result(data, Ok(d)),
            Err(e) => rsa_data_result(data, Err(e)),
            _ => false,
        },
        SentenceType::ALK => match r {
            Ok(ParseResult::STALK(d)) => stalk_data_result(data, Ok(d)),
            Err(e) => stalk_data_result(data, Err(e)),
            _ => false,
        },
        SentenceType::TTM => match r {
            Ok(ParseResult::TTM(d)) => ttm_data_result(data, Ok(d)),
            Err(e) => ttm_data_result(data, Err(e)),
            _ => false,
        },
        SentenceType::VDR => match r {
            Ok(ParseResult::VDR(d)) => vdr_data_result(data, Ok(d)),
            Err(e) => vdr_data_result(data, Err(e)),
            _ => false,
        },
        SentenceType::VLW => match r {
            Ok(ParseResult::VLW(d)) => vlw_data_result(data, Ok(d)),
            Err(e) => vlw_data_result(data, Err(e)),
            _ => false,
        },
        SentenceType::VPW => match r {
            Ok(ParseResult::VPW(d)) => vpw_data_result(data, Ok(d)),
            Err(e) => vpw_data_result(data, Err(e)),
            _ => false,
        },
        SentenceType::VWR => match r {
            Ok(ParseResult::VWR(d)) => vwr_data_result(data, Ok(d)),
            Err(e) => vwr_data_result(data, Err(e)),
            _ => false,
        },
        SentenceType::VWT => match r {
            Ok(ParseResult::VWT(d)) => vwt_data_result(data, Ok(d)),
            Err(e) => vwt_data_result(data, Err(e)),
            _ => false,
        },
        SentenceType::XDR => match r {
            Ok(ParseResult::XDR(d)) => xdr_data_result(data, Ok(d)),
            Err(e) => xdr_data_result(data, Err(e)),
            _ => false,
        },
        SentenceType::XTE => match r {
            Ok(ParseResult::XTE(d)) => xte_data_result(data, Ok(d)),
            Err(e) => xte_data_result(data, Err(e)),
            _ => false,
        },
        SentenceType::ZTG => match r {
            Ok(ParseResult::ZTG(d)) => ztg_data_result(data, Ok(d)),
            Err(e) => ztg_data_result(data, Err(e)),
            _ => false,
        },
        SentenceType::VDM => match r {
            Ok(ParseResult::VDM(d)) => vdm_data_result(data, false, Ok(d)),
            Err(e) => vdm_data_result(data, false, Err(e)),
            _ => false,
        },
        SentenceType::VDO => match r {
            Ok(ParseResult::VDO(d)) => vdm_data_result(data, true, Ok(d)),
            Err(e) => vdm_data_result(data, true, Err(e)),
            _ => false,
        },
        _ => r == Ok::<ParseResult, Error>(ParseResult::Unsupported(t)),
    }
}

/// The checksum computed over the frame parts of a sentence.
pub open spec fn frame_checksum(f: FrameV) -> u8 {
    xor_all(checksummed_bytes(encode_utf8(f.talker_id), f.message_id, encode_utf8(f.data)))
}

/// What reading a sentence text `c` gives: it must be ASCII, at most
/// `SENTENCE_MAX_LEN` bytes long, have a frame and carry the checksum
/// computed over its parts; then the parser of its type reads its data.
pub open spec fn parse_text_result(c: Seq<char>, r: Result<ParseResult, Error>) -> bool {
    if !is_ascii_chars(c) {
        r == Err::<ParseResult, Error>(Error::ASCII)
    } else if encode_utf8(c).len() > SENTENCE_MAX_LEN {
        r == Err::<ParseResult, Error>(Error::SentenceLength(encode_utf8(c).len() as usize))
    } else {
        match spec_frame(c) {
            None => r == Err::<ParseResult, Error>(Error::ParsingError),
            Some(f) => if f.checksum != frame_checksum(f) {
                r == Err::<ParseResult, Error>(
                    Error::ChecksumMismatch { calculated: frame_checksum(f), found: f.checksum },
                )
            } else {
                dispatch_result(f.message_id, f.data, r)
            },
        }
    }
}

/// A value read from a sentence names the type of that sentence: when
/// reading a sentence text gives a value, `SentenceType::from` that value is
/// the type in the sentence's frame.
#[verifier::spinoff_prover]
#[verifier::rlimit(100)]
pub proof fn lemma_parsed_value_names_its_type(c: Seq<char>, p: ParseResult)
    requires
        parse_text_result(c, Ok(p)),
    ensures
        spec_frame(c) matches Some(f) && spec_sentence_type_of(p) == f.message_id,
{
}

/// What [`parse_str`] gives for a sentence text.
pub open spec fn parse_str_result(s: &str, r: Result<ParseResult, Error>) -> bool {
    parse_text_result(s@, r)
}

fn dispatch(ns: NmeaSentence<'_>) -> (r: Result<ParseResult, Error>)
    ensures
        dispatch_result(ns.message_id, ns.data@, r),
{
    match ns.message_id {
        SentenceType::APB => match parse_apb(ns) {
            Ok(d) => Ok(ParseResult::APB(d)),
            Err(e) => Err(e),
        },
        SentenceType::DBS => match parse_dbs(ns) {
            Ok(d) => Ok(ParseResult::DBS(d)),
            Err(e) => Err(e),
        },
        SentenceType::DBT => match parse_dbt(ns) {
            Ok(d) => Ok(ParseResult::DBT(d)),
            Err(e) => Err(e),
        },
        SentenceType::DSC => match parse_dsc(ns) {
            Ok(d) => Ok(ParseResult::DSC(d)),
            Err(e) => Err(e),
        },
        SentenceType::GBS => match parse_gbs(ns) {
            Ok(d) => Ok(ParseResult::GBS(d)),
            Err(e) => Err(e),
        },
        SentenceType::GLL => match parse_gll(ns) {
            Ok(d) => Ok(ParseResult::GLL(d)),
            Err(e) => Err(e),
        },
        SentenceType::GNS => match parse_gns(ns) {
            Ok(d) => Ok(ParseResult::GNS(d)),
            Err(e) => Err(e),
        },
        SentenceType::GSA => match parse_gsa(ns) {
            Ok(d) => Ok(ParseResult::GSA(d)),
            Err(e) => Err(e),
        },
        SentenceType::GST => match parse_gst(ns) {
            Ok(d) => Ok(ParseResult::GST(d)),
            Err(e) => Err(e),
        },
        SentenceType::HDG => match parse_hdg(ns) {
            Ok(d) => Ok(ParseResult::HDG(d)),
            Err(e) => Err(e),
        },
        SentenceType::HDM => match parse_hdm(ns) {
            Ok(d) => Ok(ParseResult::HDM(d)),
            Err(e) => Err(e),
        },
        SentenceType::HSC => match parse_hsc(ns) {
            Ok(d) => Ok(ParseResult::HSC(d)),
            Err(e) => Err(e),
        },
        SentenceType::MDA => match parse_mda(ns) {
            Ok(d) => Ok(ParseResult::MDA(d)),
            Err(e) => Err(e),
        },
        SentenceType::MWD => match parse_mwd(ns) {
            Ok(d) => Ok(ParseResult::MWD(d)),
            Err(e) => Err(e),
        },
        SentenceType::RMB => match parse_rmb(ns) {
            Ok(d) => Ok(ParseResult::RMB(d)),
            Err(e) => Err(e),
        },
        SentenceType::ROT => match parse_rot(ns) {
            Ok(d) => Ok(ParseResult::ROT(d)),
            Err(e) => Err(e),
        },
        SentenceType::RPM => match parse_rpm(ns) {
            Ok(d) => Ok(ParseResult::RPM(d)),
            Err(e) => Err(e),
        },
        SentenceType::RSA => match parse_rsa(ns) {
            Ok(d) => Ok(ParseResult::RSA(d)),
            Err(e) => Err(e),
        },
        SentenceType::ALK => match parse_stalk(ns) {
            Ok(d) => Ok(ParseResult::STALK(d)),
            Err(e) => Err(e),
        },
        SentenceType::TTM => match parse_ttm(ns) {
            Ok(d) => Ok(ParseResult::TTM(d)),
            Err(e) => Err(e),
        },
        SentenceType::VDR => match parse_vdr(ns) {
            Ok(d) => Ok(ParseResult::VDR(d)),
            Err(e) => Err(e),
        },
        SentenceType::VLW => match parse_vlw(ns) {
            Ok(d) => Ok(ParseResult::VLW(d)),
            Err(e) => Err(e),
        },
        SentenceType::VPW => match parse_vpw(ns) {
            Ok(d) => Ok(ParseResult::VPW(d)),
            Err(e) => Err(e),
        },
        SentenceType::VWR => match parse_vwr(ns) {
            Ok(d) => Ok(ParseResult::VWR(d)),
            Err(e) => Err(e),
        },
        SentenceType::VWT => match parse_vwt(ns) {
            Ok(d) => Ok(ParseResult::VWT(d)),
            Err(e) => Err(e),
        },
        SentenceType::XDR => match parse_xdr(ns) {
            Ok(d) => Ok(ParseResult::XDR(d)),
            Err(e) => Err(e),
        },
        SentenceType::XTE => match parse_xte(ns) {
            Ok(d) => Ok(ParseResult::XTE(d)),
            Err(e) => Err(e),
        },
        SentenceType::ZTG => match parse_ztg(ns) {
            Ok(d) => Ok(ParseResult::ZTG(d)),
            Err(e) => Err(e),
        },
        SentenceType::VDM | SentenceType::VDO => match parse_vdm(ns) {
            Ok(d) => if d.own_vessel {
                Ok(ParseResult::VDO(d))
            } else {
                Ok(ParseResult::VDM(d))
            },
            Err(e) => Err(e),
        },
        t => Ok(ParseResult::Unsupported(t)),
    }
}

/// Reads one NMEA 0183 sentence, given without its `\r\n` ending: checks
/// that it is ASCII, splits its frame, checks its checksum, and reads its
/// data with the parser of its type.
pub fn parse_str(sentence_input: &str) -> (r: Result<ParseResult, Error>)
    ensures
        parse_str_result(sentence_input, r),
{
    if !sentence_input.is_ascii() {
        return Err(Error::ASCII);
    }
    let ns = match parse_nmea_sentence(sentence_input) {
        Ok(ns) => ns,
        Err(e) => return Err(e),
    };
    let calculated = ns.calc_checksum();
    if ns.checksum != calculated {
        return Err(Error::ChecksumMismatch { calculated, found: ns.checksum });
    }
    proof {
        let c = sentence_input@;
        assert(is_ascii_chars(c));
        assert(spec_frame(c) is Some);
        let fr = spec_frame(c).unwrap();
        assert(ns.data@ == fr.data);
        let k = star_from(c, 7).unwrap();
        lemma_star_from_bounds(c, 7);
        assert(7 <= k && k + 3 <= c.len());
        assert(fr.data == c.subrange(7, k));
        assert forall|i: int| 0 <= i < ns.data@.len() implies '\0' <= #[trigger] ns.data@[i] <= '\u{7f}' by {
            assert(ns.data@[i] == c[i + 7]);
        }
    }
    dispatch(ns)
}

/// Turns bytes into a string slice: a wrapper of `core::str::from_utf8`,
/// which the standard library documents as succeeding exactly when the
/// bytes are valid UTF-8, and then viewing the same bytes.
#[verifier::external_body]
fn utf8_str(v: &[u8]) -> (r: Option<&str>)
    ensures
        r is Some <==> valid_utf8(v@),
        r matches Some(s) ==> s.spec_bytes() == v@,
{
    core::str::from_utf8(v).ok()
}

/// Reads one sentence given as bytes: they must be valid UTF-8, then as
/// [`parse_str`].
pub fn parse_bytes(sentence_input: &[u8]) -> (r: Result<ParseResult, Error>)
    ensures
        !valid_utf8(sentence_input@) ==> r == Err::<ParseResult, Error>(Error::Utf8Decoding),
        valid_utf8(sentence_input@) ==> parse_text_result(decode_utf8(sentence_input@), r),
{
    match utf8_str(sentence_input) {
        Some(s) => {
            proof {
                encode_utf8_decode_utf8(s@);
            }
            parse_str(s)
        },
        None => Err(Error::Utf8Decoding),
    }
}

} // verus!
