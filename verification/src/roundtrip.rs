//! What the library writes, it reads back: a sentence written from a
//! parsed value parses as that value.

use vstd::prelude::*;
use vstd::utf8::*;

use crate::generate::{GenerateNmeaBody, sentence_text};
use crate::parse::{ParseResult, SENTENCE_MAX_LEN, dispatch_result, parse_text_result};
use crate::readback::lemma_written_sentence_reads_back;
use crate::sentence_type::SentenceType;

verus! {

/// The sentence type a parsed value is written as.
pub open spec fn written_type(p: ParseResult) -> SentenceType {
    match p {
        ParseResult::APB(d) => d.spec_sentence_type(),
        ParseResult::DBS(d) => d.spec_sentence_type(),
        ParseResult::DBT(d) => d.spec_sentence_type(),
        ParseResult::DSC(d) => d.spec_sentence_type(),
        ParseResult::GBS(d) => d.spec_sentence_type(),
        ParseResult::GLL(d) => d.spec_sentence_type(),
        ParseResult::GNS(d) => d.spec_sentence_type(),
        ParseResult::GSA(d) => d.spec_sentence_type(),
        ParseResult::GST(d) => d.spec_sentence_type(),
        ParseResult::HDG(d) => d.spec_sentence_type(),
        ParseResult::HDM(d) => d.spec_sentence_type(),
        ParseResult::HSC(d) => d.spec_sentence_type(),
        ParseResult::MDA(d) => d.spec_sentence_type(),
        ParseResult::MWD(d) => d.spec_sentence_type(),
        ParseResult::RMB(d) => d.spec_sentence_type(),
        ParseResult::ROT(d) => d.spec_sentence_type(),
        ParseResult::RPM(d) => d.spec_sentence_type(),
        ParseResult::RSA(d) => d.spec_sentence_type(),
        ParseResult::STALK(d) => d.spec_sentence_type(),
        ParseResult::TTM(d) => d.spec_sentence_type(),
        ParseResult::VDM(d) => d.spec_sentence_type(),
        ParseResult::VDO(d) => d.spec_sentence_type(),
        ParseResult::VDR(d) => d.spec_sentence_type(),
        ParseResult::VLW(d) => d.spec_sentence_type(),
        ParseResult::VPW(d) => d.spec_sentence_type(),
        ParseResult::VWR(d) => d.spec_sentence_type(),
        ParseResult::VWT(d) => d.spec_sentence_type(),
        ParseResult::XDR(d) => d.spec_sentence_type(),
        ParseResult::XTE(d) => d.spec_sentence_type(),
        ParseResult::ZTG(d) => d.spec_sentence_type(),
        ParseResult::Unsupported(t) => t,
    }
}

/// The data fields a parsed value is written as.
pub open spec fn written_body(p: ParseResult) -> Seq<char> {
    match p {
        ParseResult::APB(d) => d.spec_body(),
        ParseResult::DBS(d) => d.spec_body(),
        ParseResult::DBT(d) => d.spec_body(),
        ParseResult::DSC(d) => d.spec_body(),
        ParseResult::GBS(d) => d.spec_body(),
        ParseResult::GLL(d) => d.spec_body(),
        ParseResult::GNS(d) => d.spec_body(),
        ParseResult::GSA(d) => d.spec_body(),
        ParseResult::GST(d) => d.spec_body(),
        ParseResult::HDG(d) => d.spec_body(),
        ParseResult::HDM(d) => d.spec_body(),
        ParseResult::HSC(d) => d.spec_body(),
        ParseResult::MDA(d) => d.spec_body(),
        ParseResult::MWD(d) => d.spec_body(),
        ParseResult::RMB(d) => d.spec_body(),
        ParseResult::ROT(d) => d.spec_body(),
        ParseResult::RPM(d) => d.spec_body(),
        ParseResult::RSA(d) => d.spec_body(),
        ParseResult::STALK(d) => d.spec_body(),
        ParseResult::TTM(d) => d.spec_body(),
        ParseResult::VDM(d) => d.spec_body(),
        ParseResult::VDO(d) => d.spec_body(),
        ParseResult::VDR(d) => d.spec_body(),
        ParseResult::VLW(d) => d.spec_body(),
        ParseResult::VPW(d) => d.spec_body(),
        ParseResult::VWR(d) => d.spec_body(),
        ParseResult::VWT(d) => d.spec_body(),
        ParseResult::XDR(d) => d.spec_body(),
        ParseResult::XTE(d) => d.spec_body(),
        ParseResult::ZTG(d) => d.spec_body(),
        ParseResult::Unsupported(_) => Seq::empty(),
    }
}

/// A parsed value whose written fields read back: numbers are decimal
/// literals, times are times of day, positions have two-digit latitude
/// degrees and minutes that are not negative, texts are ASCII without
/// commas or `*`, and the few combinations a sentence cannot tell apart
/// are left out. A value read from a sentence of a type the library does
/// not read is never written.
pub open spec fn writes_readably(p: ParseResult) -> bool {
    match p {
        ParseResult::APB(d) => {
            &&& crate::readback::valid_opt_number(d.cross_track_error)
            &&& crate::readback::valid_opt_number(d.bearing_orig_to_dest)
            &&& crate::readback::valid_opt_name(crate::names::opt_chars64(d.waypoint_id), 64)
            &&& crate::readback::valid_opt_number(d.bearing_pos_to_dest)
            &&& crate::readback::valid_opt_number(d.heading_to_dest)
        },
        ParseResult::DBS(d) => {
            &&& d.water_depth_feet is Some || d.water_depth_meters is Some || d.water_depth_fathoms is Some
            &&& crate::readback::valid_opt_number(d.water_depth_feet)
            &&& crate::readback::valid_opt_number(d.water_depth_meters)
            &&& crate::readback::valid_opt_number(d.water_depth_fathoms)
        },
        ParseResult::DBT(d) => {
            &&& crate::readback::valid_opt_number(d.depth_feet)
            &&& crate::readback::valid_opt_number(d.depth_meters)
            &&& crate::readback::valid_opt_number(d.depth_fathoms)
        },
        ParseResult::DSC(d) => {
            &&& crate::readback::valid_text(crate::bounded::chars10(d.mmsi), 10)
            &&& crate::readback::valid_text(crate::bounded::chars10(d.position_or_data), 10)
            &&& crate::readback::valid_text(crate::bounded::chars4(d.time_utc), 4)
            &&& crate::readback::valid_text(crate::bounded::chars10(d.mmsi_2), 10)
            &&& crate::readback::valid_text(crate::bounded::chars10(d.additional_info), 10)
            &&& crate::readback::valid_opt_char(d.ack_type)
            &&& crate::readback::valid_opt_char(d.expansion_indicator)
        },
        ParseResult::GBS(d) => {
            &&& crate::readback::valid_opt_hms(d.time)
            &&& crate::readback::valid_opt_number(d.lat_error)
            &&& crate::readback::valid_opt_number(d.lon_error)
            &&& crate::readback::valid_opt_number(d.alt_error)
            &&& crate::readback::valid_opt_number(d.missed_probability)
            &&& crate::readback::valid_opt_number(d.bias_estimate)
            &&& crate::readback::valid_opt_number(d.bias_standard_deviation)
        },
        ParseResult::GLL(d) => {
            &&& crate::readback::valid_opt_lat_lon(d.position)
            &&& crate::readback::valid_opt_hms(d.fix_time)
        },
        ParseResult::GNS(d) => {
            &&& 1 <= d.faa_modes.spec_modes().len() <= 6
            &&& crate::readback::valid_opt_hms(d.fix_time)
            &&& crate::readback::valid_opt_lat_lon(d.position)
            &&& crate::readback::valid_opt_number(d.hdop)
            &&& crate::readback::valid_opt_number(d.alt)
            &&& crate::readback::valid_opt_number(d.geoid_separation)
            &&& crate::readback::valid_opt_number(d.age_of_differential)
        },
        ParseResult::GSA(d) => {
            &&& crate::sentences::gsa::gsa_readable(d)
        },
        ParseResult::GST(d) => {
            &&& crate::readback::valid_opt_hms(d.time)
            &&& crate::readback::valid_opt_number(d.rms_sd)
            &&& crate::readback::valid_opt_number(d.ellipse_semi_major_sd)
            &&& crate::readback::valid_opt_number(d.ellipse_semi_minor_sd)
            &&& crate::readback::valid_opt_number(d.err_ellipse_orientation)
            &&& crate::readback::valid_opt_number(d.lat_sd)
            &&& crate::readback::valid_opt_number(d.long_sd)
            &&& crate::readback::valid_opt_number(d.alt_sd)
        },
        ParseResult::HDG(d) => {
            &&& crate::readback::valid_opt_number(d.heading)
            &&& crate::readback::valid_opt_number(d.deviation)
            &&& crate::readback::valid_opt_number(d.variation)
        },
        ParseResult::HDM(d) => {
            &&& crate::readback::valid_opt_number(d.heading)
        },
        ParseResult::HSC(d) => {
            &&& crate::readback::valid_opt_number(d.heading_true)
            &&& crate::readback::valid_opt_number(d.heading_magnetic)
        },
        ParseResult::MDA(d) => {
            &&& crate::readback::valid_opt_number(d.pressure_in_hg)
            &&& crate::readback::valid_opt_number(d.pressure_bar)
            &&& crate::readback::valid_opt_number(d.air_temp_deg)
            &&& crate::readback::valid_opt_number(d.water_temp_deg)
            &&& crate::readback::valid_opt_number(d.rel_humidity)
            &&& crate::readback::valid_opt_number(d.abs_humidity)
            &&& crate::readback::valid_opt_number(d.dew_point)
            &&& crate::readback::valid_opt_number(d.wind_direction_true)
            &&& crate::readback::valid_opt_number(d.wind_direction_magnetic)
            &&& crate::readback::valid_opt_number(d.wind_speed_knots)
            &&& crate::readback::valid_opt_number(d.wind_speed_ms)
        },
        ParseResult::MWD(d) => {
            &&& crate::readback::valid_opt_number(d.wind_direction_true)
            &&& crate::readback::valid_opt_number(d.wind_direction_magnetic)
            &&& crate::readback::valid_opt_number(d.wind_speed_knots)
            &&& crate::readback::valid_opt_number(d.wind_speed_mps)
        },
        ParseResult::RMB(d) => {
            &&& crate::readback::valid_opt_number(d.cross_track_error)
            &&& crate::readback::valid_opt_name(crate::names::opt_chars64(d.origin_waypoint_id), 64)
            &&& crate::readback::valid_opt_name(crate::names::opt_chars64(d.dest_waypoint_id), 64)
            &&& crate::readback::valid_opt_lat_lon(d.dest_position)
            &&& crate::readback::valid_opt_number(d.range_to_dest)
            &&& crate::readback::valid_opt_number(d.bearing_to_dest)
            &&& crate::readback::valid_opt_number(d.closing_velocity)
        },
        ParseResult::ROT(d) => {
            &&& d.valid is Some
            &&& crate::readback::valid_opt_number(d.rate)
        },
        ParseResult::RPM(d) => {
            &&& crate::readback::valid_opt_number(d.rpm)
            &&& crate::readback::valid_opt_number(d.pitch)
        },
        ParseResult::RSA(d) => {
            &&& d.starboard_valid
            &&& crate::readback::valid_opt_number(d.starboard)
            &&& crate::readback::valid_opt_number(d.port)
        },
        ParseResult::STALK(d) => {
            &&& crate::bounded::bytes18(d.payload).len() <= 18
        },
        ParseResult::TTM(d) => {
            &&& d.target_number matches Some(n) ==> n <= 99
            &&& crate::sentences::ttm::valid_angle(d.bearing_from_own_ship)
            &&& crate::sentences::ttm::valid_angle(d.target_course)
            &&& crate::readback::valid_opt_number(d.target_distance)
            &&& crate::readback::valid_opt_number(d.target_speed)
            &&& crate::readback::valid_opt_number(d.distance_of_cpa)
            &&& crate::readback::valid_opt_number(d.time_to_cpa)
            &&& crate::readback::valid_opt_name(crate::names::opt_chars_h32(d.target_name), 32)
            &&& crate::readback::valid_opt_hms(d.time_of_data)
        },
        ParseResult::VDM(d) => {
            &&& !d.own_vessel
            &&& d.channel matches Some(c) ==> (c == 'A' || c == 'B' || c == '1' || c == '2')
            &&& crate::readback::valid_name(crate::bounded::chars82(d.payload))
            &&& crate::text::utf8_len(crate::bounded::chars82(d.payload)) <= 82
        },
        ParseResult::VDO(d) => {
            &&& d.own_vessel
            &&& d.channel matches Some(c) ==> (c == 'A' || c == 'B' || c == '1' || c == '2')
            &&& crate::readback::valid_name(crate::bounded::chars82(d.payload))
            &&& crate::text::utf8_len(crate::bounded::chars82(d.payload)) <= 82
        },
        ParseResult::VDR(d) => {
            &&& crate::readback::valid_opt_number(d.direction_true)
            &&& crate::readback::valid_opt_number(d.direction_magnetic)
            &&& crate::readback::valid_opt_number(d.speed)
        },
        ParseResult::VLW(d) => {
            &&& crate::readback::valid_opt_number(d.total_water_distance)
            &&& crate::readback::valid_opt_number(d.trip_water_distance)
            &&& crate::readback::valid_opt_number(d.total_ground_distance)
            &&& crate::readback::valid_opt_number(d.trip_ground_distance)
        },
        ParseResult::VPW(d) => {
            &&& crate::readback::valid_opt_number(d.speed_knots)
            &&& crate::readback::valid_opt_number(d.speed_mps)
        },
        ParseResult::VWR(d) => {
            &&& crate::readback::valid_opt_number(d.wind_angle)
            &&& crate::readback::valid_opt_number(d.speed_knots)
            &&& crate::readback::valid_opt_number(d.speed_mps)
            &&& crate::readback::valid_opt_number(d.speed_kmph)
        },
        ParseResult::VWT(d) => {
            &&& crate::readback::valid_opt_number(d.wind_angle)
            &&& crate::readback::valid_opt_number(d.speed_knots)
            &&& crate::readback::valid_opt_number(d.speed_mps)
            &&& crate::readback::valid_opt_number(d.speed_kmph)
        },
        ParseResult::XDR(d) => {
            &&& crate::bounded::measurements8(d.measurements).len() <= 8
            &&& forall|j: int| 0 <= j < crate::bounded::measurements8(d.measurements).len() ==> crate::sentences::xdr::valid_measurement(#[trigger] crate::bounded::measurements8(d.measurements)[j])
        },
        ParseResult::XTE(d) => {
            &&& crate::readback::valid_opt_number(d.cross_track_error)
        },
        ParseResult::ZTG(d) => {
            &&& crate::readback::valid_opt_hms(d.fix_time)
            &&& crate::readback::valid_opt_duration(d.fix_duration)
            &&& crate::readback::valid_opt_name(crate::names::opt_chars64(d.waypoint_id), 64)
        },
        ParseResult::Unsupported(_) => false,
    }
}

/// The APB case of [`lemma_written_body_reads_back`].
proof fn lemma_apb_written(d: crate::sentences::ApbData)
    requires
        writes_readably(ParseResult::APB(d)),
    ensures
        dispatch_result(written_type(ParseResult::APB(d)), written_body(ParseResult::APB(d)), Ok(ParseResult::APB(d))),
        !written_body(ParseResult::APB(d)).contains('*'),
        is_ascii_chars(written_body(ParseResult::APB(d))),
{
    crate::sentences::apb::lemma_apb_reads_back(d);
}

/// The DBS case of [`lemma_written_body_reads_back`].
proof fn lemma_dbs_written(d: crate::sentences::DbsData)
    requires
        writes_readably(ParseResult::DBS(d)),
    ensures
        dispatch_result(written_type(ParseResult::DBS(d)), written_body(ParseResult::DBS(d)), Ok(ParseResult::DBS(d))),
        !written_body(ParseResult::DBS(d)).contains('*'),
        is_ascii_chars(written_body(ParseResult::DBS(d))),
{
    crate::sentences::dbs::lemma_dbs_reads_back(d);
}

/// The DBT case of [`lemma_written_body_reads_back`].
proof fn lemma_dbt_written(d: crate::sentences::DbtData)
    requires
        writes_readably(ParseResult::DBT(d)),
    ensures
        dispatch_result(written_type(ParseResult::DBT(d)), written_body(ParseResult::DBT(d)), Ok(ParseResult::DBT(d))),
        !written_body(ParseResult::DBT(d)).contains('*'),
        is_ascii_chars(written_body(ParseResult::DBT(d))),
{
    crate::sentences::dbt::lemma_dbt_reads_back(d);
}

/// The DSC case of [`lemma_written_body_reads_back`].
proof fn lemma_dsc_written(d: crate::sentences::DscData)
    requires
        writes_readably(ParseResult::DSC(d)),
    ensures
        dispatch_result(written_type(ParseResult::DSC(d)), written_body(ParseResult::DSC(d)), Ok(ParseResult::DSC(d))),
        !written_body(ParseResult::DSC(d)).contains('*'),
        is_ascii_chars(written_body(ParseResult::DSC(d))),
{
    crate::sentences::dsc::lemma_dsc_reads_back(d);
}

/// The GBS case of [`lemma_written_body_reads_back`].
proof fn lemma_gbs_written(d: crate::sentences::GbsData)
    requires
        writes_readably(ParseResult::GBS(d)),
    ensures
        dispatch_result(written_type(ParseResult::GBS(d)), written_body(ParseResult::GBS(d)), Ok(ParseResult::GBS(d))),
        !written_body(ParseResult::GBS(d)).contains('*'),
        is_ascii_chars(written_body(ParseResult::GBS(d))),
{
    crate::sentences::gbs::lemma_gbs_reads_back(d);
}

/// The GLL case of [`lemma_written_body_reads_back`].
proof fn lemma_gll_written(d: crate::sentences::GllData)
    requires
        writes_readably(ParseResult::GLL(d)),
    ensures
        dispatch_result(written_type(ParseResult::GLL(d)), written_body(ParseResult::GLL(d)), Ok(ParseResult::GLL(d))),
        !written_body(ParseResult::GLL(d)).contains('*'),
        is_ascii_chars(written_body(ParseResult::GLL(d))),
{
    crate::sentences::gll::lemma_gll_reads_back(d);
}

/// The GNS case of [`lemma_written_body_reads_back`].
proof fn lemma_gns_written(d: crate::sentences::GnsData)
    requires
        writes_readably(ParseResult::GNS(d)),
    ensures
        dispatch_result(written_type(ParseResult::GNS(d)), written_body(ParseResult::GNS(d)), Ok(ParseResult::GNS(d))),
        !written_body(ParseResult::GNS(d)).contains('*'),
        is_ascii_chars(written_body(ParseResult::GNS(d))),
{
    crate::sentences::gns::lemma_gns_reads_back(d);
}

/// The GSA case of [`lemma_written_body_reads_back`].
proof fn lemma_gsa_written(d: crate::sentences::GsaData)
    requires
        writes_readably(ParseResult::GSA(d)),
    ensures
        dispatch_result(written_type(ParseResult::GSA(d)), written_body(ParseResult::GSA(d)), Ok(ParseResult::GSA(d))),
        !written_body(ParseResult::GSA(d)).contains('*'),
        is_ascii_chars(written_body(ParseResult::GSA(d))),
{
    crate::sentences::gsa::lemma_gsa_reads_back(d);
}

/// The GST case of [`lemma_written_body_reads_back`].
proof fn lemma_gst_written(d: crate::sentences::GstData)
    requires
        writes_readably(ParseResult::GST(d)),
    ensures
        dispatch_result(written_type(ParseResult::GST(d)), written_body(ParseResult::GST(d)), Ok(ParseResult::GST(d))),
        !written_body(ParseResult::GST(d)).contains('*'),
        is_ascii_chars(written_body(ParseResult::GST(d))),
{
    crate::sentences::gst::lemma_gst_reads_back(d);
}

/// The HDG case of [`lemma_written_body_reads_back`].
proof fn lemma_hdg_written(d: crate::sentences::HdgData)
    requires
        writes_readably(ParseResult::HDG(d)),
    ensures
        dispatch_result(written_type(ParseResult::HDG(d)), written_body(ParseResult::HDG(d)), Ok(ParseResult::HDG(d))),
        !written_body(ParseResult::HDG(d)).contains('*'),
        is_ascii_chars(written_body(ParseResult::HDG(d))),
{
    crate::sentences::hdg::lemma_hdg_reads_back(d);
}

/// The HDM case of [`lemma_written_body_reads_back`].
proof fn lemma_hdm_written(d: crate::sentences::HdmData)
    requires
        writes_readably(ParseResult::HDM(d)),
    ensures
        dispatch_result(written_type(ParseResult::HDM(d)), written_body(ParseResult::HDM(d)), Ok(ParseResult::HDM(d))),
        !written_body(ParseResult::HDM(d)).contains('*'),
        is_ascii_chars(written_body(ParseResult::HDM(d))),
{
    crate::sentences::hdm::lemma_hdm_reads_back(d);
}

/// The HSC case of [`lemma_written_body_reads_back`].
proof fn lemma_hsc_written(d: crate::sentences::HscData)
    requires
        writes_readably(ParseResult::HSC(d)),
    ensures
        dispatch_result(written_type(ParseResult::HSC(d)), written_body(ParseResult::HSC(d)), Ok(ParseResult::HSC(d))),
        !written_body(ParseResult::HSC(d)).contains('*'),
        is_ascii_chars(written_body(ParseResult::HSC(d))),
{
    crate::sentences::hsc::lemma_hsc_reads_back(d);
}

/// The MDA case of [`lemma_written_body_reads_back`].
proof fn lemma_mda_written(d: crate::sentences::MdaData)
    requires
        writes_readably(ParseResult::MDA(d)),
    ensures
        dispatch_result(written_type(ParseResult::MDA(d)), written_body(ParseResult::MDA(d)), Ok(ParseResult::MDA(d))),
        !written_body(ParseResult::MDA(d)).contains('*'),
        is_ascii_chars(written_body(ParseResult::MDA(d))),
{
    crate::sentences::mda::lemma_mda_reads_back(d);
}

/// The MWD case of [`lemma_written_body_reads_back`].
proof fn lemma_mwd_written(d: crate::sentences::MwdData)
    requires
        writes_readably(ParseResult::MWD(d)),
    ensures
        dispatch_result(written_type(ParseResult::MWD(d)), written_body(ParseResult::MWD(d)), Ok(ParseResult::MWD(d))),
        !written_body(ParseResult::MWD(d)).contains('*'),
        is_ascii_chars(written_body(ParseResult::MWD(d))),
{
    crate::sentences::mwd::lemma_mwd_reads_back(d);
}

/// The RMB case of [`lemma_written_body_reads_back`].
proof fn lemma_rmb_written(d: crate::sentences::RmbData)
    requires
        writes_readably(ParseResult::RMB(d)),
    ensures
        dispatch_result(written_type(ParseResult::RMB(d)), written_body(ParseResult::RMB(d)), Ok(ParseResult::RMB(d))),
        !written_body(ParseResult::RMB(d)).contains('*'),
        is_ascii_chars(written_body(ParseResult::RMB(d))),
{
    crate::sentences::rmb::lemma_rmb_reads_back(d);
}

/// The ROT case of [`lemma_written_body_reads_back`].
proof fn lemma_rot_written(d: crate::sentences::RotData)
    requires
        writes_readably(ParseResult::ROT(d)),
    ensures
        dispatch_result(written_type(ParseResult::ROT(d)), written_body(ParseResult::ROT(d)), Ok(ParseResult::ROT(d))),
        !written_body(ParseResult::ROT(d)).contains('*'),
        is_ascii_chars(written_body(ParseResult::ROT(d))),
{
    crate::sentences::rot::lemma_rot_reads_back(d);
}

/// The RPM case of [`lemma_written_body_reads_back`].
proof fn lemma_rpm_written(d: crate::sentences::RpmData)
    requires
        writes_readably(ParseResult::RPM(d)),
    ensures
        dispatch_result(written_type(ParseResult::RPM(d)), written_body(ParseResult::RPM(d)), Ok(ParseResult::RPM(d))),
        !written_body(ParseResult::RPM(d)).contains('*'),
        is_ascii_chars(written_body(ParseResult::RPM(d))),
{
    crate::sentences::rpm::lemma_rpm_reads_back(d);
}

/// The RSA case of [`lemma_written_body_reads_back`].
proof fn lemma_rsa_written(d: crate::sentences::RsaData)
    requires
        writes_readably(ParseResult::RSA(d)),
    ensures
        dispatch_result(written_type(ParseResult::RSA(d)), written_body(ParseResult::RSA(d)), Ok(ParseResult::RSA(d))),
        !written_body(ParseResult::RSA(d)).contains('*'),
        is_ascii_chars(written_body(ParseResult::RSA(d))),
{
    crate::sentences::rsa::lemma_rsa_reads_back(d);
}

/// The STALK case of [`lemma_written_body_reads_back`].
proof fn lemma_stalk_written(d: crate::sentences::StalkData)
    requires
        writes_readably(ParseResult::STALK(d)),
    ensures
        dispatch_result(written_type(ParseResult::STALK(d)), written_body(ParseResult::STALK(d)), Ok(ParseResult::STALK(d))),
        !written_body(ParseResult::STALK(d)).contains('*'),
        is_ascii_chars(written_body(ParseResult::STALK(d))),
{
    crate::sentences::stalk::lemma_stalk_reads_back(d);
}

/// The TTM case of [`lemma_written_body_reads_back`].
proof fn lemma_ttm_written(d: crate::sentences::TtmData)
    requires
        writes_readably(ParseResult::TTM(d)),
    ensures
        dispatch_result(written_type(ParseResult::TTM(d)), written_body(ParseResult::TTM(d)), Ok(ParseResult::TTM(d))),
        !written_body(ParseResult::TTM(d)).contains('*'),
        is_ascii_chars(written_body(ParseResult::TTM(d))),
{
    crate::sentences::ttm::lemma_ttm_reads_back(d);
}

/// The VDM case of [`lemma_written_body_reads_back`].
proof fn lemma_vdm_written(d: crate::sentences::VdmData)
    requires
        writes_readably(ParseResult::VDM(d)),
    ensures
        dispatch_result(written_type(ParseResult::VDM(d)), written_body(ParseResult::VDM(d)), Ok(ParseResult::VDM(d))),
        !written_body(ParseResult::VDM(d)).contains('*'),
        is_ascii_chars(written_body(ParseResult::VDM(d))),
{
    crate::sentences::vdm::lemma_vdm_reads_back(d);
}

/// The VDO case of [`lemma_written_body_reads_back`].
proof fn lemma_vdo_written(d: crate::sentences::VdmData)
    requires
        writes_readably(ParseResult::VDO(d)),
    ensures
        dispatch_result(written_type(ParseResult::VDO(d)), written_body(ParseResult::VDO(d)), Ok(ParseResult::VDO(d))),
        !written_body(ParseResult::VDO(d)).contains('*'),
        is_ascii_chars(written_body(ParseResult::VDO(d))),
{
    crate::sentences::vdm::lemma_vdm_reads_back(d);
}

/// The VDR case of [`lemma_written_body_reads_back`].
proof fn lemma_vdr_written(d: crate::sentences::VdrData)
    requires
        writes_readably(ParseResult::VDR(d)),
    ensures
        dispatch_result(written_type(ParseResult::VDR(d)), written_body(ParseResult::VDR(d)), Ok(ParseResult::VDR(d))),
        !written_body(ParseResult::VDR(d)).contains('*'),
        is_ascii_chars(written_body(ParseResult::VDR(d))),
{
    crate::sentences::vdr::lemma_vdr_reads_back(d);
}

/// The VLW case of [`lemma_written_body_reads_back`].
proof fn lemma_vlw_written(d: crate::sentences::VlwData)
    requires
        writes_readably(ParseResult::VLW(d)),
    ensures
        dispatch_result(written_type(ParseResult::VLW(d)), written_body(ParseResult::VLW(d)), Ok(ParseResult::VLW(d))),
        !written_body(ParseResult::VLW(d)).contains('*'),
        is_ascii_chars(written_body(ParseResult::VLW(d))),
{
    crate::sentences::vlw::lemma_vlw_reads_back(d);
}

/// The VPW case of [`lemma_written_body_reads_back`].
proof fn lemma_vpw_written(d: crate::sentences::VpwData)
    requires
        writes_readably(ParseResult::VPW(d)),
    ensures
        dispatch_result(written_type(ParseResult::VPW(d)), written_body(ParseResult::VPW(d)), Ok(ParseResult::VPW(d))),
        !written_body(ParseResult::VPW(d)).contains('*'),
        is_ascii_chars(written_body(ParseResult::VPW(d))),
{
    crate::sentences::vpw::lemma_vpw_reads_back(d);
}

/// The VWR case of [`lemma_written_body_reads_back`].
proof fn lemma_vwr_written(d: crate::sentences::VwrData)
    requires
        writes_readably(ParseResult::VWR(d)),
    ensures
        dispatch_result(written_type(ParseResult::VWR(d)), written_body(ParseResult::VWR(d)), Ok(ParseResult::VWR(d))),
        !written_body(ParseResult::VWR(d)).contains('*'),
        is_ascii_chars(written_body(ParseResult::VWR(d))),
{
    crate::sentences::vwr::lemma_vwr_reads_back(d);
}

/// The VWT case of [`lemma_written_body_reads_back`].
proof fn lemma_vwt_written(d: crate::sentences::VwtData)
    requires
        writes_readably(ParseResult::VWT(d)),
    ensures
        dispatch_result(written_type(ParseResult::VWT(d)), written_body(ParseResult::VWT(d)), Ok(ParseResult::VWT(d))),
        !written_body(ParseResult::VWT(d)).contains('*'),
        is_ascii_chars(written_body(ParseResult::VWT(d))),
{
    crate::sentences::vwt::lemma_vwt_reads_back(d);
}

/// The XDR case of [`lemma_written_body_reads_back`].
proof fn lemma_xdr_written(d: crate::sentences::XdrData)
    requires
        writes_readably(ParseResult::XDR(d)),
    ensures
        dispatch_result(written_type(ParseResult::XDR(d)), written_body(ParseResult::XDR(d)), Ok(ParseResult::XDR(d))),
        !written_body(ParseResult::XDR(d)).contains('*'),
        is_ascii_chars(written_body(ParseResult::XDR(d))),
{
    crate::sentences::xdr::lemma_xdr_reads_back(d);
}

/// The XTE case of [`lemma_written_body_reads_back`].
proof fn lemma_xte_written(d: crate::sentences::XteData)
    requires
        writes_readably(ParseResult::XTE(d)),
    ensures
        dispatch_result(written_type(ParseResult::XTE(d)), written_body(ParseResult::XTE(d)), Ok(ParseResult::XTE(d))),
        !written_body(ParseResult::XTE(d)).contains('*'),
        is_ascii_chars(written_body(ParseResult::XTE(d))),
{
    crate::sentences::xte::lemma_xte_reads_back(d);
}

/// The ZTG case of [`lemma_written_body_reads_back`].
proof fn lemma_ztg_written(d: crate::sentences::ZtgData)
    requires
        writes_readably(ParseResult::ZTG(d)),
    ensures
        dispatch_result(written_type(ParseResult::ZTG(d)), written_body(ParseResult::ZTG(d)), Ok(ParseResult::ZTG(d))),
        !written_body(ParseResult::ZTG(d)).contains('*'),
        is_ascii_chars(written_body(ParseResult::ZTG(d))),
{
    crate::sentences::ztg::lemma_ztg_reads_back(d);
}

/// The data fields written from a parsed value read back as that value,
/// hold no `*` and are ASCII.
proof fn lemma_written_body_reads_back(p: ParseResult)
    requires
        writes_readably(p),
    ensures
        dispatch_result(written_type(p), written_body(p), Ok(p)),
        !written_body(p).contains('*'),
        is_ascii_chars(written_body(p)),
{
    match p {
        ParseResult::APB(d) => lemma_apb_written(d),
        ParseResult::DBS(d) => lemma_dbs_written(d),
        ParseResult::DBT(d) => lemma_dbt_written(d),
        ParseResult::DSC(d) => lemma_dsc_written(d),
        ParseResult::GBS(d) => lemma_gbs_written(d),
        ParseResult::GLL(d) => lemma_gll_written(d),
        ParseResult::GNS(d) => lemma_gns_written(d),
        ParseResult::GSA(d) => lemma_gsa_written(d),
        ParseResult::GST(d) => lemma_gst_written(d),
        ParseResult::HDG(d) => lemma_hdg_written(d),
        ParseResult::HDM(d) => lemma_hdm_written(d),
        ParseResult::HSC(d) => lemma_hsc_written(d),
        ParseResult::MDA(d) => lemma_mda_written(d),
        ParseResult::MWD(d) => lemma_mwd_written(d),
        ParseResult::RMB(d) => lemma_rmb_written(d),
        ParseResult::ROT(d) => lemma_rot_written(d),
        ParseResult::RPM(d) => lemma_rpm_written(d),
        ParseResult::RSA(d) => lemma_rsa_written(d),
        ParseResult::STALK(d) => lemma_stalk_written(d),
        ParseResult::TTM(d) => lemma_ttm_written(d),
        ParseResult::VDM(d) => lemma_vdm_written(d),
        ParseResult::VDO(d) => lemma_vdo_written(d),
        ParseResult::VDR(d) => lemma_vdr_written(d),
        ParseResult::VLW(d) => lemma_vlw_written(d),
        ParseResult::VPW(d) => lemma_vpw_written(d),
        ParseResult::VWR(d) => lemma_vwr_written(d),
        ParseResult::VWT(d) => lemma_vwt_written(d),
        ParseResult::XDR(d) => lemma_xdr_written(d),
        ParseResult::XTE(d) => lemma_xte_written(d),
        ParseResult::ZTG(d) => lemma_ztg_written(d),
        ParseResult::Unsupported(_) => {},
    }
}

/// A sentence written from a parsed value, with a two-character ASCII
/// talker id and at most `SENTENCE_MAX_LEN` bytes in all, parses as that
/// value, when its fields are in a form the library reads back.
pub proof fn lemma_generated_sentence_reads_back(talker: Seq<char>, p: ParseResult)
    requires
        talker.len() == 2,
        is_ascii_chars(talker),
        writes_readably(p),
        encode_utf8(sentence_text(talker, written_type(p), written_body(p))).len() <= SENTENCE_MAX_LEN,
    ensures
        parse_text_result(sentence_text(talker, written_type(p), written_body(p)), Ok(p)),
{
    lemma_written_body_reads_back(p);
    lemma_written_sentence_reads_back(talker, written_type(p), written_body(p), Ok(p));
}

} // verus!
