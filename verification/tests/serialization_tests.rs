//! Writing sentences with `generate_sentence` and reading them back.
//!
//! 1. Format: a generated sentence starts with `$` and ends with `*HH`.
//! 2. Checksum: the checksum written is the one computed.
//! 3. Round trip: generate, parse and compare, for every type that is written.

#![allow(dead_code, unused_imports)]

use nmea::generate::{generate_sentence, GenerateNmeaBody};
use nmea::sentences::{HdgData, HdmData, HscData, MwdData, RotData, RpmData, RpmSource, RsaData, VdrData, VpwData, VwrData, XteData};
use nmea::{parse_nmea_sentence, parse_str, LatLon, Number, ParseResult, SentenceType};

fn num(s: &str) -> Option<Number> {
    let (negative, magnitude) = match s.strip_prefix('-') {
        Some(rest) => (true, rest),
        None => (false, s),
    };
    Some(Number { negative, magnitude: magnitude.to_string() })
}

fn num_f64(n: &Number) -> f64 {
    let v: f64 = n.magnitude.parse().expect("a decimal literal");
    if n.negative { -v } else { v }
}

fn assert_eps(actual: f64, expected: f64, eps: f64) {
    assert!((actual - expected).abs() <= eps, "{} is not within {} of {}", actual, eps, expected);
}

fn assert_num(o: &Option<Number>, expected: f64) {
    let v = num_f64(o.as_ref().expect("a number"));
    assert_eps(v, expected, 1e-9 * expected.abs().max(1.0));
}

/// Both numbers are present and hold the same value.
fn assert_same(a: &Option<Number>, b: &Option<Number>) {
    let x = num_f64(a.as_ref().expect("a number"));
    assert_num(b, x);
}

fn lat_of(p: &Option<LatLon>) -> f64 {
    let p = p.as_ref().expect("a position");
    let v = p.lat_degrees as f64 + num_f64(&p.lat_minutes) / 60.0;
    if p.south { -v } else { v }
}

/// Validate that a generated sentence starts with `$` or `!`, ends with `*`
/// and two hex digits, and carries the checksum computed over it.
fn assert_valid_sentence_format(sentence: &str) {
    assert!(
        sentence.starts_with('$') || sentence.starts_with('!'),
        "Sentence must start with '$' or '!': {}",
        sentence,
    );
    let star_pos = sentence
        .rfind('*')
        .unwrap_or_else(|| panic!("Sentence must contain '*': {}", sentence));
    let checksum_str = &sentence[star_pos + 1..];
    assert_eq!(checksum_str.len(), 2, "Checksum must be exactly 2 hex digits, got '{}' in: {}", checksum_str, sentence);
    assert!(
        checksum_str.chars().all(|c| c.is_ascii_hexdigit()),
        "Checksum must be hex digits, got '{}' in: {}",
        checksum_str,
        sentence,
    );
    let parsed = parse_nmea_sentence(sentence)
        .unwrap_or_else(|e| panic!("Failed to parse generated sentence '{}': {:?}", sentence, e));
    assert_eq!(parsed.checksum, parsed.calc_checksum(), "Checksum mismatch for generated sentence: {}", sentence);
}

/// Generate a sentence from a data struct, validate its format, and return it.
fn generate_and_validate<T: GenerateNmeaBody>(talker_id: &str, data: &T) -> String {
    let mut buf = String::new();
    generate_sentence(talker_id, data, &mut buf)
        .unwrap_or_else(|e| panic!("Failed to generate sentence: {:?}", e));
    assert_valid_sentence_format(&buf);
    buf
}

/// Parse a known-good sentence, generate a new one from its data, parse
/// that, and return both results for comparison.
fn roundtrip_sentence(sentence: &str) -> (ParseResult, ParseResult) {
    let original = parse_str(sentence)
        .unwrap_or_else(|e| panic!("Failed to parse original sentence '{}': {:?}", sentence, e));
    let nmea_sentence = parse_nmea_sentence(sentence)
        .unwrap_or_else(|e| panic!("Failed to parse NMEA sentence '{}': {:?}", sentence, e));
    let generated = generate_from_parse_result(nmea_sentence.talker_id, &original);
    assert_valid_sentence_format(&generated);
    let reparsed = parse_str(&generated)
        .unwrap_or_else(|e| panic!("Failed to parse generated sentence '{}': {:?}", generated, e));
    (original, reparsed)
}

/// Generate a sentence string from a ParseResult variant.
fn generate_from_parse_result(talker_id: &str, result: &ParseResult) -> String {
    let mut buf = String::new();
    match result {
        ParseResult::APB(data) => generate_sentence(talker_id, data, &mut buf).unwrap(),
        ParseResult::DBS(data) => generate_sentence(talker_id, data, &mut buf).unwrap(),
        ParseResult::DBT(data) => generate_sentence(talker_id, data, &mut buf).unwrap(),
        ParseResult::DSC(data) => generate_sentence(talker_id, data, &mut buf).unwrap(),
        ParseResult::GBS(data) => generate_sentence(talker_id, data, &mut buf).unwrap(),
        ParseResult::GLL(data) => generate_sentence(talker_id, data, &mut buf).unwrap(),
        ParseResult::GNS(data) => generate_sentence(talker_id, data, &mut buf).unwrap(),
        ParseResult::GSA(data) => generate_sentence(talker_id, data, &mut buf).unwrap(),
        ParseResult::GST(data) => generate_sentence(talker_id, data, &mut buf).unwrap(),
        ParseResult::HDG(data) => generate_sentence(talker_id, data, &mut buf).unwrap(),
        ParseResult::HDM(data) => generate_sentence(talker_id, data, &mut buf).unwrap(),
        ParseResult::HSC(data) => generate_sentence(talker_id, data, &mut buf).unwrap(),
        ParseResult::MDA(data) => generate_sentence(talker_id, data, &mut buf).unwrap(),
        ParseResult::MWD(data) => generate_sentence(talker_id, data, &mut buf).unwrap(),
        ParseResult::RMB(data) => generate_sentence(talker_id, data, &mut buf).unwrap(),
        ParseResult::ROT(data) => generate_sentence(talker_id, data, &mut buf).unwrap(),
        ParseResult::RPM(data) => generate_sentence(talker_id, data, &mut buf).unwrap(),
        ParseResult::RSA(data) => generate_sentence(talker_id, data, &mut buf).unwrap(),
        ParseResult::STALK(data) => generate_sentence(talker_id, data, &mut buf).unwrap(),
        ParseResult::TTM(data) => generate_sentence(talker_id, data, &mut buf).unwrap(),
        ParseResult::VDM(data) | ParseResult::VDO(data) => {
            generate_sentence(talker_id, data, &mut buf).unwrap();
        }
        ParseResult::VDR(data) => generate_sentence(talker_id, data, &mut buf).unwrap(),
        ParseResult::VLW(data) => generate_sentence(talker_id, data, &mut buf).unwrap(),
        ParseResult::VPW(data) => generate_sentence(talker_id, data, &mut buf).unwrap(),
        ParseResult::VWR(data) => generate_sentence(talker_id, data, &mut buf).unwrap(),
        ParseResult::VWT(data) => generate_sentence(talker_id, data, &mut buf).unwrap(),
        ParseResult::XDR(data) => generate_sentence(talker_id, data, &mut buf).unwrap(),
        ParseResult::XTE(data) => generate_sentence(talker_id, data, &mut buf).unwrap(),
        ParseResult::ZTG(data) => generate_sentence(talker_id, data, &mut buf).unwrap(),
        ParseResult::Unsupported(_) => panic!("Cannot generate unsupported sentence type"),
    };
    buf
}

#[test]
fn test_all_generated_sentences_have_valid_format() {
    // These are known-good sentences from the crate's own test suite.
    // We skip VDM because it uses '!' prefix (AIS sentences) which generate_sentence
    // produces with '$' instead.
    let sentences = [
        "$GPAPB,A,A,0.10,R,N,V,V,011,M,DEST,011,M,011,M*3C",
        "$GPGBS,182141.000,15.5,15.3,7.2,21,0.9,0.5,0.8*54",
        "$GPGLL,5107.0013414,N,11402.3279144,W,205412.00,A,A*73",
        "$GPGNS,224749.00,3333.4268304,N,11153.3538273,W,D,19,0.6,406.110,-26.294,6.0,0138,S,*46",
        "$GPGSA,A,3,23,31,22,16,03,07,,,,,,,1.8,1.1,1.4*3E",
        "$GPGST,182141.000,15.5,15.3,7.2,21.8,0.9,0.5,0.8*54",
        "$WIMDA,29.7544,I,1.0076,B,35.5,C,,,42.1,,20.6,C,116.4,T,107.7,M,1.2,N,0.6,M*66",
        "$ECRMB,A,0.000,L,001,002,4653.550,N,07115.984,W,2.505,334.205,0.000,V*04",
        "$RATTM,01,0.2,190.8,T,12.1,109.7,T,0.1,0.5,N,TGT01,T,,100021.00,A*79",
        "$IIVWR,75,R,1.0,N,0.51,M,1.85,K*6C",
        "$IIVWT,030.,R,10.1,N,05.2,M,018.7,K*75",
        "$GPZTG,145832.12,042359.17,WPT*24",
        "$SDDBS,12.3,f,3.75,M,2.05,F*37",
        "$SDDBT,12.3,f,3.75,M,2.05,F*30",
        "$HCHDG,98.3,0.0,E,12.6,W*57",
        "$HCHDM,238.9,M*29",
        "$GPHSC,128.5,T,135.2,M*5D",
        "$WIMWD,270.0,T,265.5,M,10.2,N,5.3,M*6E",
        "$TIROT,-0.3,A*15",
        "$IIRPM,E,1,2418.2,10.5,A*5F",
        "$IIRSA,10.5,A,,V*4D",
        "$IIVDR,180.0,T,175.5,M,1.5,N*32",
        "$VWVLW,7803.2,N,0.00,N*42",
        "$IIVPW,4.5,N,2.3,M*52",
        "$GPXTE,A,A,0.67,L,N*6F",
    ];

    for sentence in &sentences {
        let parsed = parse_str(sentence)
            .unwrap_or_else(|e| panic!("Failed to parse '{}': {:?}", sentence, e));

        let nmea = parse_nmea_sentence(sentence).unwrap();
        let generated = generate_from_parse_result(nmea.talker_id, &parsed);

        assert!(
            generated.starts_with('$'),
            "Generated sentence should start with '$': {} -> {}",
            sentence,
            generated,
        );

        assert!(
            generated.contains('*'),
            "Generated sentence should contain '*': {} -> {}",
            sentence,
            generated,
        );

        // Verify checksum is valid
        let gen_parsed = parse_nmea_sentence(&generated).unwrap_or_else(|e| {
            panic!(
                "Failed to parse generated sentence '{}' (from '{}'): {:?}",
                generated, sentence, e,
            )
        });
        assert_eq!(
            gen_parsed.checksum,
            gen_parsed.calc_checksum(),
            "Checksum mismatch for generated sentence: {} (from {})",
            generated,
            sentence,
        );
    }
}

#[test]
fn test_roundtrip_hdm() {

    let (orig, reparsed) = roundtrip_sentence("$HCHDM,238.9,M*29");
    if let (ParseResult::HDM(o), ParseResult::HDM(r)) = (&orig, &reparsed) {
        assert_same(&o.heading, &r.heading);
    } else {
        panic!("Expected HDM, got {:?} and {:?}", orig, reparsed);
    }
}

#[test]
fn test_roundtrip_rot() {

    let (orig, reparsed) = roundtrip_sentence("$TIROT,-0.3,A*15");
    if let (ParseResult::ROT(o), ParseResult::ROT(r)) = (&orig, &reparsed) {
        assert_same(&o.rate, &r.rate);
        assert_eq!(o.valid, r.valid);
    } else {
        panic!("Expected ROT, got {:?} and {:?}", orig, reparsed);
    }
}

#[test]
fn test_roundtrip_dbs() {

    let (orig, reparsed) = roundtrip_sentence("$SDDBS,12.3,f,3.75,M,2.05,F*37");
    if let (ParseResult::DBS(o), ParseResult::DBS(r)) = (&orig, &reparsed) {
        assert_same(&o.water_depth_feet, &r.water_depth_feet);
        assert_same(&o.water_depth_meters, &r.water_depth_meters);
        assert_same(&o.water_depth_fathoms, &r.water_depth_fathoms);
    } else {
        panic!("Expected DBS, got {:?} and {:?}", orig, reparsed);
    }
}

#[test]
fn test_roundtrip_dbt() {
    let (orig, reparsed) = roundtrip_sentence("$SDDBT,12.3,f,3.75,M,2.05,F*30");
    if let (ParseResult::DBT(o), ParseResult::DBT(r)) = (&orig, &reparsed) {
        assert_eq!(o.depth_feet, r.depth_feet);
        assert_eq!(o.depth_meters, r.depth_meters);
        assert_eq!(o.depth_fathoms, r.depth_fathoms);
    } else {
        panic!("Expected DBT, got {:?} and {:?}", orig, reparsed);
    }
}

#[test]
fn test_roundtrip_gll() {

    let (orig, reparsed) =
        roundtrip_sentence("$GPGLL,5107.0013414,N,11402.3279144,W,205412.00,A,A*73");
    if let (ParseResult::GLL(o), ParseResult::GLL(r)) = (&orig, &reparsed) {
        match (&o.position, &r.position) {
            (Some(_), Some(_)) => assert_eps(lat_of(&o.position), lat_of(&r.position), 1e-4),
            (None, None) => {}
            _ => panic!("Latitude mismatch"),
        }
        assert_eq!(o.fix_time, r.fix_time);
        assert_eq!(o.valid, r.valid);
        assert_eq!(o.faa_mode, r.faa_mode);
    } else {
        panic!("Expected GLL, got {:?} and {:?}", orig, reparsed);
    }
}

#[test]
fn test_roundtrip_gsa() {
    let (orig, reparsed) =
        roundtrip_sentence("$GPGSA,A,3,23,31,22,16,03,07,,,,,,,1.8,1.1,1.4*3E");
    if let (ParseResult::GSA(o), ParseResult::GSA(r)) = (&orig, &reparsed) {
        assert_eq!(o.mode1, r.mode1);
        assert_eq!(o.mode2, r.mode2);
        assert_eq!(o.fix_sats_prn, r.fix_sats_prn);
        // DOP values may have small rounding differences
        assert_eq!(o.pdop, r.pdop);
        assert_eq!(o.hdop, r.hdop);
        assert_eq!(o.vdop, r.vdop);
    } else {
        panic!("Expected GSA, got {:?} and {:?}", orig, reparsed);
    }
}

#[test]
fn test_roundtrip_gst() {

    let (orig, reparsed) =
        roundtrip_sentence("$GPGST,182141.000,15.5,15.3,7.2,21.8,0.9,0.5,0.8*54");
    if let (ParseResult::GST(o), ParseResult::GST(r)) = (&orig, &reparsed) {
        assert_eq!(o.time, r.time);
        match (&o.rms_sd, &r.rms_sd) {
            (Some(ov), Some(rv)) => assert_eps(num_f64(ov), num_f64(rv), 1e-9),
            (None, None) => {}
            _ => panic!("rms_sd mismatch"),
        }
    } else {
        panic!("Expected GST, got {:?} and {:?}", orig, reparsed);
    }
}

#[test]
fn test_roundtrip_gbs() {

    let (orig, reparsed) =
        roundtrip_sentence("$GPGBS,182141.000,15.5,15.3,7.2,21,0.9,0.5,0.8*54");
    if let (ParseResult::GBS(o), ParseResult::GBS(r)) = (&orig, &reparsed) {
        assert_eq!(o.time, r.time);
        match (&o.lat_error, &r.lat_error) {
            (Some(ov), Some(rv)) => assert_eps(num_f64(ov), num_f64(rv), 1e-9),
            (None, None) => {}
            _ => panic!("lat_error mismatch"),
        }
    } else {
        panic!("Expected GBS, got {:?} and {:?}", orig, reparsed);
    }
}

#[test]
fn test_roundtrip_gns() {

    let (orig, reparsed) = roundtrip_sentence(
        "$GPGNS,224749.00,3333.4268304,N,11153.3538273,W,D,19,0.6,406.110,-26.294,6.0,0138,S,*46",
    );
    if let (ParseResult::GNS(o), ParseResult::GNS(r)) = (&orig, &reparsed) {
        assert_eq!(o.fix_time, r.fix_time);
        match (&o.position, &r.position) {
            (Some(_), Some(_)) => assert_eps(lat_of(&o.position), lat_of(&r.position), 1e-4),
            (None, None) => {}
            _ => panic!("Lat mismatch"),
        }
    } else {
        panic!("Expected GNS, got {:?} and {:?}", orig, reparsed);
    }
}

#[test]
fn test_roundtrip_hdg() {

    let (orig, reparsed) = roundtrip_sentence("$HCHDG,98.3,0.0,E,12.6,W*57");
    if let (ParseResult::HDG(o), ParseResult::HDG(r)) = (&orig, &reparsed) {
        assert_same(&o.heading, &r.heading);
        assert_same(&o.deviation, &r.deviation);
        assert_same(&o.variation, &r.variation);
    } else {
        panic!("Expected HDG, got {:?} and {:?}", orig, reparsed);
    }
}

#[test]
fn test_roundtrip_hsc() {

    let (orig, reparsed) = roundtrip_sentence("$GPHSC,128.5,T,135.2,M*5D");
    if let (ParseResult::HSC(o), ParseResult::HSC(r)) = (&orig, &reparsed) {
        assert_same(&o.heading_true, &r.heading_true);
        assert_same(&o.heading_magnetic, &r.heading_magnetic);
    } else {
        panic!("Expected HSC, got {:?} and {:?}", orig, reparsed);
    }
}

#[test]
fn test_roundtrip_vlw() {

    let (orig, reparsed) = roundtrip_sentence("$VWVLW,7803.2,N,0.00,N*42");
    if let (ParseResult::VLW(o), ParseResult::VLW(r)) = (&orig, &reparsed) {
        assert_same(&o.total_water_distance, &r.total_water_distance);
        assert_same(&o.trip_water_distance, &r.trip_water_distance);
    } else {
        panic!("Expected VLW, got {:?} and {:?}", orig, reparsed);
    }
}

#[test]
fn test_roundtrip_mwd() {

    let (orig, reparsed) =
        roundtrip_sentence("$WIMWD,270.0,T,265.5,M,10.2,N,5.3,M*6E");
    if let (ParseResult::MWD(o), ParseResult::MWD(r)) = (&orig, &reparsed) {
        assert_same(&o.wind_direction_true, &r.wind_direction_true);
        assert_same(&o.wind_direction_magnetic, &r.wind_direction_magnetic);
        assert_same(&o.wind_speed_knots, &r.wind_speed_knots);
        assert_same(&o.wind_speed_mps, &r.wind_speed_mps);
    } else {
        panic!("Expected MWD, got {:?} and {:?}", orig, reparsed);
    }
}

#[test]
fn test_roundtrip_vwr() {

    let (orig, reparsed) = roundtrip_sentence("$IIVWR,75,R,1.0,N,0.51,M,1.85,K*6C");
    if let (ParseResult::VWR(o), ParseResult::VWR(r)) = (&orig, &reparsed) {
        assert_same(&o.wind_angle, &r.wind_angle);
        assert_same(&o.speed_knots, &r.speed_knots);
    } else {
        panic!("Expected VWR, got {:?} and {:?}", orig, reparsed);
    }
}

#[test]
fn test_roundtrip_vwt() {

    let (orig, reparsed) =
        roundtrip_sentence("$IIVWT,030.,R,10.1,N,05.2,M,018.7,K*75");
    if let (ParseResult::VWT(o), ParseResult::VWT(r)) = (&orig, &reparsed) {
        assert_same(&o.wind_angle, &r.wind_angle);
        assert_same(&o.speed_knots, &r.speed_knots);
        assert_same(&o.speed_mps, &r.speed_mps);
        assert_same(&o.speed_kmph, &r.speed_kmph);
    } else {
        panic!("Expected VWT, got {:?} and {:?}", orig, reparsed);
    }
}

#[test]
fn test_roundtrip_vpw() {

    let (orig, reparsed) = roundtrip_sentence("$IIVPW,4.5,N,2.3,M*52");
    if let (ParseResult::VPW(o), ParseResult::VPW(r)) = (&orig, &reparsed) {
        assert_same(&o.speed_knots, &r.speed_knots);
        assert_same(&o.speed_mps, &r.speed_mps);
    } else {
        panic!("Expected VPW, got {:?} and {:?}", orig, reparsed);
    }
}

#[test]
fn test_roundtrip_ztg() {
    let (orig, reparsed) = roundtrip_sentence("$GPZTG,145832.12,042359.17,WPT*24");
    if let (ParseResult::ZTG(o), ParseResult::ZTG(r)) = (&orig, &reparsed) {
        assert_eq!(o.fix_time, r.fix_time);
        assert_eq!(o.fix_duration, r.fix_duration);
        assert_eq!(o.waypoint_id, r.waypoint_id);
    } else {
        panic!("Expected ZTG, got {:?} and {:?}", orig, reparsed);
    }
}

#[test]
fn test_roundtrip_xte() {

    let (orig, reparsed) = roundtrip_sentence("$GPXTE,A,A,0.67,L,N*6F");
    if let (ParseResult::XTE(o), ParseResult::XTE(r)) = (&orig, &reparsed) {
        assert_same(&o.cross_track_error, &r.cross_track_error);
        assert_eq!(o.status_general, r.status_general);
        assert_eq!(o.status_cycle_lock, r.status_cycle_lock);
    } else {
        panic!("Expected XTE, got {:?} and {:?}", orig, reparsed);
    }
}

#[test]
fn test_roundtrip_rmb() {

    let (orig, reparsed) = roundtrip_sentence(
        "$ECRMB,A,0.000,L,001,002,4653.550,N,07115.984,W,2.505,334.205,0.000,V*04",
    );
    if let (ParseResult::RMB(o), ParseResult::RMB(r)) = (&orig, &reparsed) {
        assert_eq!(o.status, r.status);
        match (&o.cross_track_error, &r.cross_track_error) {
            (Some(ov), Some(rv)) => assert_eps(num_f64(ov), num_f64(rv), 0.01),
            (None, None) => {}
            _ => panic!("Cross track error mismatch"),
        }
        assert_eq!(o.origin_waypoint_id, r.origin_waypoint_id);
        assert_eq!(o.dest_waypoint_id, r.dest_waypoint_id);
    } else {
        panic!("Expected RMB, got {:?} and {:?}", orig, reparsed);
    }
}

#[test]
fn test_roundtrip_apb() {
    let (orig, reparsed) =
        roundtrip_sentence("$GPAPB,A,A,0.10,R,N,V,V,011,M,DEST,011,M,011,M*3C");
    if let (ParseResult::APB(o), ParseResult::APB(r)) = (&orig, &reparsed) {
        assert_eq!(o.status_warning, r.status_warning);
        assert_eq!(o.status_cycle_lock, r.status_cycle_lock);
        assert_eq!(o.waypoint_id, r.waypoint_id);
    } else {
        panic!("Expected APB, got {:?} and {:?}", orig, reparsed);
    }
}

#[test]
fn test_roundtrip_rpm() {

    let (orig, reparsed) = roundtrip_sentence("$IIRPM,E,1,2418.2,10.5,A*5F");
    if let (ParseResult::RPM(o), ParseResult::RPM(r)) = (&orig, &reparsed) {
        assert_eq!(o.source, r.source);
        assert_eq!(o.source_number, r.source_number);
        assert_same(&o.rpm, &r.rpm);
        assert_same(&o.pitch, &r.pitch);
        assert_eq!(o.valid, r.valid);
    } else {
        panic!("Expected RPM, got {:?} and {:?}", orig, reparsed);
    }
}

#[test]
fn test_roundtrip_rsa() {

    let (orig, reparsed) = roundtrip_sentence("$IIRSA,10.5,A,,V*4D");
    if let (ParseResult::RSA(o), ParseResult::RSA(r)) = (&orig, &reparsed) {
        assert_same(&o.starboard, &r.starboard);
        assert_eq!(o.starboard_valid, r.starboard_valid);
        assert_eq!(o.port, r.port);
        assert_eq!(o.port_valid, r.port_valid);
    } else {
        panic!("Expected RSA, got {:?} and {:?}", orig, reparsed);
    }
}

#[test]
fn test_roundtrip_vdr() {

    let (orig, reparsed) = roundtrip_sentence("$IIVDR,180.0,T,175.5,M,1.5,N*32");
    if let (ParseResult::VDR(o), ParseResult::VDR(r)) = (&orig, &reparsed) {
        assert_same(&o.direction_true, &r.direction_true);
        assert_same(&o.direction_magnetic, &r.direction_magnetic);
        assert_same(&o.speed, &r.speed);
    } else {
        panic!("Expected VDR, got {:?} and {:?}", orig, reparsed);
    }
}

#[test]
fn test_roundtrip_mda() {

    let (orig, reparsed) = roundtrip_sentence(
        "$WIMDA,29.7544,I,1.0076,B,35.5,C,,,42.1,,20.6,C,116.4,T,107.7,M,1.2,N,0.6,M*66",
    );
    if let (ParseResult::MDA(o), ParseResult::MDA(r)) = (&orig, &reparsed) {
        match (&o.pressure_in_hg, &r.pressure_in_hg) {
            (Some(ov), Some(rv)) => assert_eps(num_f64(ov), num_f64(rv), 0.01),
            (None, None) => {}
            _ => panic!("Pressure mismatch"),
        }
        match (&o.air_temp_deg, &r.air_temp_deg) {
            (Some(ov), Some(rv)) => assert_eps(num_f64(ov), num_f64(rv), 0.1),
            (None, None) => {}
            _ => panic!("Air temp mismatch"),
        }
    } else {
        panic!("Expected MDA, got {:?} and {:?}", orig, reparsed);
    }
}

#[test]
fn test_roundtrip_ttm() {

    let (orig, reparsed) = roundtrip_sentence(
        "$RATTM,01,0.2,190.8,T,12.1,109.7,T,0.1,0.5,N,TGT01,T,,100021.00,A*79",
    );
    if let (ParseResult::TTM(o), ParseResult::TTM(r)) = (&orig, &reparsed) {
        assert_eq!(o.target_number, r.target_number);
        assert_same(&o.target_distance, &r.target_distance);
        assert_eq!(o.target_name, r.target_name);
    } else {
        panic!("Expected TTM, got {:?} and {:?}", orig, reparsed);
    }
}

#[test]
fn test_construct_and_roundtrip_hdm() {

    let data = HdmData {
        heading: num("45.6"),
    };
    let generated = generate_and_validate("HC", &data);
    let reparsed = parse_str(&generated).unwrap();
    if let ParseResult::HDM(r) = reparsed {
        assert_num(&r.heading, 45.6);
    } else {
        panic!("Expected HDM");
    }
}

#[test]
fn test_construct_and_roundtrip_rot() {

    let data = RotData {
        rate: num("-5.2"),
        valid: Some(true),
    };
    let generated = generate_and_validate("TI", &data);
    let reparsed = parse_str(&generated).unwrap();
    if let ParseResult::ROT(r) = reparsed {
        assert_num(&r.rate, -5.2);
        assert_eq!(r.valid, Some(true));
    } else {
        panic!("Expected ROT");
    }
}

#[test]
fn test_construct_and_roundtrip_hsc() {

    let data = HscData {
        heading_true: num("200.5"),
        heading_magnetic: num("210.3"),
    };
    let generated = generate_and_validate("GP", &data);
    let reparsed = parse_str(&generated).unwrap();
    if let ParseResult::HSC(r) = reparsed {
        assert_num(&r.heading_true, 200.5);
        assert_num(&r.heading_magnetic, 210.3);
    } else {
        panic!("Expected HSC");
    }
}

#[test]
fn test_construct_and_roundtrip_xte() {

    let data = XteData {
        cross_track_error: num("-1.23"),
        status_general: true,
        status_cycle_lock: true,
    };
    let generated = generate_and_validate("GP", &data);
    let reparsed = parse_str(&generated).unwrap();
    if let ParseResult::XTE(r) = reparsed {
        assert_num(&r.cross_track_error, -1.23);
        assert!(r.status_general);
        assert!(r.status_cycle_lock);
    } else {
        panic!("Expected XTE");
    }
}

#[test]
fn test_construct_and_roundtrip_vdr() {

    let data = VdrData {
        direction_true: num("90.0"),
        direction_magnetic: num("85.0"),
        speed: num("2.5"),
    };
    let generated = generate_and_validate("II", &data);
    let reparsed = parse_str(&generated).unwrap();
    if let ParseResult::VDR(r) = reparsed {
        assert_num(&r.direction_true, 90.0);
        assert_num(&r.direction_magnetic, 85.0);
        assert_num(&r.speed, 2.5);
    } else {
        panic!("Expected VDR");
    }
}

#[test]
fn test_construct_and_roundtrip_vpw() {

    let data = VpwData {
        speed_knots: num("3.5"),
        speed_mps: num("1.8"),
    };
    let generated = generate_and_validate("II", &data);
    let reparsed = parse_str(&generated).unwrap();
    if let ParseResult::VPW(r) = reparsed {
        assert_num(&r.speed_knots, 3.5);
        assert_num(&r.speed_mps, 1.8);
    } else {
        panic!("Expected VPW");
    }
}

#[test]
fn test_construct_and_roundtrip_rsa() {

    let data = RsaData {
        starboard: num("5.0"),
        starboard_valid: true,
        port: num("-3.0"),
        port_valid: true,
    };
    let generated = generate_and_validate("II", &data);
    let reparsed = parse_str(&generated).unwrap();
    if let ParseResult::RSA(r) = reparsed {
        assert_num(&r.starboard, 5.0);
        assert!(r.starboard_valid);
        assert_num(&r.port, -3.0);
        assert!(r.port_valid);
    } else {
        panic!("Expected RSA");
    }
}

#[test]
fn test_construct_and_roundtrip_mwd() {

    let data = MwdData {
        wind_direction_true: num("180.0"),
        wind_direction_magnetic: num("175.0"),
        wind_speed_knots: num("15.0"),
        wind_speed_mps: num("7.7"),
    };
    let generated = generate_and_validate("WI", &data);
    let reparsed = parse_str(&generated).unwrap();
    if let ParseResult::MWD(r) = reparsed {
        assert_num(&r.wind_direction_true, 180.0);
        assert_num(&r.wind_direction_magnetic, 175.0);
        assert_num(&r.wind_speed_knots, 15.0);
        assert_num(&r.wind_speed_mps, 7.7);
    } else {
        panic!("Expected MWD");
    }
}

#[test]
fn test_negative_values_roundtrip_correctly() {

    // Test negative cross track error (steer left)
    let data = XteData {
        cross_track_error: num("-2.5"),
        status_general: true,
        status_cycle_lock: true,
    };
    let generated = generate_and_validate("GP", &data);
    let reparsed = parse_str(&generated).unwrap();
    if let ParseResult::XTE(r) = reparsed {
        assert_num(&r.cross_track_error, -2.5);
    } else {
        panic!("Expected XTE");
    }

    // Test positive cross track error (steer right)
    let data_pos = XteData {
        cross_track_error: num("1.5"),
        status_general: true,
        status_cycle_lock: false,
    };
    let generated_pos = generate_and_validate("GP", &data_pos);
    let reparsed_pos = parse_str(&generated_pos).unwrap();
    if let ParseResult::XTE(r) = reparsed_pos {
        assert_num(&r.cross_track_error, 1.5);
        assert!(!r.status_cycle_lock);
    } else {
        panic!("Expected XTE");
    }
}

#[test]
fn test_vwr_port_starboard_roundtrip() {

    // Starboard (positive angle)
    let starboard = VwrData {
        wind_angle: num("90.0"),
        speed_knots: num("10.0"),
        speed_mps: num("5.14"),
        speed_kmph: num("18.52"),
    };
    let generated = generate_and_validate("II", &starboard);
    let reparsed = parse_str(&generated).unwrap();
    if let ParseResult::VWR(r) = reparsed {
        assert_num(&r.wind_angle, 90.0);
    } else {
        panic!("Expected VWR");
    }

    // Port (negative angle)
    let port = VwrData {
        wind_angle: num("-45.0"),
        speed_knots: num("5.0"),
        speed_mps: None,
        speed_kmph: None,
    };
    let generated_port = generate_and_validate("II", &port);
    let reparsed_port = parse_str(&generated_port).unwrap();
    if let ParseResult::VWR(r) = reparsed_port {
        assert_num(&r.wind_angle, -45.0);
    } else {
        panic!("Expected VWR");
    }
}

#[test]
fn test_hdg_east_west_variation_roundtrip() {

    // West variation (negative)
    let data = HdgData {
        heading: num("180.0"),
        deviation: num("1.5"),
        variation: num("-10.0"),
    };
    let generated = generate_and_validate("HC", &data);
    let reparsed = parse_str(&generated).unwrap();
    if let ParseResult::HDG(r) = reparsed {
        assert_num(&r.heading, 180.0);
        assert_num(&r.deviation, 1.5);
        assert_num(&r.variation, -10.0);
    } else {
        panic!("Expected HDG");
    }

    // East variation (positive)
    let data_east = HdgData {
        heading: num("90.0"),
        deviation: None,
        variation: num("5.0"),
    };
    let generated_east = generate_and_validate("HC", &data_east);
    let reparsed_east = parse_str(&generated_east).unwrap();
    if let ParseResult::HDG(r) = reparsed_east {
        assert_num(&r.heading, 90.0);
        assert_eq!(r.deviation, None);
        assert_num(&r.variation, 5.0);
    } else {
        panic!("Expected HDG");
    }
}

#[test]
fn test_rpm_engine_and_shaft_roundtrip() {

    let engine = RpmData {
        source: Some(RpmSource::Engine),
        source_number: Some(1),
        rpm: num("3000.0"),
        pitch: num("75.0"),
        valid: true,
    };
    let generated = generate_and_validate("II", &engine);
    let reparsed = parse_str(&generated).unwrap();
    if let ParseResult::RPM(r) = reparsed {
        assert_eq!(r.source, Some(RpmSource::Engine));
        assert_eq!(r.source_number, Some(1));
        assert_num(&r.rpm, 3000.0);
        assert_num(&r.pitch, 75.0);
        assert!(r.valid);
    } else {
        panic!("Expected RPM");
    }

    let shaft = RpmData {
        source: Some(RpmSource::Shaft),
        source_number: Some(2),
        rpm: num("1500.0"),
        pitch: num("-25.0"),
        valid: false,
    };
    let gen_shaft = generate_and_validate("II", &shaft);
    let reparsed_shaft = parse_str(&gen_shaft).unwrap();
    if let ParseResult::RPM(r) = reparsed_shaft {
        assert_eq!(r.source, Some(RpmSource::Shaft));
        assert_num(&r.rpm, 1500.0);
        assert_num(&r.pitch, -25.0);
        assert!(!r.valid);
    } else {
        panic!("Expected RPM");
    }
}
