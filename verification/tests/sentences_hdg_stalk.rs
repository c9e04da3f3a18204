//! Reading and writing single sentences, HDG to STALK.

#![allow(dead_code, unused_imports)]

use arrayvec::ArrayString;
use nmea::sentences::{
    ApbData, DbsData, DbtData, DscData, FaaMode, FaaModes, GbsData, GllData, GnsData, GsaData, GsaMode1,
    GsaMode2, GstData, HdgData, HdmData, HscData, MdaData, MwdData, NavigationStatus, RmbData,
    RotData, RpmData, RpmSource, RsaData, StalkData, TtmAngle, TtmData, TtmDistanceUnit,
    TtmReference, TtmStatus, TtmTypeOfAcquisition, VdmData, VdrData, VlwData, VpwData, VwrData,
    VwtData, XdrData, XdrMeasurement, XteData, ZtgData,
};
use nmea::sentences::{
    parse_apb, parse_dbs, parse_dbt, parse_dsc, parse_gbs, parse_gll, parse_gns, parse_gsa,
    parse_gst, parse_hdg, parse_hdm, parse_hsc, parse_mda, parse_mwd, parse_rmb, parse_rot,
    parse_rpm, parse_rsa, parse_stalk, parse_ttm, parse_vdm, parse_vdr, parse_vlw, parse_vpw,
    parse_vwr, parse_vwt, parse_xdr, parse_xte, parse_ztg,
};
use nmea::{generate_sentence, parse_nmea_sentence, Error, Hms, LatLon, NmeaSentence, Number, SentenceType};

/// A number literal as the library holds it: the sign apart from the digits.
fn num(s: &str) -> Option<Number> {
    let (negative, magnitude) = match s.strip_prefix('-') {
        Some(rest) => (true, rest),
        None => (false, s),
    };
    Some(Number { negative, magnitude: magnitude.to_string() })
}

/// The value of a number literal.
fn num_f64(n: &Number) -> f64 {
    let v: f64 = n.magnitude.parse().expect("a decimal literal");
    if n.negative { -v } else { v }
}

fn opt_f64(o: &Option<Number>) -> Option<f64> {
    o.as_ref().map(num_f64)
}

fn assert_eps(actual: f64, expected: f64, eps: f64) {
    assert!((actual - expected).abs() <= eps, "{} is not within {} of {}", actual, eps, expected);
}

fn assert_close(actual: f64, expected: f64) {
    assert_eps(actual, expected, 1e-9 * expected.abs().max(1.0));
}

fn assert_num(o: &Option<Number>, expected: f64) {
    assert_close(opt_f64(o).expect("a number"), expected);
}

/// Both numbers are present and hold the same value.
fn assert_same(a: &Option<Number>, b: &Option<Number>) {
    assert_num(a, num_f64(b.as_ref().expect("a number")));
}

fn hms(hour: u8, minute: u8, second: &str) -> Hms {
    Hms { hour, minute, second: num(second).unwrap() }
}

fn lat_lon(lat_degrees: u8, lat_minutes: &str, south: bool, lon_degrees: u8, lon_minutes: &str, west: bool) -> LatLon {
    LatLon {
        lat_degrees,
        lat_minutes: num(lat_minutes).unwrap(),
        south,
        lon_degrees,
        lon_minutes: num(lon_minutes).unwrap(),
        west,
    }
}

/// The latitude in degrees, negative to the south.
fn lat_of(p: &Option<LatLon>) -> f64 {
    let p = p.as_ref().expect("a position");
    let v = p.lat_degrees as f64 + num_f64(&p.lat_minutes) / 60.0;
    if p.south { -v } else { v }
}

/// The longitude in degrees, negative to the west.
fn lon_of(p: &Option<LatLon>) -> f64 {
    let p = p.as_ref().expect("a position");
    let v = p.lon_degrees as f64 + num_f64(&p.lon_minutes) / 60.0;
    if p.west { -v } else { v }
}

// HDG


#[test]
fn test_parse_hdg() {
    let s = parse_nmea_sentence("$HCHDG,98.3,0.0,E,12.6,W*57").unwrap();
    assert_eq!(s.checksum, s.calc_checksum());
    let data = parse_hdg(s).unwrap();
    assert_num(&data.heading, 98.3);
    assert_num(&data.deviation, 0.0);
    assert_num(&data.variation, -12.6);
}

#[test]
fn test_parse_hdg_minimal() {
    let s = parse_nmea_sentence("$HCHDG,98.3,,,,*70").unwrap();
    assert_eq!(s.checksum, s.calc_checksum());
    let data = parse_hdg(s).unwrap();
    assert_num(&data.heading, 98.3);
    assert_eq!(data.deviation, None);
    assert_eq!(data.variation, None);
}

#[test]
fn test_generate_hdg_roundtrip() {
    let original = HdgData {
        heading: num("98.3"),
        deviation: num("0.0"),
        variation: num("-12.6"),
    };
    let mut buf = String::new();
    generate_sentence("HC", &original, &mut buf).unwrap();

    let s = parse_nmea_sentence(&buf).unwrap();
    assert_eq!(s.checksum, s.calc_checksum());
    let parsed = parse_hdg(s).unwrap();
    assert_num(&parsed.heading, 98.3);
    // deviation 0.0 gets written as "0,E", parsed back as 0.0 (East)
    assert_num(&parsed.deviation, 0.0);
    assert_num(&parsed.variation, -12.6);
}


// HDM


#[test]
fn test_parse_hdm() {
    let s = parse_nmea_sentence("$HCHDM,238.9,M*29").unwrap();
    assert_eq!(s.checksum, s.calc_checksum());
    let data = parse_hdm(s).unwrap();
    assert_num(&data.heading, 238.9);
}

#[test]
fn test_parse_hdm_empty() {
    let s = parse_nmea_sentence("$HCHDM,,M*07").unwrap();
    assert_eq!(s.checksum, s.calc_checksum());
    let data = parse_hdm(s).unwrap();
    assert_eq!(data.heading, None);
}

#[test]
fn test_generate_hdm_roundtrip() {
    let original = HdmData {
        heading: num("238.9"),
    };
    let mut buf = String::new();
    generate_sentence("HC", &original, &mut buf).unwrap();

    let s = parse_nmea_sentence(&buf).unwrap();
    assert_eq!(s.checksum, s.calc_checksum());
    let parsed = parse_hdm(s).unwrap();
    assert_num(&parsed.heading, 238.9);
}


// HSC


#[test]
fn test_parse_hsc() {
    let s = parse_nmea_sentence("$GPHSC,128.5,T,135.2,M*5D").unwrap();
    assert_eq!(s.checksum, s.calc_checksum());
    let data = parse_hsc(s).unwrap();
    assert_num(&data.heading_true, 128.5);
    assert_num(&data.heading_magnetic, 135.2);
}

#[test]
fn test_parse_hsc_empty() {
    let s = parse_nmea_sentence("$GPHSC,,T,,M*56").unwrap();
    assert_eq!(s.checksum, s.calc_checksum());
    let data = parse_hsc(s).unwrap();
    assert_eq!(data.heading_true, None);
    assert_eq!(data.heading_magnetic, None);
}

#[test]
fn test_generate_hsc_roundtrip() {
    let original = HscData {
        heading_true: num("128.5"),
        heading_magnetic: num("135.2"),
    };
    let mut buf = String::new();
    generate_sentence("GP", &original, &mut buf).unwrap();

    let s = parse_nmea_sentence(&buf).unwrap();
    assert_eq!(s.checksum, s.calc_checksum());
    let parsed = parse_hsc(s).unwrap();
    assert_num(&parsed.heading_true, 128.5);
    assert_num(&parsed.heading_magnetic, 135.2);
}


// MDA


#[test]
fn test_parse_mda() {
    // Partial sentence from AirMax 150 model weather station
    let s = parse_nmea_sentence(
        "$WIMDA,29.7544,I,1.0076,B,35.5,C,,,42.1,,20.6,C,116.4,T,107.7,M,1.2,N,0.6,M*66",
    )
    .unwrap();
    assert_eq!(s.checksum, s.calc_checksum());
    assert_eq!(s.checksum, 0x66);
    let mda_data = parse_mda(s).unwrap();
    assert_num(&mda_data.pressure_in_hg, 29.7544);
    assert_num(&mda_data.pressure_bar, 1.0076);
    assert_num(&mda_data.air_temp_deg, 35.5);
    assert!(mda_data.water_temp_deg.is_none());
    assert_num(&mda_data.rel_humidity, 42.1);
    assert!(mda_data.abs_humidity.is_none());
    assert_num(&mda_data.dew_point, 20.6);
    assert_num(&mda_data.wind_direction_true, 116.4);
    assert_num(&mda_data.wind_direction_magnetic, 107.7);
    assert_num(&mda_data.wind_speed_knots, 1.2);
    assert_num(&mda_data.wind_speed_ms, 0.6);
}

#[test]
fn test_generate_mda_roundtrip() {
    let original = MdaData {
        pressure_in_hg: num("29.7544"),
        pressure_bar: num("1.0076"),
        air_temp_deg: num("35.5"),
        water_temp_deg: None,
        rel_humidity: num("42.1"),
        abs_humidity: None,
        dew_point: num("20.6"),
        wind_direction_true: num("116.4"),
        wind_direction_magnetic: num("107.7"),
        wind_speed_knots: num("1.2"),
        wind_speed_ms: num("0.6"),
    };
    let mut buf = String::new();
    generate_sentence("WI", &original, &mut buf).unwrap();

    let s = parse_nmea_sentence(&buf).unwrap();
    assert_eq!(s.checksum, s.calc_checksum());
    let parsed = parse_mda(s).unwrap();
    assert_num(&parsed.pressure_in_hg, 29.7544);
    assert_num(&parsed.pressure_bar, 1.0076);
    assert_num(&parsed.air_temp_deg, 35.5);
    assert!(parsed.water_temp_deg.is_none());
    assert_num(&parsed.rel_humidity, 42.1);
    assert!(parsed.abs_humidity.is_none());
    assert_num(&parsed.dew_point, 20.6);
    assert_num(&parsed.wind_direction_true, 116.4);
    assert_num(&parsed.wind_direction_magnetic, 107.7);
    assert_num(&parsed.wind_speed_knots, 1.2);
    assert_num(&parsed.wind_speed_ms, 0.6);
}


// MWD


#[test]
fn test_parse_mwd() {
    let s = parse_nmea_sentence("$WIMWD,270.0,T,265.5,M,10.2,N,5.3,M*6E").unwrap();
    assert_eq!(s.checksum, s.calc_checksum());
    let data = parse_mwd(s).unwrap();
    assert_num(&data.wind_direction_true, 270.0);
    assert_num(&data.wind_direction_magnetic, 265.5);
    assert_num(&data.wind_speed_knots, 10.2);
    assert_num(&data.wind_speed_mps, 5.3);
}

#[test]
fn test_parse_mwd_empty() {
    let s = parse_nmea_sentence("$WIMWD,,T,,M,,N,,M*5A").unwrap();
    assert_eq!(s.checksum, s.calc_checksum());
    let data = parse_mwd(s).unwrap();
    assert_eq!(data.wind_direction_true, None);
    assert_eq!(data.wind_direction_magnetic, None);
    assert_eq!(data.wind_speed_knots, None);
    assert_eq!(data.wind_speed_mps, None);
}

#[test]
fn test_generate_mwd_roundtrip() {
    let original = MwdData {
        wind_direction_true: num("270.0"),
        wind_direction_magnetic: num("265.5"),
        wind_speed_knots: num("10.2"),
        wind_speed_mps: num("5.3"),
    };
    let mut buf = String::new();
    generate_sentence("WI", &original, &mut buf).unwrap();

    let s = parse_nmea_sentence(&buf).unwrap();
    assert_eq!(s.checksum, s.calc_checksum());
    let parsed = parse_mwd(s).unwrap();
    assert_num(&parsed.wind_direction_true, 270.0);
    assert_num(&parsed.wind_direction_magnetic, 265.5);
    assert_num(&parsed.wind_speed_knots, 10.2);
    assert_num(&parsed.wind_speed_mps, 5.3);
}


// RMB


#[test]
fn test_parse_rmb() {
    let s = parse_nmea_sentence(
        "$ECRMB,A,0.000,L,001,002,4653.550,N,07115.984,W,2.505,334.205,0.000,V*04",
    )
    .unwrap();
    assert_eq!(s.checksum, s.calc_checksum());
    let data = parse_rmb(s).unwrap();
    assert!(data.status);
    assert_num(&data.cross_track_error, 0.0);
    assert_eq!(&data.origin_waypoint_id.unwrap(), "001");
    assert_eq!(&data.dest_waypoint_id.unwrap(), "002");
    assert_eps(lat_of(&data.dest_position), 46.8925, 0.001);
    assert_eps(lon_of(&data.dest_position), -71.2664, 0.001);
    assert_num(&data.range_to_dest, 2.505);
    assert_num(&data.bearing_to_dest, 334.205);
    assert_num(&data.closing_velocity, 0.0);
    assert!(!data.arrived);
}

#[test]
fn test_parse_rmb_steer_right() {
    let s = parse_nmea_sentence(
        "$ECRMB,A,0.432,R,001,002,4653.550,N,07115.984,W,2.505,334.205,0.000,V*1F",
    )
    .unwrap();
    assert_eq!(s.checksum, s.calc_checksum());
    let data = parse_rmb(s).unwrap();
    assert_num(&data.cross_track_error, -0.432); // right = negative
}

#[test]
fn test_parse_rmb_from_hooks() {
    let s = parse_nmea_sentence(
        "$GPRMB,A,0.66,L,003,004,4917.24,N,12309.57,W,001.3,052.5,000.5,V*20",
    )
    .unwrap();
    assert_eq!(s.checksum, s.calc_checksum());
    let data = parse_rmb(s).unwrap();
    assert!(data.status);
    assert_num(&data.cross_track_error, 0.66);
    assert_num(&data.range_to_dest, 1.3);
}

#[test]
fn test_generate_rmb_roundtrip() {
    let original = RmbData {
        status: true,
        cross_track_error: num("0.5"),
        origin_waypoint_id: Some(ArrayString::from("001").unwrap()),
        dest_waypoint_id: Some(ArrayString::from("002").unwrap()),
        dest_position: Some(lat_lon(46, "53.550", false, 71, "15.984", true)),
        range_to_dest: num("2.505"),
        bearing_to_dest: num("334.2"),
        closing_velocity: num("0.5"),
        arrived: false,
    };
    let mut buf = String::new();
    generate_sentence("GP", &original, &mut buf).unwrap();

    let s = parse_nmea_sentence(&buf).unwrap();
    assert_eq!(s.checksum, s.calc_checksum());
    let parsed = parse_rmb(s).unwrap();
    assert!(parsed.status);
    assert_num(&parsed.cross_track_error, 0.5);
    assert_eq!(&parsed.origin_waypoint_id.unwrap(), "001");
    assert_eq!(&parsed.dest_waypoint_id.unwrap(), "002");
    assert_eps(lat_of(&parsed.dest_position), 46.8925, 0.001);
    assert_eps(lon_of(&parsed.dest_position), -71.2664, 0.001);
    assert_num(&parsed.range_to_dest, 2.505);
    assert_num(&parsed.bearing_to_dest, 334.2);
    assert_num(&parsed.closing_velocity, 0.5);
    assert!(!parsed.arrived);
}


// ROT


#[test]
fn test_parse_rot() {
    let s = parse_nmea_sentence("$TIROT,-0.3,A*15").unwrap();
    assert_eq!(s.checksum, s.calc_checksum());
    let data = parse_rot(s).unwrap();
    assert_num(&data.rate, -0.3);
    assert_eq!(data.valid, Some(true));
}

#[test]
fn test_parse_rot_empty() {
    let s = parse_nmea_sentence("$TIROT,,A*15").unwrap();
    assert_eq!(s.checksum, s.calc_checksum());
    let data = parse_rot(s).unwrap();
    assert_eq!(data.rate, None);
    assert_eq!(data.valid, Some(true));
}

#[test]
fn test_generate_rot_roundtrip() {
    let original = RotData {
        rate: num("-0.3"),
        valid: Some(true),
    };
    let mut buf = String::new();
    generate_sentence("TI", &original, &mut buf).unwrap();

    let s = parse_nmea_sentence(&buf).unwrap();
    assert_eq!(s.checksum, s.calc_checksum());
    let parsed = parse_rot(s).unwrap();
    assert_num(&parsed.rate, -0.3);
    assert_eq!(parsed.valid, Some(true));
}


// RPM


#[test]
fn test_parse_rpm() {
    let s = parse_nmea_sentence("$IIRPM,E,1,2418.2,10.5,A*5F").unwrap();
    assert_eq!(s.checksum, s.calc_checksum());
    let data = parse_rpm(s).unwrap();
    assert_eq!(data.source, Some(RpmSource::Engine));
    assert_eq!(data.source_number, Some(1));
    assert_num(&data.rpm, 2418.2);
    assert_num(&data.pitch, 10.5);
    assert!(data.valid);
}

#[test]
fn test_parse_rpm_shaft() {
    let s = parse_nmea_sentence("$IIRPM,S,2,1200.0,50.0,A*45").unwrap();
    assert_eq!(s.checksum, s.calc_checksum());
    let data = parse_rpm(s).unwrap();
    assert_eq!(data.source, Some(RpmSource::Shaft));
    assert_eq!(data.source_number, Some(2));
    assert_num(&data.rpm, 1200.0);
    assert_num(&data.pitch, 50.0);
    assert!(data.valid);
}

#[test]
fn test_generate_rpm_roundtrip() {
    let original = RpmData {
        source: Some(RpmSource::Engine),
        source_number: Some(1),
        rpm: num("2418.2"),
        pitch: num("10.5"),
        valid: true,
    };
    let mut buf = String::new();
    generate_sentence("II", &original, &mut buf).unwrap();

    let s = parse_nmea_sentence(&buf).unwrap();
    assert_eq!(s.checksum, s.calc_checksum());
    let parsed = parse_rpm(s).unwrap();
    assert_eq!(parsed.source, Some(RpmSource::Engine));
    assert_num(&parsed.rpm, 2418.2);
}


// RSA


#[test]
fn test_parse_rsa() {
    let s = parse_nmea_sentence("$IIRSA,10.5,A,,V*4D").unwrap();
    assert_eq!(s.checksum, s.calc_checksum());
    let data = parse_rsa(s).unwrap();
    assert_num(&data.starboard, 10.5);
    assert!(data.starboard_valid);
    assert_eq!(data.port, None);
    assert!(!data.port_valid);
}

#[test]
fn test_parse_rsa_dual() {
    let s = parse_nmea_sentence("$IIRSA,5.2,A,-3.1,A*68").unwrap();
    assert_eq!(s.checksum, s.calc_checksum());
    let data = parse_rsa(s).unwrap();
    assert_num(&data.starboard, 5.2);
    assert!(data.starboard_valid);
    assert_num(&data.port, -3.1);
    assert!(data.port_valid);
}

#[test]
fn test_generate_rsa_roundtrip() {
    let original = RsaData {
        starboard: num("10.5"),
        starboard_valid: true,
        port: None,
        port_valid: false,
    };
    let mut buf = String::new();
    generate_sentence("II", &original, &mut buf).unwrap();

    let s = parse_nmea_sentence(&buf).unwrap();
    assert_eq!(s.checksum, s.calc_checksum());
    let parsed = parse_rsa(s).unwrap();
    assert_eq!(parsed, original);
}


// STALK


#[test]
fn test_parse_stalk_speed() {
    let s = parse_nmea_sentence("$STALK,52,A1,00,00*36").unwrap();
    assert_eq!(s.checksum, s.calc_checksum());
    assert_eq!(s.talker_id, "ST");
    assert_eq!(s.message_id, SentenceType::ALK);

    let data = parse_stalk(s).unwrap();
    assert_eq!(data.command, 0x52);
    assert_eq!(data.payload.len(), 3);
    assert_eq!(data.payload[0], 0xA1);
    assert_eq!(data.payload[1], 0x00);
    assert_eq!(data.payload[2], 0x00);
}

#[test]
fn test_parse_stalk_compass() {
    let s = parse_nmea_sentence("$STALK,84,36,02,00,40,00,03,00,08*69").unwrap();
    assert_eq!(s.checksum, s.calc_checksum());
    let data = parse_stalk(s).unwrap();

    assert_eq!(data.command, 0x84);
    assert_eq!(data.payload.len(), 8);
    assert_eq!(data.payload[0], 0x36);
    assert_eq!(data.payload[7], 0x08);
}

#[test]
fn test_parse_stalk_short() {
    let s = parse_nmea_sentence("$STALK,86,21,02,FD*4C").unwrap();
    assert_eq!(s.checksum, s.calc_checksum());
    let data = parse_stalk(s).unwrap();

    assert_eq!(data.command, 0x86);
    assert_eq!(data.payload.len(), 3);
    assert_eq!(data.payload[0], 0x21);
    assert_eq!(data.payload[1], 0x02);
    assert_eq!(data.payload[2], 0xFD);
}

#[test]
fn test_parse_stalk_single_byte() {
    // Command-only datagram, no payload
    let s = parse_nmea_sentence("$STALK,00*6D").unwrap();
    assert_eq!(s.checksum, s.calc_checksum());
    let data = parse_stalk(s).unwrap();

    assert_eq!(data.command, 0x00);
    assert_eq!(data.payload.len(), 0);
}

#[test]
fn test_generate_stalk_roundtrip() {
    let original = StalkData {
        command: 0x52,
        payload: {
            let mut v = heapless::Vec::new();
            v.push(0xA1).unwrap();
            v.push(0x00).unwrap();
            v.push(0x00).unwrap();
            v
        },
    };
    let mut buf = String::new();
    generate_sentence("ST", &original, &mut buf).unwrap();

    let s = parse_nmea_sentence(&buf).unwrap();
    assert_eq!(s.checksum, s.calc_checksum());
    let parsed = parse_stalk(s).unwrap();
    assert_eq!(parsed.command, 0x52);
    assert_eq!(parsed.payload.len(), 3);
    assert_eq!(parsed.payload[0], 0xA1);
}

#[test]
fn test_generate_stalk_compass_roundtrip() {
    let original = StalkData {
        command: 0x84,
        payload: {
            let mut v = heapless::Vec::new();
            for &b in &[0x36, 0x02, 0x00, 0x40, 0x00, 0x03, 0x00, 0x08] {
                v.push(b).unwrap();
            }
            v
        },
    };
    let mut buf = String::new();
    generate_sentence("ST", &original, &mut buf).unwrap();

    let s = parse_nmea_sentence(&buf).unwrap();
    assert_eq!(s.checksum, s.calc_checksum());
    let parsed = parse_stalk(s).unwrap();
    assert_eq!(parsed.command, 0x84);
    assert_eq!(parsed.payload.len(), 8);
}

