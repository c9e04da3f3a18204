//! Reading and writing single sentences, APB to GST.

#![allow(dead_code, unused_imports)]

use arrayvec::ArrayString;
use nmea::sentences::{
    ApbData, DbsData, DbtData, DscData, FaaMode, FaaModes, GbsData, GllData, GnsData, GsaData, GsaMode1,
    GsaMode2, GstData, HdgData, HdmData, HscData, MdaData, MwdData, NavigationStatus, RmbData,
    RotData, RpmData, RpmSource, RsaData, StalkData, TtmAngle, TtmData, TtmDistanceUnit,
    TtmReference, TtmStatus, TtmTypeOfAcquisition, VdmData, VdrData, VlwData, VpwData, VwrData,
    VwtData, XdrData, XdrMeasurement, XteData, ZtgData,
};
use nmea::sentences::{
    gsa_prn_fields_parse, parse_apb, parse_dbs, parse_dbt, parse_dsc, parse_gbs, parse_gll, parse_gns, parse_gsa,
    parse_gst, parse_hdg, parse_hdm, parse_hsc, parse_mda, parse_mwd, parse_rmb, parse_rot,
    parse_rpm, parse_rsa, parse_stalk, parse_ttm, parse_vdm, parse_vdr, parse_vlw, parse_vpw,
    parse_vwr, parse_vwt, parse_xdr, parse_xte, parse_ztg,
};
use nmea::{generate_sentence, parse_nmea_sentence, Error, Hms, LatLon, NmeaSentence, Number, SentenceType};

/// A number literal as the library holds it: the sign apart from the digits.
fn num(s: &str) -> Option<Number> {
    let (negative, magnitude) = match s.strip_prefix('-') {
        Some(rest) => (true, rest),
        None => (false, s),
    };
    Some(Number { negative, magnitude: magnitude.to_string() })
}

/// The value of a number literal.
fn num_f64(n: &Number) -> f64 {
    let v: f64 = n.magnitude.parse().expect("a decimal literal");
    if n.negative { -v } else { v }
}

fn opt_f64(o: &Option<Number>) -> Option<f64> {
    o.as_ref().map(num_f64)
}

fn assert_eps(actual: f64, expected: f64, eps: f64) {
    assert!((actual - expected).abs() <= eps, "{} is not within {} of {}", actual, eps, expected);
}

fn assert_close(actual: f64, expected: f64) {
    assert_eps(actual, expected, 1e-9 * expected.abs().max(1.0));
}

fn assert_num(o: &Option<Number>, expected: f64) {
    assert_close(opt_f64(o).expect("a number"), expected);
}

/// Both numbers are present and hold the same value.
fn assert_same(a: &Option<Number>, b: &Option<Number>) {
    assert_num(a, num_f64(b.as_ref().expect("a number")));
}

fn hms(hour: u8, minute: u8, second: &str) -> Hms {
    Hms { hour, minute, second: num(second).unwrap() }
}

fn lat_lon(lat_degrees: u8, lat_minutes: &str, south: bool, lon_degrees: u8, lon_minutes: &str, west: bool) -> LatLon {
    LatLon {
        lat_degrees,
        lat_minutes: num(lat_minutes).unwrap(),
        south,
        lon_degrees,
        lon_minutes: num(lon_minutes).unwrap(),
        west,
    }
}

/// The latitude in degrees, negative to the south.
fn lat_of(p: &Option<LatLon>) -> f64 {
    let p = p.as_ref().expect("a position");
    let v = p.lat_degrees as f64 + num_f64(&p.lat_minutes) / 60.0;
    if p.south { -v } else { v }
}

/// The longitude in degrees, negative to the west.
fn lon_of(p: &Option<LatLon>) -> f64 {
    let p = p.as_ref().expect("a position");
    let v = p.lon_degrees as f64 + num_f64(&p.lon_minutes) / 60.0;
    if p.west { -v } else { v }
}

// APB

#[test]
fn test_parse_apb() {
    let s = parse_nmea_sentence(
        "$GPAPB,A,A,0.10,R,N,V,V,011,M,DEST,011,M,011,M*3C",
    )
    .unwrap();
    assert_eq!(s.checksum, s.calc_checksum());
    let data = parse_apb(s).unwrap();
    assert!(data.status_warning);
    assert!(data.status_cycle_lock);
    assert_num(&data.cross_track_error, -0.10); // R = negative
    assert!(!data.arrival_circle_entered);
    assert!(!data.perpendicular_passed);
    assert_num(&data.bearing_orig_to_dest, 11.0);
    assert!(data.bearing_orig_to_dest_magnetic);
    assert_eq!(&data.waypoint_id.unwrap(), "DEST");
    assert_num(&data.bearing_pos_to_dest, 11.0);
    assert!(data.bearing_pos_to_dest_magnetic);
    assert_num(&data.heading_to_dest, 11.0);
    assert!(data.heading_to_dest_magnetic);
}

#[test]
fn test_parse_apb_empty() {
    let s = parse_nmea_sentence("$GPAPB,,,,,,,,,,,,,,*44").unwrap();
    assert_eq!(s.checksum, s.calc_checksum());
    // This should fail because status fields require A/V
    assert!(parse_apb(s).is_err());
}

#[test]
fn test_generate_apb_roundtrip() {
    let original = ApbData {
        status_warning: true,
        status_cycle_lock: true,
        cross_track_error: num("-0.1"),
        arrival_circle_entered: false,
        perpendicular_passed: false,
        bearing_orig_to_dest: num("11.0"),
        bearing_orig_to_dest_magnetic: true,
        waypoint_id: Some(ArrayString::from("DEST").unwrap()),
        bearing_pos_to_dest: num("11.0"),
        bearing_pos_to_dest_magnetic: true,
        heading_to_dest: num("11.0"),
        heading_to_dest_magnetic: true,
    };
    let mut buf = String::new();
    generate_sentence("GP", &original, &mut buf).unwrap();

    let s = parse_nmea_sentence(&buf).unwrap();
    assert_eq!(s.checksum, s.calc_checksum());
    let parsed = parse_apb(s).unwrap();
    assert!(parsed.status_warning);
    assert!(parsed.status_cycle_lock);
    assert_num(&parsed.cross_track_error, -0.1);
    assert!(!parsed.arrival_circle_entered);
    assert!(!parsed.perpendicular_passed);
    assert_num(&parsed.bearing_orig_to_dest, 11.0);
    assert!(parsed.bearing_orig_to_dest_magnetic);
    assert_eq!(&parsed.waypoint_id.unwrap(), "DEST");
    assert_num(&parsed.bearing_pos_to_dest, 11.0);
    assert!(parsed.bearing_pos_to_dest_magnetic);
    assert_num(&parsed.heading_to_dest, 11.0);
    assert!(parsed.heading_to_dest_magnetic);
}

// DBS

#[test]
fn parse_dbs_with_full_sentence() {
    let sentence = parse_nmea_sentence("$SDDBS,45.0,f,13.7,M,7.5,F*68").unwrap();
    let data = parse_dbs(sentence).unwrap();
    assert_num(&data.water_depth_feet, 45.0);
    assert_num(&data.water_depth_meters, 13.7);
    assert_num(&data.water_depth_fathoms, 7.5);
}

#[test]
fn test_invalid_sentence() {
    let sentence = parse_nmea_sentence("$SDDBS,,,M,F*68").unwrap();
    let result = parse_dbs(sentence);
    assert!(result.is_err());
}

#[test]
fn test_generate_dbs_roundtrip() {
    let original = DbsData {
        water_depth_feet: num("45.0"),
        water_depth_meters: num("13.7"),
        water_depth_fathoms: num("7.5"),
    };
    let mut buf = String::new();
    generate_sentence("SD", &original, &mut buf).unwrap();

    let sentence = parse_nmea_sentence(&buf).unwrap();
    assert_eq!(sentence.checksum, sentence.calc_checksum());
    let parsed = parse_dbs(sentence).unwrap();
    assert_num(&parsed.water_depth_feet, 45.0);
    assert_num(&parsed.water_depth_meters, 13.7);
    assert_num(&parsed.water_depth_fathoms, 7.5);
}

// DBT

#[test]
fn test_parse_dbt() {
    let s = parse_nmea_sentence("$SDDBT,12.3,f,3.75,M,2.05,F*30").unwrap();
    assert_eq!(s.checksum, s.calc_checksum());
    let data = parse_dbt(s).unwrap();
    assert_eq!(opt_f64(&data.depth_feet), Some(12.3));
    assert_eq!(opt_f64(&data.depth_meters), Some(3.75));
    assert_eq!(opt_f64(&data.depth_fathoms), Some(2.05));
}

#[test]
fn test_parse_dbt_empty() {
    let s = parse_nmea_sentence("$SDDBT,,f,,M,,F*28").unwrap();
    assert_eq!(s.checksum, s.calc_checksum());
    let data = parse_dbt(s).unwrap();
    assert_eq!(data.depth_feet, None);
    assert_eq!(data.depth_meters, None);
    assert_eq!(data.depth_fathoms, None);
}

#[test]
fn test_generate_dbt_roundtrip() {
    let original = DbtData {
        depth_feet: num("12.3"),
        depth_meters: num("3.75"),
        depth_fathoms: num("2.05"),
    };
    let mut buf = String::new();
    generate_sentence("SD", &original, &mut buf).unwrap();

    let s = parse_nmea_sentence(&buf).unwrap();
    assert_eq!(s.checksum, s.calc_checksum());
    let parsed = parse_dbt(s).unwrap();
    assert_eq!(parsed, original);
}

// DSC

#[test]
fn test_parse_dsc_distress() {
    let s =
        parse_nmea_sentence("$CDDSC,12,3380400790,12,06,00,1423108312,2019,,,S,E*6A").unwrap();
    assert_eq!(s.checksum, s.calc_checksum());
    let data = parse_dsc(s).unwrap();

    assert_eq!(data.format_specifier, 12);
    assert_eq!(data.mmsi.as_str(), "3380400790");
    assert_eq!(data.category, Some(12));
    assert_eq!(data.first_telecommand, Some(6));
    assert_eq!(data.second_telecommand, Some(0));
    assert_eq!(data.position_or_data.as_str(), "1423108312");
    assert_eq!(data.time_utc.as_str(), "2019");
    assert_eq!(data.ack_type, Some('S'));
    assert_eq!(data.expansion_indicator, Some('E'));

    // Check MMSI extraction
    assert_eq!(data.sender_mmsi(), Some(338040079));
}

#[test]
fn test_parse_dsc_distress_empty_category() {
    let s =
        parse_nmea_sentence("$CDDSC,12,5031105200,,05,00,2380814428,1800,,,R,E*6C").unwrap();
    assert_eq!(s.checksum, s.calc_checksum());
    let data = parse_dsc(s).unwrap();

    assert_eq!(data.format_specifier, 12);
    assert_eq!(data.mmsi.as_str(), "5031105200");
    assert_eq!(data.category, None);
    assert_eq!(data.first_telecommand, Some(5));
    assert_eq!(data.second_telecommand, Some(0));
    assert_eq!(data.ack_type, Some('R'));
    assert_eq!(data.expansion_indicator, Some('E'));
}

#[test]
fn test_parse_dsc_position_report() {
    let s =
        parse_nmea_sentence("$CDDSC,20,5031105200,08,21,26,2380814428,1800,,,B,E*77").unwrap();
    assert_eq!(s.checksum, s.calc_checksum());
    let data = parse_dsc(s).unwrap();

    assert_eq!(data.format_specifier, 20);
    assert_eq!(data.category, Some(8));
    assert_eq!(data.first_telecommand, Some(21));
    assert_eq!(data.second_telecommand, Some(26));
    assert_eq!(data.ack_type, Some('B'));
}

#[test]
fn test_parse_dsc_distress_relay() {
    let s = parse_nmea_sentence(
        "$CDDSC,16,2350763930,12,12,00,2380814428,1800,5031105200,05,S,E*65",
    )
    .unwrap();
    assert_eq!(s.checksum, s.calc_checksum());
    let data = parse_dsc(s).unwrap();

    assert_eq!(data.format_specifier, 16);
    assert_eq!(data.mmsi.as_str(), "2350763930");
    assert_eq!(data.category, Some(12));
    assert_eq!(data.first_telecommand, Some(12));
    assert_eq!(data.second_telecommand, Some(0));
    assert_eq!(data.mmsi_2.as_str(), "5031105200");
    assert_eq!(data.additional_info.as_str(), "05");
    assert_eq!(data.ack_type, Some('S'));
}

#[test]
fn test_generate_dsc_roundtrip() {
    let original = DscData {
        format_specifier: 12,
        mmsi: arr_str("3380400790"),
        category: Some(12),
        first_telecommand: Some(6),
        second_telecommand: Some(0),
        position_or_data: arr_str("1423108312"),
        time_utc: ArrayString::from("2019").unwrap(),
        mmsi_2: ArrayString::new(),
        additional_info: ArrayString::new(),
        ack_type: Some('S'),
        expansion_indicator: Some('E'),
    };
    let mut buf = String::new();
    generate_sentence("CD", &original, &mut buf).unwrap();

    let s = parse_nmea_sentence(&buf).unwrap();
    assert_eq!(s.checksum, s.calc_checksum());
    let parsed = parse_dsc(s).unwrap();
    assert_eq!(parsed.format_specifier, 12);
    assert_eq!(parsed.mmsi.as_str(), "3380400790");
    assert_eq!(parsed.category, Some(12));
    assert_eq!(parsed.first_telecommand, Some(6));
    assert_eq!(parsed.ack_type, Some('S'));
    assert_eq!(parsed.expansion_indicator, Some('E'));
}

// Helper functions for tests
fn arr_str(s: &str) -> ArrayString<10> {
    ArrayString::from(s).unwrap()
}

// FAA_MODE

fn modes(chars: &[FaaMode]) -> FaaModes {
    FaaModes::from_modes(chars).unwrap()
}

fn faa_modes_of(text: &str) -> Option<FaaModes> {
    let v: Vec<char> = text.chars().collect();
    nmea::sentences::faa_mode::parse_faa_modes(&v, 0, v.len())
}

#[test]
fn test_parse_faa_modes() {
    assert_eq!(None, faa_modes_of(""), "Should fail on an empty string");
    assert_eq!(Some(modes(&[FaaMode::Autonomous])), faa_modes_of("A"));
    assert_eq!(
        Some(modes(&[FaaMode::DataNotValid, FaaMode::Autonomous])),
        faa_modes_of("NA")
    );
}

#[test]
fn test_parse_faa_modes_multi_gnss() {
    // 3-char: GPS=A, GLONASS=N, Galileo=N
    let parsed = faa_modes_of("ANN").unwrap();
    assert_eq!(parsed.len(), 3);
    assert_eq!(parsed.primary(), FaaMode::Autonomous);
    assert_eq!(parsed.get(1), Some(&FaaMode::DataNotValid));
    assert_eq!(parsed.get(2), Some(&FaaMode::DataNotValid));

    // 4-char: GPS=D, GLONASS=A, Galileo=A, BDS=N
    let parsed = faa_modes_of("DAAN").unwrap();
    assert_eq!(parsed.len(), 4);
    assert_eq!(parsed.primary(), FaaMode::Differential);

    // 6-char: all systems
    let parsed = faa_modes_of("DAANNP").unwrap();
    assert_eq!(parsed.len(), 6);
}

#[test]
fn test_faa_modes_write_nmea() {
    let m = modes(&[
        FaaMode::Autonomous,
        FaaMode::DataNotValid,
        FaaMode::DataNotValid,
    ]);
    let mut buf = String::new();
    m.write_nmea(&mut buf);
    assert_eq!(&*buf, "ANN");
}

// GBS

#[test]
fn test_generate_gbs_roundtrip() {
    let original = GbsData {
        time: Some(hms(18, 23, "45")),
        lat_error: num("1.2"),
        lon_error: num("3.4"),
        alt_error: num("5.6"),
        most_likely_failed_sat: Some(12),
        missed_probability: num("0.01"),
        bias_estimate: num("-2.3"),
        bias_standard_deviation: num("1.1"),
    };
    let mut buf = String::new();
    generate_sentence("GP", &original, &mut buf).unwrap();
    let s = parse_nmea_sentence(&buf).unwrap();
    assert_eq!(s.checksum, s.calc_checksum());
    let parsed = parse_gbs(s).unwrap();
    assert_eq!(parsed.time, original.time);
    assert_same(&parsed.lat_error, &original.lat_error);
    assert_same(&parsed.lon_error, &original.lon_error);
    assert_same(&parsed.alt_error, &original.alt_error);
    assert_eq!(parsed.most_likely_failed_sat, original.most_likely_failed_sat);
    assert_same(&parsed.missed_probability, &original.missed_probability);
    assert_same(&parsed.bias_estimate, &original.bias_estimate);
    assert_same(&parsed.bias_standard_deviation, &original.bias_standard_deviation);
}

#[test]
fn test_generate_gbs_empty() {
    let original = GbsData {
        time: None,
        lat_error: None,
        lon_error: None,
        alt_error: None,
        most_likely_failed_sat: None,
        missed_probability: None,
        bias_estimate: None,
        bias_standard_deviation: None,
    };
    let mut buf = String::new();
    generate_sentence("GP", &original, &mut buf).unwrap();
    let s = parse_nmea_sentence(&buf).unwrap();
    assert_eq!(s.checksum, s.calc_checksum());
    let parsed = parse_gbs(s).unwrap();
    assert_eq!(parsed, original);
}

// GLL

#[test]
fn test_parse_gpgll() {
    let parse = |data, checksum| {
        let s = parse_nmea_sentence(data).unwrap();
        assert_eq!(s.checksum, s.calc_checksum());
        assert_eq!(s.checksum, checksum);
        s
    };

    let s = parse(
        "$GPGLL,5107.0013414,N,11402.3279144,W,205412.00,A,A*73",
        0x73,
    );
    let gll_data = parse_gll(s).unwrap();
    assert_close(lat_of(&gll_data.position), 51.0 + (7.0013414 / 60.0));
    assert_close(lon_of(&gll_data.position), -(114.0 + (2.3279144 / 60.0)));
    assert_eq!(
        gll_data.fix_time,
        Some(hms(20, 54, "12.00"))
    );
    assert_eq!(gll_data.faa_mode, Some(FaaMode::Autonomous));

    let s = parse("$GNGLL,,,,,181604.00,V,N*5E", 0x5e);
    let gll_data = parse_gll(s).unwrap();
    assert_eq!(
        Some(hms(18, 16, "04.00")),
        gll_data.fix_time
    );
    assert!(!gll_data.valid);

    let s = parse("$GNGLL,,,,,,V,N*7A", 0x7a);
    let gll_data = parse_gll(s).unwrap();
    assert_eq!(gll_data.fix_time, None);
    assert!(!gll_data.valid);
}

#[test]
fn test_generate_gll_roundtrip() {
    let original = GllData {
        position: Some(lat_lon(51, "07.0013414", false, 114, "02.3279144", true)),
        fix_time: Some(hms(20, 54, "12")),
        valid: true,
        faa_mode: Some(FaaMode::Autonomous),
    };
    let mut buf = String::new();
    generate_sentence("GP", &original, &mut buf).unwrap();
    let s = parse_nmea_sentence(&buf).unwrap();
    assert_eq!(s.checksum, s.calc_checksum());
    let parsed = parse_gll(s).unwrap();
    assert_eps(lat_of(&parsed.position), lat_of(&original.position), 1e-5);
    assert_eps(lon_of(&parsed.position), lon_of(&original.position), 1e-5);
    assert_eq!(parsed.fix_time, original.fix_time);
    assert_eq!(parsed.valid, original.valid);
    assert_eq!(parsed.faa_mode, original.faa_mode);
}

#[test]
fn test_generate_gll_empty() {
    let original = GllData {
        position: None,
        fix_time: None,
        valid: false,
        faa_mode: Some(FaaMode::DataNotValid),
    };
    let mut buf = String::new();
    generate_sentence("GN", &original, &mut buf).unwrap();
    let s = parse_nmea_sentence(&buf).unwrap();
    assert_eq!(s.checksum, s.calc_checksum());
    let parsed = parse_gll(s).unwrap();
    assert_eq!(parsed, original);
}

// GNS

#[test]
fn test_parse_gns() {
    let s = parse_nmea_sentence("$GPGNS,224749.00,3333.4268304,N,11153.3538273,W,D,19,0.6,406.110,-26.294,6.0,0138,S,*46").unwrap();
    assert_eq!(s.checksum, s.calc_checksum());
    assert_eq!(s.checksum, 0x46);
    let gns_data = parse_gns(s).unwrap();
    assert_eq!(
        gns_data.fix_time,
        Some(hms(22, 47, "49.00"))
    );
    assert_close(lat_of(&gns_data.position), 33.0 + 33.4268304 / 60.);
    assert_close(lon_of(&gns_data.position), -(111.0 + 53.3538273 / 60.));
    assert_eq!(19, gns_data.nsattelites);
    assert_num(&gns_data.hdop, 0.6);
    assert_num(&gns_data.alt, 406.110);
    assert_num(&gns_data.geoid_separation, -26.294);
    assert_num(&gns_data.age_of_differential, 6.0);
    assert_eq!(Some(138), gns_data.station_id);
    assert_eq!(Some(NavigationStatus::Safe), gns_data.nav_status);
}

#[test]
fn test_generate_gns_roundtrip() {
    // Parse a known-good sentence to get a valid GnsData (FaaModes fields are private)
    let s = parse_nmea_sentence("$GPGNS,224749.00,3333.4268304,N,11153.3538273,W,D,19,0.6,406.110,-26.294,6.0,0138,S,*46").unwrap();
    let original = parse_gns(s).unwrap();

    let mut buf = String::new();
    generate_sentence("GP", &original, &mut buf).unwrap();
    let s2 = parse_nmea_sentence(&buf).unwrap();
    assert_eq!(s2.checksum, s2.calc_checksum());
    let parsed = parse_gns(s2).unwrap();
    assert_eq!(parsed.fix_time, original.fix_time);
    assert_eps(lat_of(&parsed.position), lat_of(&original.position), 1e-5);
    assert_eps(lon_of(&parsed.position), lon_of(&original.position), 1e-5);
    assert_eq!(parsed.faa_modes, original.faa_modes);
    assert_eq!(parsed.nsattelites, original.nsattelites);
    assert_same(&parsed.hdop, &original.hdop);
    assert_same(&parsed.alt, &original.alt);
    assert_same(&parsed.geoid_separation, &original.geoid_separation);
    assert_same(&parsed.age_of_differential, &original.age_of_differential);
    assert_eq!(parsed.station_id, original.station_id);
    assert_eq!(parsed.nav_status, original.nav_status);
}

// GSA

#[test]
fn test_gsa_prn_fields_parse() {
    let (_, ret) = gsa_prn_fields_parse("5,");
    assert_eq!(ret, &[Some(5)]);

    let (_, ret) = gsa_prn_fields_parse(",");
    assert_eq!(ret, &[None]);

    let (_, ret) = gsa_prn_fields_parse(",,5,6,");
    assert_eq!(ret, &[None, None, Some(5), Some(6)],);
}

#[test]
fn gsa_prn_fields_stop_before_a_field_without_a_comma() {
    let (rest, ret) = gsa_prn_fields_parse("12,,7,3.6,2.1");
    assert_eq!(ret, &[Some(12), None, Some(7)]);
    assert_eq!(rest, "3.6,2.1");
    let (rest, ret) = gsa_prn_fields_parse("1,2,3,4,5,6,7,8,9,10,11,12,13,14,15,16,17,18,19,20,x");
    assert_eq!(ret.len(), 18);
    assert_eq!(ret[17], Some(18));
    assert_eq!(rest, "x");
}

#[test]
fn smoke_test_parse_gsa() {
    let s = parse_nmea_sentence("$GPGSA,A,3,,,,,,16,18,,22,24,,,3.6,2.1,2.2*3C").unwrap();
    let gsa = parse_gsa(s).unwrap();
    assert_eq!(
        GsaData {
            mode1: GsaMode1::Automatic,
            mode2: GsaMode2::Fix3D,
            fix_sats_prn: heapless::Vec::from_slice(&[16, 18, 22, 24]).unwrap(),
            pdop: num("3.6"),
            hdop: num("2.1"),
            vdop: num("2.2"),
            system_id: None,
        },
        gsa
    );
    let gsa_examples = [
        "$GPGSA,A,3,19,28,14,18,27,22,31,39,,,,,1.7,1.0,1.3*35",
        "$GPGSA,A,3,23,31,22,16,03,07,,,,,,,1.8,1.1,1.4*3E",
        "$BDGSA,A,3,214,,,,,,,,,,,,1.8,1.1,1.4*18",
        "$GNGSA,A,3,31,26,21,,,,,,,,,,3.77,2.55,2.77*1A",
        "$GNGSA,A,3,75,86,87,,,,,,,,,,3.77,2.55,2.77*1C",
        "$GPGSA,A,1,,,,*32",
    ];
    for line in &gsa_examples {
        println!("we parse line '{}'", line);
        let s = parse_nmea_sentence(line).unwrap();
        parse_gsa(s).unwrap();
    }
}

#[test]
fn test_generate_gsa_roundtrip() {
    let original = GsaData {
        mode1: GsaMode1::Automatic,
        mode2: GsaMode2::Fix3D,
        fix_sats_prn: heapless::Vec::from_slice(&[19, 28, 14, 18, 27, 22, 31, 39]).unwrap(),
        pdop: num("1.7"),
        hdop: num("1.0"),
        vdop: num("1.3"),
        system_id: None,
    };
    let mut buf = String::new();
    generate_sentence("GP", &original, &mut buf).unwrap();

    let s = parse_nmea_sentence(&buf).unwrap();
    assert_eq!(s.checksum, s.calc_checksum());
    let parsed = parse_gsa(s).unwrap();
    assert_eq!(parsed.mode1, GsaMode1::Automatic);
    assert_eq!(parsed.mode2, GsaMode2::Fix3D);
    assert_eq!(
        parsed.fix_sats_prn,
        heapless::Vec::<u32, 18>::from_slice(&[19, 28, 14, 18, 27, 22, 31, 39]).unwrap()
    );
    assert_eq!(opt_f64(&parsed.pdop), Some(1.7));
    assert_eq!(opt_f64(&parsed.hdop), Some(1.0));
    assert_eq!(opt_f64(&parsed.vdop), Some(1.3));
}

#[test]
fn test_parse_gsa_with_system_id() {
    // NMEA 4.1+ sentence with System ID field (1=GPS)
    let s =
        parse_nmea_sentence("$GNGSA,A,3,23,31,22,16,03,07,,,,,,,1.8,1.1,1.4,1*33").unwrap();
    let gsa = parse_gsa(s).unwrap();
    assert_eq!(gsa.mode1, GsaMode1::Automatic);
    assert_eq!(gsa.mode2, GsaMode2::Fix3D);
    assert_eq!(
        gsa.fix_sats_prn,
        heapless::Vec::<u32, 18>::from_slice(&[23, 31, 22, 16, 3, 7]).unwrap()
    );
    assert_eq!(opt_f64(&gsa.pdop), Some(1.8));
    assert_eq!(opt_f64(&gsa.hdop), Some(1.1));
    assert_eq!(opt_f64(&gsa.vdop), Some(1.4));
    assert_eq!(gsa.system_id, Some(1));
}

#[test]
fn test_generate_gsa_with_system_id_roundtrip() {
    let original = GsaData {
        mode1: GsaMode1::Automatic,
        mode2: GsaMode2::Fix3D,
        fix_sats_prn: heapless::Vec::from_slice(&[23, 31, 22]).unwrap(),
        pdop: num("1.8"),
        hdop: num("1.1"),
        vdop: num("1.4"),
        system_id: Some(3), // Galileo
    };
    let mut buf = String::new();
    generate_sentence("GN", &original, &mut buf).unwrap();

    let s = parse_nmea_sentence(&buf).unwrap();
    assert_eq!(s.checksum, s.calc_checksum());
    let parsed = parse_gsa(s).unwrap();
    assert_eq!(parsed.system_id, Some(3));
    assert_eq!(parsed.fix_sats_prn, original.fix_sats_prn);
}

#[test]
fn test_generate_gsa_empty_prns() {
    let original = GsaData {
        mode1: GsaMode1::Manual,
        mode2: GsaMode2::NoFix,
        fix_sats_prn: heapless::Vec::new(),
        pdop: None,
        hdop: None,
        vdop: None,
        system_id: None,
    };
    let mut buf = String::new();
    generate_sentence("GP", &original, &mut buf).unwrap();

    let s = parse_nmea_sentence(&buf).unwrap();
    assert_eq!(s.checksum, s.calc_checksum());
    let parsed = parse_gsa(s).unwrap();
    assert_eq!(parsed.mode1, GsaMode1::Manual);
    assert_eq!(parsed.mode2, GsaMode2::NoFix);
    assert!(parsed.fix_sats_prn.is_empty());
}

// GST

fn run_parse_gst(line: &str) -> Result<GstData, Error> {
    let s = parse_nmea_sentence(line).expect("GST sentence initial parse failed");
    assert_eq!(s.checksum, s.calc_checksum());
    parse_gst(s)
}

#[test]
fn test_parse_gst() {
    assert_eq!(
        GstData {
            time: Some(hms(18, 21, "41.000")),
            rms_sd: num("15.5"),
            ellipse_semi_major_sd: num("15.3"),
            ellipse_semi_minor_sd: num("7.2"),
            err_ellipse_orientation: num("21.8"),
            lat_sd: num("0.9"),
            long_sd: num("0.5"),
            alt_sd: num("0.8"),
        },
        run_parse_gst("$GPGST,182141.000,15.5,15.3,7.2,21.8,0.9,0.5,0.8*54").unwrap()
    );
    assert_eq!(
        GstData {
            time: None,
            rms_sd: None,
            ellipse_semi_major_sd: None,
            ellipse_semi_minor_sd: None,
            err_ellipse_orientation: None,
            lat_sd: None,
            long_sd: None,
            alt_sd: None,
        },
        run_parse_gst("$GPGST,,,,,,,,*57").unwrap()
    );
}

#[test]
fn test_generate_gst_roundtrip() {

    let original = GstData {
        time: Some(hms(18, 21, "41")),
        rms_sd: num("15.5"),
        ellipse_semi_major_sd: num("15.3"),
        ellipse_semi_minor_sd: num("7.2"),
        err_ellipse_orientation: num("21.8"),
        lat_sd: num("0.9"),
        long_sd: num("0.5"),
        alt_sd: num("0.8"),
    };
    let mut buf = String::new();
    generate_sentence("GP", &original, &mut buf).unwrap();
    let s = parse_nmea_sentence(&buf).unwrap();
    assert_eq!(s.checksum, s.calc_checksum());
    let parsed = parse_gst(s).unwrap();
    assert_eq!(parsed.time, original.time);
    assert_same(&parsed.rms_sd, &original.rms_sd);
    assert_same(&parsed.ellipse_semi_major_sd, &original.ellipse_semi_major_sd);
    assert_same(&parsed.ellipse_semi_minor_sd, &original.ellipse_semi_minor_sd);
    assert_same(&parsed.err_ellipse_orientation, &original.err_ellipse_orientation);
    assert_same(&parsed.lat_sd, &original.lat_sd);
    assert_same(&parsed.long_sd, &original.long_sd);
    assert_same(&parsed.alt_sd, &original.alt_sd);
}

#[test]
fn test_generate_gst_empty() {
    let original = GstData {
        time: None,
        rms_sd: None,
        ellipse_semi_major_sd: None,
        ellipse_semi_minor_sd: None,
        err_ellipse_orientation: None,
        lat_sd: None,
        long_sd: None,
        alt_sd: None,
    };
    let mut buf = String::new();
    generate_sentence("GP", &original, &mut buf).unwrap();
    let s = parse_nmea_sentence(&buf).unwrap();
    assert_eq!(s.checksum, s.calc_checksum());
    let parsed = parse_gst(s).unwrap();
    assert_eq!(parsed, original);
}

