//! Reading and writing single sentences, TTM to ZTG.

#![allow(dead_code, unused_imports)]

use arrayvec::ArrayString;
use nmea::sentences::{
    ApbData, DbsData, DbtData, DscData, FaaMode, FaaModes, GbsData, GllData, GnsData, GsaData, GsaMode1,
    GsaMode2, GstData, HdgData, HdmData, HscData, MdaData, MwdData, NavigationStatus, RmbData,
    RotData, RpmData, RpmSource, RsaData, StalkData, TtmAngle, TtmData, TtmDistanceUnit,
    TtmReference, TtmStatus, TtmTypeOfAcquisition, VdmData, VdrData, VlwData, VpwData, VwrData,
    VwtData, XdrData, XdrMeasurement, XteData, ZtgData,
};
use nmea::sentences::{
    parse_apb, parse_dbs, parse_dbt, parse_dsc, parse_gbs, parse_gll, parse_gns, parse_gsa,
    parse_gst, parse_hdg, parse_hdm, parse_hsc, parse_mda, parse_mwd, parse_rmb, parse_rot,
    parse_rpm, parse_rsa, parse_stalk, parse_ttm, parse_vdm, parse_vdr, parse_vlw, parse_vpw,
    parse_vwr, parse_vwt, parse_xdr, parse_xte, parse_ztg,
};
use nmea::{generate_sentence, parse_nmea_sentence, Error, Hms, LatLon, NmeaSentence, Number, SentenceType};

/// A number literal as the library holds it: the sign apart from the digits.
fn num(s: &str) -> Option<Number> {
    let (negative, magnitude) = match s.strip_prefix('-') {
        Some(rest) => (true, rest),
        None => (false, s),
    };
    Some(Number { negative, magnitude: magnitude.to_string() })
}

/// The value of a number literal.
fn num_f64(n: &Number) -> f64 {
    let v: f64 = n.magnitude.parse().expect("a decimal literal");
    if n.negative { -v } else { v }
}

fn opt_f64(o: &Option<Number>) -> Option<f64> {
    o.as_ref().map(num_f64)
}

fn assert_eps(actual: f64, expected: f64, eps: f64) {
    assert!((actual - expected).abs() <= eps, "{} is not within {} of {}", actual, eps, expected);
}

fn assert_close(actual: f64, expected: f64) {
    assert_eps(actual, expected, 1e-9 * expected.abs().max(1.0));
}

fn assert_num(o: &Option<Number>, expected: f64) {
    assert_close(opt_f64(o).expect("a number"), expected);
}

/// Both numbers are present and hold the same value.
fn assert_same(a: &Option<Number>, b: &Option<Number>) {
    assert_num(a, num_f64(b.as_ref().expect("a number")));
}

fn hms(hour: u8, minute: u8, second: &str) -> Hms {
    Hms { hour, minute, second: num(second).unwrap() }
}

fn duration(hours: i64, minutes: i64, seconds: i64, millis: i64) -> nmea::position::HmsDuration {
    nmea::position::duration_of_millis(hours * 3_600_000 + minutes * 60_000 + seconds * 1000 + millis)
}

fn lat_lon(lat_degrees: u8, lat_minutes: &str, south: bool, lon_degrees: u8, lon_minutes: &str, west: bool) -> LatLon {
    LatLon {
        lat_degrees,
        lat_minutes: num(lat_minutes).unwrap(),
        south,
        lon_degrees,
        lon_minutes: num(lon_minutes).unwrap(),
        west,
    }
}

/// The latitude in degrees, negative to the south.
fn lat_of(p: &Option<LatLon>) -> f64 {
    let p = p.as_ref().expect("a position");
    let v = p.lat_degrees as f64 + num_f64(&p.lat_minutes) / 60.0;
    if p.south { -v } else { v }
}

/// The longitude in degrees, negative to the west.
fn lon_of(p: &Option<LatLon>) -> f64 {
    let p = p.as_ref().expect("a position");
    let v = p.lon_degrees as f64 + num_f64(&p.lon_minutes) / 60.0;
    if p.west { -v } else { v }
}

// TTM


#[test]
fn test_parse_ttm_full() {
    let data = parse_ttm(NmeaSentence {
        talker_id: "RA",
        message_id: SentenceType::TTM,
        data: "00,0.5,187.5,T,12.0,17.6,T,0.0,1.2,N,TGT00,T,,100023.00,A",
        checksum: 0x4e,
    })
    .unwrap();
    assert_eq!(data.target_number.unwrap(), 0);
    assert_num(&data.target_distance, 0.5);

    let bearing_from_own_ship = data.bearing_from_own_ship.unwrap();
    assert_close(num_f64(&bearing_from_own_ship.angle), 187.5);
    assert_eq!(bearing_from_own_ship.reference, TtmReference::Theoretical);

    assert_num(&data.target_speed, 12.0);

    let target_course = data.target_course.unwrap();
    assert_close(num_f64(&target_course.angle), 17.6);
    assert_eq!(target_course.reference, TtmReference::Theoretical);

    assert_num(&data.distance_of_cpa, 0.0);
    assert_num(&data.time_to_cpa, 1.2);
    assert_eq!(
        data.speed_or_distance_unit.unwrap(),
        TtmDistanceUnit::NauticalMile
    );
    assert_eq!(data.target_name.unwrap(), "TGT00");
    assert_eq!(data.target_status.unwrap(), TtmStatus::Tracking);
    assert!(!data.is_target_reference);
    assert_eq!(
        data.time_of_data.unwrap(),
        hms(10, 0, "23.00")
    );
    assert_eq!(
        data.type_of_acquisition.unwrap(),
        TtmTypeOfAcquisition::Automatic
    );
}

#[test]
fn test_parse_ttm_all_optional() {
    let s = parse_nmea_sentence("$RATTM,,,,,,,,,,,,,,,*72").unwrap();
    assert_eq!(s.checksum, s.calc_checksum());

    let data = parse_ttm(s);
    assert_eq!(
        data,
        Ok(TtmData {
            target_number: None,
            target_distance: None,
            bearing_from_own_ship: None,
            target_speed: None,
            target_course: None,
            distance_of_cpa: None,
            time_to_cpa: None,
            speed_or_distance_unit: None,
            target_name: None,
            target_status: None,
            is_target_reference: false,
            time_of_data: None,
            type_of_acquisition: None,
        })
    );
}

#[test]
fn test_generate_ttm_roundtrip() {
    let original = TtmData {
        target_number: Some(1),
        target_distance: num("0.2"),
        bearing_from_own_ship: Some(TtmAngle {
            angle: num("190.8").unwrap(),
            reference: TtmReference::Theoretical,
        }),
        target_speed: num("12.1"),
        target_course: Some(TtmAngle {
            angle: num("109.7").unwrap(),
            reference: TtmReference::Theoretical,
        }),
        distance_of_cpa: num("0.1"),
        time_to_cpa: num("0.5"),
        speed_or_distance_unit: Some(TtmDistanceUnit::NauticalMile),
        target_name: Some(heapless::String::try_from("TGT01").unwrap()),
        target_status: Some(TtmStatus::Tracking),
        is_target_reference: false,
        time_of_data: Some(hms(10, 0, "21")),
        type_of_acquisition: Some(TtmTypeOfAcquisition::Automatic),
    };
    let mut buf = String::new();
    generate_sentence("RA", &original, &mut buf).unwrap();

    let s = parse_nmea_sentence(&buf).unwrap();
    assert_eq!(s.checksum, s.calc_checksum());
    let parsed = parse_ttm(s).unwrap();
    assert_eq!(parsed.target_number, Some(1));
    assert_num(&parsed.target_distance, 0.2);
    let bearing = parsed.bearing_from_own_ship.unwrap();
    assert_close(num_f64(&bearing.angle), 190.8);
    assert_eq!(bearing.reference, TtmReference::Theoretical);
    assert_num(&parsed.target_speed, 12.1);
    let course = parsed.target_course.unwrap();
    assert_close(num_f64(&course.angle), 109.7);
    assert_eq!(course.reference, TtmReference::Theoretical);
    assert_num(&parsed.distance_of_cpa, 0.1);
    assert_num(&parsed.time_to_cpa, 0.5);
    assert_eq!(
        parsed.speed_or_distance_unit,
        Some(TtmDistanceUnit::NauticalMile)
    );
    assert_eq!(parsed.target_name.unwrap(), "TGT01");
    assert_eq!(parsed.target_status, Some(TtmStatus::Tracking));
    assert!(!parsed.is_target_reference);
    assert_eq!(
        parsed.time_of_data.unwrap(),
        hms(10, 0, "21")
    );
    assert_eq!(
        parsed.type_of_acquisition,
        Some(TtmTypeOfAcquisition::Automatic)
    );
}

#[test]
fn test_generate_ttm_empty_roundtrip() {
    let original = TtmData {
        target_number: None,
        target_distance: None,
        bearing_from_own_ship: None,
        target_speed: None,
        target_course: None,
        distance_of_cpa: None,
        time_to_cpa: None,
        speed_or_distance_unit: None,
        target_name: None,
        target_status: None,
        is_target_reference: false,
        time_of_data: None,
        type_of_acquisition: None,
    };
    let mut buf = String::new();
    generate_sentence("RA", &original, &mut buf).unwrap();

    let s = parse_nmea_sentence(&buf).unwrap();
    assert_eq!(s.checksum, s.calc_checksum());
    let parsed = parse_ttm(s).unwrap();
    assert_eq!(parsed, original);
}


// VDM


#[test]
fn test_parse_vdm_single() {
    let s = parse_nmea_sentence("!AIVDM,1,1,,A,13aEOK?P00PD2wVMdLDRhgvL289?,0*26").unwrap();
    assert_eq!(s.checksum, s.calc_checksum());
    let data = parse_vdm(s).unwrap();
    assert_eq!(data.fragment_count, 1);
    assert_eq!(data.fragment_number, 1);
    assert_eq!(data.message_id, None);
    assert_eq!(data.channel, Some('A'));
    assert_eq!(&*data.payload, "13aEOK?P00PD2wVMdLDRhgvL289?");
    assert_eq!(data.fill_bits, 0);
    assert!(!data.own_vessel);
}

#[test]
fn test_parse_vdm_multi_fragment() {
    let s1 = parse_nmea_sentence(
        "!AIVDM,2,1,0,A,53brRt4000010SG700iE@LE8@Tp4000000000153P615t0Ht0SCkjH4jC1C,0*25",
    )
    .unwrap();
    assert_eq!(s1.checksum, s1.calc_checksum());
    let data1 = parse_vdm(s1).unwrap();
    assert_eq!(data1.fragment_count, 2);
    assert_eq!(data1.fragment_number, 1);
    assert_eq!(data1.message_id, Some(0));
    assert_eq!(data1.channel, Some('A'));

    let s2 = parse_nmea_sentence("!AIVDM,2,2,0,A,`0000000001,2*75").unwrap();
    assert_eq!(s2.checksum, s2.calc_checksum());
    let data2 = parse_vdm(s2).unwrap();
    assert_eq!(data2.fragment_count, 2);
    assert_eq!(data2.fragment_number, 2);
    assert_eq!(data2.message_id, Some(0));
    assert_eq!(data2.fill_bits, 2);
}

#[test]
fn test_parse_vdm_channel_b() {
    let s = parse_nmea_sentence("!AIVDM,1,1,,B,13aGra0P00PHid>NK9<2FOvHR624,0*3E").unwrap();
    assert_eq!(s.checksum, s.calc_checksum());
    let data = parse_vdm(s).unwrap();
    assert_eq!(data.channel, Some('B'));
}

#[test]
fn test_parse_bsvdm() {
    // Non-AI talker (BS = base station)
    let s = parse_nmea_sentence("!BSVDM,1,1,,A,B6CdCm0t3`tba35f@V9faHi7kP06,0*41").unwrap();
    assert_eq!(s.checksum, s.calc_checksum());
    let data = parse_vdm(s).unwrap();
    assert_eq!(data.fragment_count, 1);
}

#[test]
fn test_generate_vdm_roundtrip() {
    let original = VdmData {
        fragment_count: 1,
        fragment_number: 1,
        message_id: None,
        channel: Some('A'),
        payload: ArrayString::from("13aEOK?P00PD2wVMdLDRhgvL289?").unwrap(),
        fill_bits: 0,
        own_vessel: false,
    };
    let mut buf = String::new();
    generate_sentence("AI", &original, &mut buf).unwrap();

    let s = parse_nmea_sentence(&buf).unwrap();
    assert_eq!(s.checksum, s.calc_checksum());
    let parsed = parse_vdm(s).unwrap();
    assert_eq!(parsed.fragment_count, 1);
    assert_eq!(parsed.fragment_number, 1);
    assert_eq!(parsed.message_id, None);
    assert_eq!(parsed.channel, Some('A'));
    assert_eq!(&*parsed.payload, "13aEOK?P00PD2wVMdLDRhgvL289?");
    assert_eq!(parsed.fill_bits, 0);
}


// VDR


#[test]
fn test_parse_vdr() {
    let s = parse_nmea_sentence("$IIVDR,180.0,T,175.5,M,1.5,N*32").unwrap();
    assert_eq!(s.checksum, s.calc_checksum());
    let data = parse_vdr(s).unwrap();
    assert_num(&data.direction_true, 180.0);
    assert_num(&data.direction_magnetic, 175.5);
    assert_num(&data.speed, 1.5);
}

#[test]
fn test_parse_vdr_empty() {
    let s = parse_nmea_sentence("$IIVDR,,T,,M,,N*17").unwrap();
    assert_eq!(s.checksum, s.calc_checksum());
    let data = parse_vdr(s).unwrap();
    assert_eq!(data.direction_true, None);
    assert_eq!(data.direction_magnetic, None);
    assert_eq!(data.speed, None);
}

#[test]
fn test_generate_vdr_roundtrip() {
    let original = VdrData {
        direction_true: num("180.0"),
        direction_magnetic: num("175.5"),
        speed: num("1.5"),
    };
    let mut buf = String::new();
    generate_sentence("II", &original, &mut buf).unwrap();

    let s = parse_nmea_sentence(&buf).unwrap();
    assert_eq!(s.checksum, s.calc_checksum());
    let parsed = parse_vdr(s).unwrap();
    assert_num(&parsed.direction_true, 180.0);
    assert_num(&parsed.direction_magnetic, 175.5);
    assert_num(&parsed.speed, 1.5);
}


// VLW


#[test]
fn test_parse_vlw() {
    let s = parse_nmea_sentence("$VWVLW,7803.2,N,0.00,N*42").unwrap();
    assert_eq!(s.checksum, s.calc_checksum());
    let data = parse_vlw(s).unwrap();
    assert_num(&data.total_water_distance, 7803.2);
    assert_num(&data.trip_water_distance, 0.0);
    assert_eq!(data.total_ground_distance, None);
    assert_eq!(data.trip_ground_distance, None);
}

#[test]
fn test_parse_vlw_with_ground() {
    let s = parse_nmea_sentence("$VWVLW,7803.2,N,0.00,N,8000.1,N,10.5,N*4F").unwrap();
    assert_eq!(s.checksum, s.calc_checksum());
    let data = parse_vlw(s).unwrap();
    assert_num(&data.total_water_distance, 7803.2);
    assert_num(&data.trip_water_distance, 0.0);
    assert_num(&data.total_ground_distance, 8000.1);
    assert_num(&data.trip_ground_distance, 10.5);
}

#[test]
fn test_generate_vlw_roundtrip() {
    let original = VlwData {
        total_water_distance: num("7803.2"),
        trip_water_distance: num("0.0"),
        total_ground_distance: None,
        trip_ground_distance: None,
    };
    let mut buf = String::new();
    generate_sentence("VW", &original, &mut buf).unwrap();

    let s = parse_nmea_sentence(&buf).unwrap();
    assert_eq!(s.checksum, s.calc_checksum());
    let parsed = parse_vlw(s).unwrap();
    assert_num(&parsed.total_water_distance, 7803.2);
    assert_num(&parsed.trip_water_distance, 0.0);
}


// VPW


#[test]
fn test_parse_vpw() {
    let s = parse_nmea_sentence("$IIVPW,4.5,N,2.3,M*52").unwrap();
    assert_eq!(s.checksum, s.calc_checksum());
    let data = parse_vpw(s).unwrap();
    assert_num(&data.speed_knots, 4.5);
    assert_num(&data.speed_mps, 2.3);
}

#[test]
fn test_parse_vpw_empty() {
    let s = parse_nmea_sentence("$IIVPW,,N,,M*52").unwrap();
    assert_eq!(s.checksum, s.calc_checksum());
    let data = parse_vpw(s).unwrap();
    assert_eq!(data.speed_knots, None);
    assert_eq!(data.speed_mps, None);
}

#[test]
fn test_generate_vpw_roundtrip() {
    let original = VpwData {
        speed_knots: num("4.5"),
        speed_mps: num("2.3"),
    };
    let mut buf = String::new();
    generate_sentence("II", &original, &mut buf).unwrap();

    let s = parse_nmea_sentence(&buf).unwrap();
    assert_eq!(s.checksum, s.calc_checksum());
    let parsed = parse_vpw(s).unwrap();
    assert_num(&parsed.speed_knots, 4.5);
    assert_num(&parsed.speed_mps, 2.3);
}


// VWR


#[test]
fn test_parse_vwr() {
    let s = parse_nmea_sentence("$IIVWR,75,R,1.0,N,0.51,M,1.85,K*6C").unwrap();
    assert_eq!(s.checksum, s.calc_checksum());
    let data = parse_vwr(s).unwrap();
    assert_num(&data.wind_angle, 75.0);
    assert_num(&data.speed_knots, 1.0);
    assert_num(&data.speed_mps, 0.51);
    assert_num(&data.speed_kmph, 1.85);
}

#[test]
fn test_parse_vwr_port() {
    let s = parse_nmea_sentence("$IIVWR,024,L,018,N,,,,*5E").unwrap();
    assert_eq!(s.checksum, s.calc_checksum());
    let data = parse_vwr(s).unwrap();
    assert_num(&data.wind_angle, -24.0); // port = negative
    assert_num(&data.speed_knots, 18.0);
}

#[test]
fn test_parse_vwr_empty() {
    let s = parse_nmea_sentence("$IIVWR,,,,,,,,*53").unwrap();
    assert_eq!(s.checksum, s.calc_checksum());
    let data = parse_vwr(s).unwrap();
    assert_eq!(data.wind_angle, None);
    assert_eq!(data.speed_knots, None);
    assert_eq!(data.speed_mps, None);
    assert_eq!(data.speed_kmph, None);
}

#[test]
fn test_generate_vwr_roundtrip() {
    let original = VwrData {
        wind_angle: num("75.0"),
        speed_knots: num("1.0"),
        speed_mps: num("0.51"),
        speed_kmph: num("1.85"),
    };
    let mut buf = String::new();
    generate_sentence("II", &original, &mut buf).unwrap();

    let s = parse_nmea_sentence(&buf).unwrap();
    assert_eq!(s.checksum, s.calc_checksum());
    let parsed = parse_vwr(s).unwrap();
    assert_num(&parsed.wind_angle, 75.0);
    assert_num(&parsed.speed_knots, 1.0);
}


// VWT


#[test]
fn test_parse_vwt() {
    let s = parse_nmea_sentence("$IIVWT,030.,R,10.1,N,05.2,M,018.7,K*75").unwrap();
    assert_eq!(s.checksum, s.calc_checksum());
    let data = parse_vwt(s).unwrap();
    assert_num(&data.wind_angle, 30.0);
    assert_num(&data.speed_knots, 10.1);
    assert_num(&data.speed_mps, 5.2);
    assert_num(&data.speed_kmph, 18.7);
}

#[test]
fn test_parse_vwt_port() {
    let s = parse_nmea_sentence("$IIVWT,170.,L,10.1,N,05.2,M,018.7,K*6E").unwrap();
    assert_eq!(s.checksum, s.calc_checksum());
    let data = parse_vwt(s).unwrap();
    assert_num(&data.wind_angle, -170.0);
}

#[test]
fn test_parse_vwt_empty() {
    let s = parse_nmea_sentence("$IIVWT,,,,,,,,*55").unwrap();
    assert_eq!(s.checksum, s.calc_checksum());
    let data = parse_vwt(s).unwrap();
    assert_eq!(data.wind_angle, None);
}

#[test]
fn test_generate_vwt_roundtrip() {
    let original = VwtData {
        wind_angle: num("30.0"),
        speed_knots: num("10.1"),
        speed_mps: num("5.2"),
        speed_kmph: num("18.7"),
    };
    let mut buf = String::new();
    generate_sentence("II", &original, &mut buf).unwrap();

    let s = parse_nmea_sentence(&buf).unwrap();
    assert_eq!(s.checksum, s.calc_checksum());
    let parsed = parse_vwt(s).unwrap();
    assert_num(&parsed.wind_angle, 30.0);
    assert_num(&parsed.speed_mps, 5.2);
}


// XDR


#[test]
fn test_parse_xdr_single_measurement() {
    let s = parse_nmea_sentence("$WIXDR,C,24.3,C,ENV_TEMP*45").unwrap();
    assert_eq!(s.checksum, s.calc_checksum());
    let data = parse_xdr(s).unwrap();
    assert_eq!(data.measurements.len(), 1);
    let m = &data.measurements[0];
    assert_eq!(m.transducer_type, Some('C'));
    assert_num(&m.value, 24.3);
    assert_eq!(m.units, Some('C'));
    assert_eq!(m.name.as_str(), "ENV_TEMP");
}

#[test]
fn test_parse_xdr_multiple_measurements() {
    let s = parse_nmea_sentence("$HCXDR,A,171,D,PITCH,A,-37,D,ROLL*00").unwrap();
    assert_eq!(s.checksum, s.calc_checksum());
    let data = parse_xdr(s).unwrap();
    assert_eq!(data.measurements.len(), 2);

    assert_eq!(data.measurements[0].transducer_type, Some('A'));
    assert_num(&data.measurements[0].value, 171.0);
    assert_eq!(data.measurements[0].units, Some('D'));
    assert_eq!(data.measurements[0].name.as_str(), "PITCH");

    assert_eq!(data.measurements[1].transducer_type, Some('A'));
    assert_num(&data.measurements[1].value, -37.0);
    assert_eq!(data.measurements[1].units, Some('D'));
    assert_eq!(data.measurements[1].name.as_str(), "ROLL");
}

#[test]
fn test_parse_xdr_pressure() {
    let s = parse_nmea_sentence("$WIXDR,P,1.0135,B,BARO*44").unwrap();
    assert_eq!(s.checksum, s.calc_checksum());
    let data = parse_xdr(s).unwrap();
    assert_eq!(data.measurements.len(), 1);
    assert_eq!(data.measurements[0].transducer_type, Some('P'));
    assert_num(&data.measurements[0].value, 1.0135);
    assert_eq!(data.measurements[0].units, Some('B'));
    assert_eq!(data.measurements[0].name.as_str(), "BARO");
}

#[test]
fn test_parse_xdr_empty_value() {
    let s = parse_nmea_sentence("$WIXDR,C,,C,TEMP*5C").unwrap();
    assert_eq!(s.checksum, s.calc_checksum());
    let data = parse_xdr(s).unwrap();
    assert_eq!(data.measurements.len(), 1);
    assert_eq!(data.measurements[0].transducer_type, Some('C'));
    assert_eq!(data.measurements[0].value, None);
    assert_eq!(data.measurements[0].units, Some('C'));
    assert_eq!(data.measurements[0].name.as_str(), "TEMP");
}

#[test]
fn test_generate_xdr_roundtrip() {
    let original = XdrData {
        measurements: {
            let mut v = heapless::Vec::new();
            v.push(XdrMeasurement {
                transducer_type: Some('C'),
                value: num("24.3"),
                units: Some('C'),
                name: {
                    let mut s = ArrayString::new();
                    s.push_str("ENV_TEMP");
                    s
                },
            })
            .unwrap();
            v
        },
    };
    let mut buf = String::new();
    generate_sentence("WI", &original, &mut buf).unwrap();

    let s = parse_nmea_sentence(&buf).unwrap();
    assert_eq!(s.checksum, s.calc_checksum());
    let parsed = parse_xdr(s).unwrap();
    assert_eq!(parsed.measurements.len(), 1);
    assert_eq!(parsed.measurements[0].transducer_type, Some('C'));
    assert_num(&parsed.measurements[0].value, 24.3);
    assert_eq!(parsed.measurements[0].name.as_str(), "ENV_TEMP");
}

#[test]
fn test_generate_xdr_multi_roundtrip() {
    let original = XdrData {
        measurements: {
            let mut v = heapless::Vec::new();
            v.push(XdrMeasurement {
                transducer_type: Some('A'),
                value: num("5.2"),
                units: Some('D'),
                name: {
                    let mut s = ArrayString::new();
                    s.push_str("PITCH");
                    s
                },
            })
            .unwrap();
            v.push(XdrMeasurement {
                transducer_type: Some('A'),
                value: num("-3.1"),
                units: Some('D'),
                name: {
                    let mut s = ArrayString::new();
                    s.push_str("ROLL");
                    s
                },
            })
            .unwrap();
            v
        },
    };
    let mut buf = String::new();
    generate_sentence("HC", &original, &mut buf).unwrap();

    let s = parse_nmea_sentence(&buf).unwrap();
    assert_eq!(s.checksum, s.calc_checksum());
    let parsed = parse_xdr(s).unwrap();
    assert_eq!(parsed.measurements.len(), 2);
    assert_eq!(parsed.measurements[0].name.as_str(), "PITCH");
    assert_eq!(parsed.measurements[1].name.as_str(), "ROLL");
}


// XTE


#[test]
fn test_parse_xte() {
    let s = parse_nmea_sentence("$GPXTE,A,A,0.67,L,N*6F").unwrap();
    assert_eq!(s.checksum, s.calc_checksum());
    let data = parse_xte(s).unwrap();
    assert_num(&data.cross_track_error, -0.67);
    assert!(data.status_general);
    assert!(data.status_cycle_lock);
}

#[test]
fn test_parse_xte_right() {
    let s = parse_nmea_sentence("$GPXTE,A,A,1.50,R,N*74").unwrap();
    assert_eq!(s.checksum, s.calc_checksum());
    let data = parse_xte(s).unwrap();
    assert_num(&data.cross_track_error, 1.50);
}

#[test]
fn test_parse_xte_with_faa_mode() {
    let s = parse_nmea_sentence("$GPXTE,A,A,0.67,L,N,D*07").unwrap();
    assert_eq!(s.checksum, s.calc_checksum());
    let data = parse_xte(s).unwrap();
    assert_num(&data.cross_track_error, -0.67);
}

#[test]
fn test_generate_xte_roundtrip() {
    let original = XteData {
        cross_track_error: num("-0.67"),
        status_general: true,
        status_cycle_lock: true,
    };
    let mut buf = String::new();
    generate_sentence("GP", &original, &mut buf).unwrap();

    let s = parse_nmea_sentence(&buf).unwrap();
    assert_eq!(s.checksum, s.calc_checksum());
    let parsed = parse_xte(s).unwrap();
    assert_num(&parsed.cross_track_error, -0.67);
    assert!(parsed.status_general);
}


// ZTG


fn run_parse_ztg(line: &str) -> Result<ZtgData, Error> {
    let s = parse_nmea_sentence(line).expect("ZTG sentence initial parse failed");
    assert_eq!(s.checksum, s.calc_checksum());
    parse_ztg(s)
}

#[test]
fn test_parse_ztg() {
    assert_eq!(
        ZtgData {
            fix_duration: Some(duration(4, 23, 59, 170)),
            fix_time: Some(hms(14, 58, "32.12")),
            waypoint_id: Some(ArrayString::from("WPT").unwrap()),
        },
        run_parse_ztg("$GPZTG,145832.12,042359.17,WPT*24").unwrap()
    );
    assert_eq!(
        ZtgData {
            fix_duration: None,
            fix_time: None,
            waypoint_id: None,
        },
        run_parse_ztg("$GPZTG,,,*72").unwrap()
    );
    assert_eq!(
        ZtgData {
            fix_duration: Some(duration(4, 23, 59, 170)),
            fix_time: None,
            waypoint_id: None,
        },
        run_parse_ztg("$GPZTG,,042359.17,*53").unwrap()
    );
}
#[test]
fn test_generate_ztg_roundtrip() {
    let original = ZtgData {
        fix_time: Some(hms(14, 58, "32.12")),
        fix_duration: Some(duration(4, 23, 59, 170)),
        waypoint_id: Some(ArrayString::from("WPT").unwrap()),
    };
    let mut buf = String::new();
    generate_sentence("GP", &original, &mut buf).unwrap();

    let s = parse_nmea_sentence(&buf).unwrap();
    assert_eq!(s.checksum, s.calc_checksum());
    let parsed = parse_ztg(s).unwrap();
    assert_eq!(parsed.fix_time, original.fix_time);
    assert_eq!(parsed.fix_duration, original.fix_duration);
    assert_eq!(parsed.waypoint_id.as_deref(), Some("WPT"));
}

#[test]
fn test_parse_ztg_with_too_long_waypoint() {
    assert_eq!(
        Error::ParameterLength { max_length: 64, parameter_length: 72 },
        run_parse_ztg("$GPZTG,145832.12,042359.17,ABCDEFGHIJKLMNOPRSTUWXYZABCDEFGHIJKLMNOPRSTUWXYZABCDEFGHIJKLMNOPRSTUWXYZ*6B").unwrap_err()
    );
}
