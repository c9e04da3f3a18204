//! The library's promises on concrete values: what is written reads back,
//! each error comes on the input that calls for it, and the bounded
//! containers keep what fits in them.

use arrayvec::ArrayString;
use nmea::sentences::{
    parse_dbs, parse_gns, parse_hdm, HdmData, parse_rmb, parse_stalk, parse_ttm, parse_xdr, FaaMode,
    FaaModes, GsaData, GsaMode1, GsaMode2, HdgData, RotData, RsaData, StalkData, VdmData,
    XdrData, XdrMeasurement,
};
use nmea::{
    generate_sentence, parse_bytes, parse_nmea_sentence, parse_str, Error, NmeaSentence, Number,
    ParseResult, SentenceType, UnknownReason, SENTENCE_MAX_LEN,
};

fn num(s: &str) -> Option<Number> {
    let (negative, magnitude) = match s.strip_prefix('-') {
        Some(rest) => (true, rest),
        None => (false, s),
    };
    Some(Number { negative, magnitude: magnitude.to_string() })
}

fn checksummed(start: char, body: &str) -> String {
    let cs = body.as_bytes().iter().fold(0u8, |c, x| c ^ x);
    format!("{}{}*{:02X}", start, body, cs)
}

#[test]
fn checksum_of_a_known_sentence() {
    let s = parse_nmea_sentence("$GPGLL,5107.0013414,N,11402.3279144,W,205412.00,A,A*73").unwrap();
    assert_eq!(s.talker_id, "GP");
    assert_eq!(s.message_id, SentenceType::GLL);
    assert_eq!(s.data, "5107.0013414,N,11402.3279144,W,205412.00,A,A");
    assert_eq!(s.checksum, 0x73);
    assert_eq!(s.calc_checksum(), 0x73);
}

#[test]
fn generated_sentence_is_framed_and_checksummed() {
    let d = HdgData { heading: num("98.3"), deviation: num("0.0"), variation: num("-12.6") };
    let mut out = String::from("prefix:");
    generate_sentence("HC", &d, &mut out).unwrap();
    assert_eq!(out, "prefix:$HCHDG,98.3,0.0,E,12.6,W*57");
}

#[test]
fn generated_sentence_reads_back_as_the_value_written() {
    let d = HdgData { heading: num("181.9"), deviation: None, variation: num("0.6") };
    let mut out = String::new();
    generate_sentence("SD", &d, &mut out).unwrap();
    assert_eq!(parse_str(&out), Ok(ParseResult::HDG(d)));
}

#[test]
fn generating_too_long_a_sentence_writes_nothing() {
    let long = format!("1{}", "0".repeat(120));
    let d = HdgData { heading: num(&long), deviation: None, variation: None };
    let mut out = String::from("kept");
    assert_eq!(generate_sentence("HC", &d, &mut out), Err(()));
    assert_eq!(out, "kept");
}

#[test]
fn a_generated_sentence_may_take_the_whole_limit_and_no_more() {
    let fits = HdmData { heading: num(&format!("1{}", "0".repeat(89))) };
    let mut out = String::new();
    assert_eq!(generate_sentence("HC", &fits, &mut out), Ok(()));
    assert_eq!(out.len(), SENTENCE_MAX_LEN);
    assert!(parse_nmea_sentence(&out).is_ok());
    let over = HdmData { heading: num(&format!("1{}", "0".repeat(90))) };
    let mut out = String::new();
    assert_eq!(generate_sentence("HC", &over, &mut out), Err(()));
    assert!(out.is_empty());
}

#[test]
fn vdo_is_written_for_own_vessel() {
    let d = VdmData {
        fragment_count: 1,
        fragment_number: 1,
        message_id: None,
        channel: Some('B'),
        payload: ArrayString::from("13aGra0P00PHid>NK9<2FOvHR624").unwrap(),
        fill_bits: 0,
        own_vessel: true,
    };
    let mut out = String::new();
    generate_sentence("AI", &d, &mut out).unwrap();
    assert!(out.starts_with("$AIVDO,1,1,,B,"));
    assert_eq!(parse_str(&out), Ok(ParseResult::VDO(d)));
}

#[test]
fn a_rot_without_validity_reads_back_as_invalid() {
    let d = RotData { rate: num("-0.3"), valid: None };
    let mut out = String::new();
    generate_sentence("TI", &d, &mut out).unwrap();
    assert_eq!(out, checksummed('$', "TIROT,-0.3,V"));
    assert_eq!(parse_str(&out), Ok(ParseResult::ROT(RotData { rate: num("-0.3"), valid: Some(false) })));
}

#[test]
fn an_invalid_starboard_rudder_is_written_but_not_read() {
    let d = RsaData { starboard: num("10.5"), starboard_valid: false, port: None, port_valid: false };
    let mut out = String::new();
    generate_sentence("II", &d, &mut out).unwrap();
    assert_eq!(out, checksummed('$', "IIRSA,10.5,V,,V"));
    assert_eq!(parse_str(&out), Err(Error::ParsingError));
}

#[test]
fn a_whole_number_pdop_reads_as_one_more_satellite() {
    let d = GsaData {
        mode1: GsaMode1::Automatic,
        mode2: GsaMode2::Fix3D,
        fix_sats_prn: heapless::Vec::from_slice(&[19, 28]).unwrap(),
        pdop: num("2"),
        hdop: num("1.0"),
        vdop: num("1.3"),
        system_id: None,
    };
    let mut out = String::new();
    generate_sentence("GP", &d, &mut out).unwrap();
    assert_eq!(out, checksummed('$', "GPGSA,A,3,19,28,,,,,,,,,,,2,1.0,1.3"));
    assert_eq!(parse_str(&out), Err(Error::ParsingError));
}

#[test]
fn error_parsing_without_frame() {
    assert_eq!(parse_str("$GPHDM,238.9,M"), Err(Error::ParsingError));
}

#[test]
fn error_sentence_length() {
    let s = checksummed('$', &format!("IIHDM,{},M", "1".repeat(100)));
    assert_eq!(parse_str(&s), Err(Error::SentenceLength(s.len())));
    assert!(s.len() > SENTENCE_MAX_LEN);
}

#[test]
fn error_checksum_mismatch() {
    assert_eq!(
        parse_str("$HCHDM,238.9,M*28"),
        Err(Error::ChecksumMismatch { calculated: 0x29, found: 0x28 })
    );
}

#[test]
fn error_wrong_sentence_header() {
    let s = parse_nmea_sentence("$HCHDG,98.3,0.0,E,12.6,W*57").unwrap();
    assert_eq!(
        parse_hdm(s),
        Err(Error::WrongSentenceHeader { expected: SentenceType::HDM, found: SentenceType::HDG })
    );
}

#[test]
fn error_ascii() {
    assert_eq!(parse_str("$HCHDM,238.9°,M*29"), Err(Error::ASCII));
}

#[test]
fn error_utf8_decoding() {
    assert_eq!(parse_bytes(&[b'$', 0xff, 0xfe, b'*', b'0', b'0']), Err(Error::Utf8Decoding));
    assert_eq!(
        parse_bytes(b"$HCHDM,238.9,M*29"),
        parse_str("$HCHDM,238.9,M*29")
    );
}

#[test]
fn error_unknown_without_water_depth() {
    let s = parse_nmea_sentence("$SDDBS,,f,,M,,F*2F").unwrap();
    assert_eq!(parse_dbs(s), Err(Error::Unknown(UnknownReason::NoWaterDepth)));
}

#[test]
fn error_parameter_length_of_a_waypoint() {
    let long = "W".repeat(65);
    let data = format!("145832.12,042359.17,{}", long);
    let s = NmeaSentence { talker_id: "GP", message_id: SentenceType::ZTG, data: &data, checksum: 0 };
    assert_eq!(
        nmea::sentences::parse_ztg(s),
        Err(Error::ParameterLength { max_length: 64, parameter_length: 65 })
    );
}

#[test]
fn a_waypoint_id_of_more_than_64_bytes_is_refused() {
    let data = format!("A,0.66,L,003,{},4917.24,N,12309.57,W,001.3,052.5,000.5,V", "W".repeat(65));
    let s = NmeaSentence { talker_id: "GP", message_id: SentenceType::RMB, data: &data, checksum: 0 };
    assert_eq!(parse_rmb(s), Err(Error::ParsingError));
    let data = format!("A,0.66,L,003,{},4917.24,N,12309.57,W,001.3,052.5,000.5,V", "W".repeat(64));
    let s = NmeaSentence { talker_id: "GP", message_id: SentenceType::RMB, data: &data, checksum: 0 };
    assert_eq!(parse_rmb(s).unwrap().dest_waypoint_id.unwrap().len(), 64);
}

#[test]
fn a_target_name_of_more_than_32_bytes_is_refused() {
    let s = checksummed('$', &format!("RATTM,01,0.2,190.8,T,12.1,109.7,T,0.1,0.5,N,{},T,,100021.00,A", "N".repeat(33)));
    let s = parse_nmea_sentence(&s).unwrap();
    assert_eq!(parse_ttm(s), Err(Error::ParsingError));
    let s = checksummed('$', &format!("RATTM,01,0.2,190.8,T,12.1,109.7,T,0.1,0.5,N,{},T,,100021.00,A", "N".repeat(32)));
    let s = parse_nmea_sentence(&s).unwrap();
    assert_eq!(parse_ttm(s).unwrap().target_name.unwrap().len(), 32);
}

#[test]
fn at_most_six_modes_are_kept() {
    let s = checksummed('$', "GPGNS,224749.00,3333.4268304,N,11153.3538273,W,DAANNPA,19,0.6,406.110,-26.294,6.0,0138,S,");
    let d = parse_gns(parse_nmea_sentence(&s).unwrap()).unwrap();
    assert_eq!(d.faa_modes.len(), 6);
    assert_eq!(d.faa_modes.primary(), FaaMode::Differential);
    assert_eq!(d.faa_modes.get(5), Some(&FaaMode::Precise));
    assert_eq!(d.faa_modes.get(6), None);
}

#[test]
fn modes_hold_one_to_six_entries() {
    assert!(FaaModes::from_modes(&[]).is_none());
    assert!(FaaModes::from_modes(&[FaaMode::Autonomous; 7]).is_none());
    let m = FaaModes::from_modes(&[FaaMode::Manual, FaaMode::Simulator]).unwrap();
    assert_eq!(m.as_slice(), &[FaaMode::Manual, FaaMode::Simulator]);
    assert!(!m.is_empty());
    let mut out = String::new();
    m.write_nmea(&mut out);
    assert_eq!(out, "MS");
}

#[test]
fn a_seatalk_payload_keeps_eighteen_bytes() {
    let s = checksummed('$', "STALK,52,01,02,03,04,05,06,07,08,09,0A,0B,0C,0D,0E,0F,10,11,12,13");
    let d = parse_stalk(parse_nmea_sentence(&s).unwrap()).unwrap();
    assert_eq!(d.command, 0x52);
    assert_eq!(d.payload.len(), 18);
    assert_eq!(d.payload[17], 0x12);
    let mut out = String::new();
    generate_sentence("ST", &d, &mut out).unwrap();
    assert_eq!(parse_str(&out), Ok(ParseResult::STALK(d)));
}

#[test]
fn a_seatalk_value_reads_back() {
    let d = StalkData { command: 0x9C, payload: heapless::Vec::from_slice(&[0xC1, 0x2A, 0x00]).unwrap() };
    let mut out = String::new();
    generate_sentence("ST", &d, &mut out).unwrap();
    assert_eq!(out, checksummed('$', "STALK,9C,C1,2A,00"));
    assert_eq!(parse_str(&out), Ok(ParseResult::STALK(d)));
}

#[test]
fn xdr_keeps_eight_measurements() {
    let s = checksummed('$', "WIXDR,C,1,C,A,C,2,C,B,C,3,C,C,C,4,C,D,C,5,C,E,C,6,C,F,C,7,C,G,C,8,C,H,C,9,C,I");
    let d = parse_xdr(parse_nmea_sentence(&s).unwrap()).unwrap();
    assert_eq!(d.measurements.len(), 8);
    assert_eq!(d.measurements[7].name.as_str(), "H");
}

#[test]
fn xdr_measurements_read_back() {
    let mut measurements = heapless::Vec::new();
    for (t, v, u, n) in [('C', "24.3", 'C', "ENV_TEMP"), ('P', "1.0135", 'B', "BARO")] {
        let name = ArrayString::from(n).unwrap();
        let m = XdrMeasurement { transducer_type: Some(t), value: num(v), units: Some(u), name };
        assert!(measurements.push(m).is_ok());
    }
    let d = XdrData { measurements };
    let mut out = String::new();
    generate_sentence("WI", &d, &mut out).unwrap();
    assert_eq!(out, checksummed('$', "WIXDR,C,24.3,C,ENV_TEMP,P,1.0135,B,BARO"));
    assert_eq!(parse_str(&out), Ok(ParseResult::XDR(d)));
}

#[test]
fn an_unsupported_type_is_named() {
    assert_eq!(
        parse_str("$GPHDT,274.07,T*03"),
        Ok(ParseResult::Unsupported(SentenceType::HDT))
    );
    let bec = checksummed('$', "GPBEC,some,data");
    assert_eq!(parse_str(&bec), Ok(ParseResult::Unsupported(SentenceType::BEC)));
}

#[test]
fn sender_mmsi_where_it_can_be_asked() {
    let s = parse_nmea_sentence("$CDDSC,12,3380400790,12,06,00,1423108312,2019,,,S,E*6A").unwrap();
    let mut d = nmea::sentences::parse_dsc(s).unwrap();
    assert_eq!(d.try_sender_mmsi(), Some(Some(338040079)));
    d.mmsi = ArrayString::from("12345").unwrap();
    assert_eq!(d.try_sender_mmsi(), Some(None));
    d.mmsi = ArrayString::from("12345678é").unwrap();
    assert_eq!(d.try_sender_mmsi(), None);
    d.mmsi = ArrayString::from("123456789").unwrap();
    assert_eq!(d.try_sender_mmsi(), Some(Some(123456789)));
}

#[test]
fn a_gsa_keeps_eighteen_satellites() {
    let prns: Vec<String> = (1..=20).map(|i| i.to_string()).collect();
    let s = checksummed('$', &format!("GPGSA,A,3,{},1.5,1.0,1.2", prns.join(",")));
    let d = nmea::sentences::parse_gsa(parse_nmea_sentence(&s).unwrap()).unwrap();
    assert_eq!(d.fix_sats_prn.len(), 18);
    assert_eq!(d.fix_sats_prn[17], 18);
    assert_eq!(d.pdop, num("1.5"));
    assert_eq!(d.vdop, num("1.2"));
}

#[test]
fn an_xdr_name_is_cut_to_sixteen_bytes() {
    let s = checksummed('$', "WIXDR,C,24.3,C,ABCDEFGHIJKLMNOPQRS");
    let d = parse_xdr(parse_nmea_sentence(&s).unwrap()).unwrap();
    assert_eq!(d.measurements[0].name.as_str(), "ABCDEFGHIJKLMNOP");
}

#[test]
fn dsc_text_fields_are_cut_before_a_character_that_would_overflow() {
    let s = NmeaSentence { talker_id: "CD", message_id: SentenceType::DSC, data: "12,123456789\u{e9}", checksum: 0 };
    assert_eq!(nmea::sentences::parse_dsc(s), Err(Error::ParsingError));
    let data = "12,123456789\u{e9},,,,\u{e9}\u{e9}\u{e9}\u{e9}\u{e9}\u{e9},1\u{e9}\u{e9},,,";
    let s = NmeaSentence { talker_id: "CD", message_id: SentenceType::DSC, data, checksum: 0 };
    let d = nmea::sentences::parse_dsc(s).unwrap();
    assert_eq!(d.mmsi.as_str(), "123456789");
    assert_eq!(d.position_or_data.as_str(), "\u{e9}\u{e9}\u{e9}\u{e9}\u{e9}");
    assert_eq!(d.time_utc.as_str(), "1\u{e9}");
    assert_eq!(d.mmsi_2.as_str(), "");
}

#[test]
fn an_xdr_name_is_cut_before_a_character_that_would_overflow() {
    let s = NmeaSentence { talker_id: "WI", message_id: SentenceType::XDR, data: "C,1,C,ABCDEFGHIJKLMNO\u{e9}", checksum: 0 };
    let d = parse_xdr(s).unwrap();
    assert_eq!(d.measurements.len(), 1);
    assert_eq!(d.measurements[0].name.as_str(), "ABCDEFGHIJKLMNO");
    assert_eq!(d.measurements[0].units, Some('C'));
}

#[test]
fn a_parse_result_names_the_sentence_type_it_was_read_from() {
    let r = parse_str("$HCHDM,172.5,M*28").unwrap();
    assert_eq!(SentenceType::from(&r), SentenceType::HDM);
    assert_eq!(SentenceType::from(&ParseResult::Unsupported(SentenceType::GGA)), SentenceType::GGA);
}

#[test]
fn a_dsc_position_field_splits_into_quadrant_and_parts() {
    let s = parse_nmea_sentence("$CDDSC,12,3380400790,12,06,00,1423108312,2019,,,S,E*6A").unwrap();
    let mut d = nmea::sentences::parse_dsc(s).unwrap();
    assert_eq!(
        d.position_fields(),
        Some((1, "42".to_string(), "31".to_string(), "083".to_string(), "12".to_string()))
    );
    d.position_or_data = ArrayString::from("2451201234").unwrap();
    assert_eq!(
        d.position_fields(),
        Some((2, "45".to_string(), "12".to_string(), "012".to_string(), "34".to_string()))
    );
    d.position_or_data = ArrayString::from("4451201234").unwrap();
    assert_eq!(d.position_fields(), None);
    d.position_or_data = ArrayString::from("245120123").unwrap();
    assert_eq!(d.position_fields(), None);
    d.position_or_data = ArrayString::from("2\u{e9}4512012").unwrap();
    assert_eq!(d.position_fields(), None);
}

#[test]
fn a_time_of_day_writes_the_fraction_it_needs() {
    let text = |s: u32, n: u32| nmea::position::time_of_day(12, 35, s, n).second.magnitude;
    assert_eq!(text(19, 0), "19");
    assert_eq!(text(5, 5_000_000), "05.005");
    assert_eq!(text(19, 123_000_000), "19.123");
    assert_eq!(text(19, 123_456_000), "19.123456");
    assert_eq!(text(19, 123_456_789), "19.123456789");
    assert_eq!(text(59, 1_500_000_000), "59.1500");
    let t = nmea::position::time_of_day(9, 4, 7, 250_000_000);
    assert_eq!((t.hour, t.minute, t.second.negative), (9, 4, false));
}

#[test]
fn a_date_is_written_as_day_month_and_year_in_its_century() {
    let date = |d: u32, m: u32, y: i32| {
        let mut s = String::from(">");
        nmea::position::write_date(&mut s, d, m, y);
        s
    };
    assert_eq!(date(5, 3, 2024), ">050324");
    assert_eq!(date(31, 12, 1999), ">311299");
    assert_eq!(date(1, 1, 2000), ">010100");
    assert_eq!(date(1, 1, -5), format!(">0101{:02}", -5 % 100));
    assert_eq!(date(1, 1, -123), ">0101-23");
    assert_eq!(date(1, 1, -2000), ">010100");
}

/// A duration written the way `ZtgData`'s writer has always written a
/// `chrono::Duration`, from its milliseconds.
fn duration_text_from_millis(total_millis: i64) -> String {
    let hours = total_millis / 3_600_000;
    let minutes = (total_millis % 3_600_000) / 60_000;
    let seconds = (total_millis % 60_000) / 1_000;
    let centiseconds = (total_millis % 1_000) / 10;
    let mut s = format!("{:02}{:02}{:02}", hours, minutes, seconds);
    if centiseconds > 0 {
        s.push_str(&format!(".{:02}", centiseconds));
    }
    s
}

#[test]
fn a_time_remaining_is_written_to_the_hundredth() {
    let t = nmea::position::duration_of_millis(4 * 3_600_000 + 23 * 60_000 + 59_170);
    assert_eq!((t.hours, t.minutes), (4, 23));
    assert_eq!(t.second.magnitude, "59.17");
    for total in [
        0,
        5_009,
        59_170,
        4 * 3_600_000 + 23 * 60_000 + 59_170,
        30 * 3_600_000 + 5_009,
        256 * 3_600_000,
        1_000 * 3_600_000 + 61_999,
        -1,
        -1_500,
        -61_500,
        -3_661_500,
        i64::MAX,
        i64::MIN,
    ] {
        let mut out = String::new();
        nmea::position::write_duration(&mut out, &Some(nmea::position::duration_of_millis(total)));
        assert_eq!(out, duration_text_from_millis(total), "{}", total);
    }
    let mut out = String::new();
    nmea::position::write_duration(&mut out, &None);
    assert_eq!(out, "");
}
