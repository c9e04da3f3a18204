//! Round trips of written values through the parsers, on the regression
//! cases of the properties; the properties themselves are proved of the
//! library for every value.

use nmea::position::{write_hms, write_lat, write_lon};
use nmea::sentences::{parse_gll, HdgData, RotData, XteData};
use nmea::{generate_sentence, parse_nmea_sentence, parse_str, Hms, LatLon, Number, ParseResult};

fn number(v: f64) -> Option<Number> {
    Some(Number { negative: v.is_sign_negative(), magnitude: format!("{}", v.abs()) })
}

fn value(n: &Option<Number>) -> f64 {
    let n = n.as_ref().expect("a number");
    let v: f64 = n.magnitude.parse().unwrap();
    if n.negative { -v } else { v }
}

fn checksummed(body: &str) -> String {
    let cs = body.as_bytes().iter().fold(0u8, |c, x| c ^ x);
    format!("${}*{:02X}", body, cs)
}

/// A position in degrees as whole degrees and minutes with seven decimals.
fn lat_lon(lat: f64, lon: f64) -> LatLon {
    let (la, lo) = (lat.abs(), lon.abs());
    LatLon {
        lat_degrees: la.trunc() as u8,
        lat_minutes: Number { negative: false, magnitude: format!("{:010.7}", (la - la.trunc()) * 60.0) },
        south: lat < 0.0,
        lon_degrees: lo.trunc() as u8,
        lon_minutes: Number { negative: false, magnitude: format!("{:010.7}", (lo - lo.trunc()) * 60.0) },
        west: lon < 0.0,
    }
}

fn degrees(p: &LatLon) -> (f64, f64) {
    let lat = p.lat_degrees as f64 + value(&Some(p.lat_minutes.clone())) / 60.0;
    let lon = p.lon_degrees as f64 + value(&Some(p.lon_minutes.clone())) / 60.0;
    (if p.south { -lat } else { lat }, if p.west { -lon } else { lon })
}

fn check_lat_lon_roundtrip(lat: f64, lon: f64) -> bool {
    let pos = Some(lat_lon(lat % 90.0, lon % 180.0));
    let mut body = String::from("GPGLL,");
    write_lat(&mut body, &pos);
    body.push(',');
    write_lon(&mut body, &pos);
    body.push_str(",,V,");
    let s = checksummed(&body);
    let parsed = parse_gll(parse_nmea_sentence(&s).unwrap()).unwrap().position.unwrap();
    let (plat, plon) = degrees(&parsed);
    (plat - lat % 90.0).abs() < 1e-6 && (plon - lon % 180.0).abs() < 1e-6
}

#[test]
fn prop_lat_lon_roundtrip() {
    assert!(check_lat_lon_roundtrip(0.0, 57.89528));
    assert!(check_lat_lon_roundtrip(0.0, -43.33031));
    assert!(check_lat_lon_roundtrip(89.999, 179.999));
    assert!(check_lat_lon_roundtrip(-89.999, -179.999));
    assert!(check_lat_lon_roundtrip(0.0, 0.0));
}

fn check_hms_roundtrip(h: u8, m: u8, s: u8, ms: u16) -> bool {
    let time = Hms {
        hour: h,
        minute: m,
        second: Number { negative: false, magnitude: format!("{:02}.{:03}", s, ms) },
    };
    let mut body = String::from("GPGLL,,,,,");
    write_hms(&mut body, &Some(time.clone()));
    body.push_str(",V,");
    let parsed = parse_gll(parse_nmea_sentence(&checksummed(&body)).unwrap()).unwrap();
    parsed.fix_time == Some(time)
}

#[test]
fn prop_hms_roundtrip() {
    assert!(check_hms_roundtrip(0, 0, 0, 0));
    assert!(check_hms_roundtrip(23, 59, 59, 999));
    assert!(check_hms_roundtrip(12, 30, 0, 500));
}

fn check_xte_roundtrip(error: f32) -> bool {
    let data = XteData { cross_track_error: number(error as f64), status_general: true, status_cycle_lock: true };
    let mut buf = String::new();
    generate_sentence("GP", &data, &mut buf).unwrap();
    match parse_str(&buf) {
        Ok(ParseResult::XTE(p)) => (value(&p.cross_track_error) - error as f64).abs() < 0.01,
        _ => false,
    }
}

#[test]
fn prop_xte_roundtrip() {
    assert!(check_xte_roundtrip(0.5));
    assert!(check_xte_roundtrip(-0.67));
    assert!(check_xte_roundtrip(12.34));
}

fn check_hdg_roundtrip(heading: f32, deviation: f32, variation: f32) -> bool {
    let data = HdgData {
        heading: number(heading as f64),
        deviation: number(deviation as f64),
        variation: number(variation as f64),
    };
    let mut buf = String::new();
    generate_sentence("HC", &data, &mut buf).unwrap();
    match parse_str(&buf) {
        Ok(ParseResult::HDG(p)) => {
            (value(&p.heading) - heading as f64).abs() < 0.01
                && (value(&p.deviation) - deviation as f64).abs() < 0.01
                && (value(&p.variation) - variation as f64).abs() < 0.01
        }
        _ => false,
    }
}

#[test]
fn prop_hdg_roundtrip() {
    assert!(check_hdg_roundtrip(180.0, 5.0, -10.0));
    assert!(check_hdg_roundtrip(0.1, -5.0, 10.0));
}

fn check_rot_roundtrip(rate: f32) -> bool {
    let data = RotData { rate: number(rate as f64), valid: Some(true) };
    let mut buf = String::new();
    generate_sentence("TI", &data, &mut buf).unwrap();
    match parse_str(&buf) {
        Ok(ParseResult::ROT(p)) => (value(&p.rate) - rate as f64).abs() < 0.01,
        _ => false,
    }
}

#[test]
fn prop_rot_roundtrip() {
    assert!(check_rot_roundtrip(0.0));
    assert!(check_rot_roundtrip(-35.6));
    assert!(check_rot_roundtrip(720.0));
}
