//! Times of day and positions as sentences write them: `hhmmss.ss` and
//! `ddmm.mm,N,dddmm.mm,E`.
//!
//! Both are kept as the parts the text holds, numbers as their literals, so
//! that the reader of a sentence turns them into the time and floating-point
//! types of its choice.

use vstd::prelude::*;
use vstd::string::*;

use crate::strings::{decimal, number_text, push_char, push_decimal, push_number, push_str};
use crate::text::{
    NumV, Number, Scan, float_prefix, float_scan, literal_value, num_is, one_of_field,
    exec_one_of_field, read_opt_float_field, read_opt_float_prefix, read_unsigned,
    unsigned_field, win,
};

verus! {

// ---------------------------------------------------------------------------
// Unsigned numbers as the standard library reads them
// ---------------------------------------------------------------------------

/// An unsigned number written the way the standard library's `parse`
/// accepts it: an optional `+`, then one or more decimal digits; its value
/// must be at most `max`.
pub open spec fn uint_text(f: Seq<char>, max: nat) -> Option<nat> {
    let d = if f.len() > 0 && f[0] == '+' { f.subrange(1, f.len() as int) } else { f };
    unsigned_field(d, max)
}

/// Reads the window `s[a..b]` as an unsigned number; see [`uint_text`].
pub fn read_uint_text(s: &Vec<char>, a: usize, b: usize, max: u64) -> (r: Option<u64>)
    requires
        a <= b <= s.len(),
    ensures
        match r {
            Some(v) => uint_text(win(s@, a as int, b as int), max as nat) == Some(v as nat),
            None => uint_text(win(s@, a as int, b as int), max as nat) is None,
        },
{
    let ghost f = win(s@, a as int, b as int);
    if a < b && s[a] == '+' {
        assert(win(s@, a + 1, b as int) =~= f.subrange(1, f.len() as int));
        read_unsigned(s, a + 1, b, max)
    } else {
        read_unsigned(s, a, b, max)
    }
}

/// An optional unsigned field read with [`uint_text`]: empty gives
/// `Some(None)`, a number its value, anything else `None`.
pub open spec fn opt_uint_field(f: Seq<char>, max: nat) -> Option<Option<nat>> {
    if f.len() == 0 {
        Some(None)
    } else {
        match uint_text(f, max) {
            Some(v) => Some(Some(v)),
            None => None,
        }
    }
}

/// Reads the window `s[a..b]` as an optional unsigned field; see [`opt_uint_field`].
pub fn read_opt_uint_text(s: &Vec<char>, a: usize, b: usize, max: u64) -> (r: Option<Option<u64>>)
    requires
        a <= b <= s.len(),
    ensures
        match r {
            Some(Some(v)) => opt_uint_field(win(s@, a as int, b as int), max as nat) == Some(Some(v as nat)),
            Some(None) => opt_uint_field(win(s@, a as int, b as int), max as nat) == Some(None::<nat>),
            None => opt_uint_field(win(s@, a as int, b as int), max as nat) is None,
        },
{
    if a == b {
        Some(None)
    } else {
        match read_uint_text(s, a, b, max) {
            Some(v) => Some(Some(v)),
            None => None,
        }
    }
}

/// The decimal digits of `n`, padded with zeros on the left to at least
/// `w` characters.
pub open spec fn padded(n: nat, w: nat) -> Seq<char> {
    let d = decimal(n);
    if d.len() < w {
        Seq::new((w - d.len()) as nat, |i: int| '0') + d
    } else {
        d
    }
}

/// Appends `n` in decimal, padded with zeros to at least `w` characters.
pub fn push_padded(s: &mut String, n: u64, w: usize)
    ensures
        final(s)@ == old(s)@ + padded(n as nat, w as nat),
{
    let mut t = String::new();
    push_decimal(&mut t, n);
    assert(t@ =~= decimal(n as nat));
    let len = t.unicode_len();
    let mut i: usize = 0;
    if len < w {
        while i < w - len
            invariant
                len < w,
                i <= w - len,
                s@ == old(s)@ + Seq::new(i as nat, |j: int| '0'),
            decreases w - len - i,
        {
            push_char(s, '0');
            assert(s@ =~= old(s)@ + Seq::new((i + 1) as nat, |j: int| '0'));
            i += 1;
        }
    }
    push_str(s, t.as_str());
    assert(s@ =~= old(s)@ + padded(n as nat, w as nat));
}

// ---------------------------------------------------------------------------
// Times of day
// ---------------------------------------------------------------------------

/// A time of day as a sentence writes it: hours, minutes and the literal of
/// the seconds, which may carry a fraction.
#[derive(Debug, Clone, PartialEq)]
pub struct Hms {
    pub hour: u8,
    pub minute: u8,
    pub second: Number,
}

/// The content of an [`Hms`].
pub struct HmsV {
    pub hour: nat,
    pub minute: nat,
    pub second: NumV,
}

pub open spec fn hms_is(t: Hms, v: HmsV) -> bool {
    t.hour == v.hour && t.minute == v.minute && num_is(t.second, v.second)
}

pub open spec fn opt_hms_is(o: Option<Hms>, v: Option<HmsV>) -> bool {
    match (o, v) {
        (Some(t), Some(w)) => hms_is(t, w),
        (None, None) => true,
        _ => false,
    }
}

/// The largest `u32`.
pub open spec fn u32_max() -> nat {
    4294967295
}

/// A time field `hhmmss.ss`: its first two characters are the hours and the
/// next two the minutes, each read as an unsigned number; a number literal
/// starts the rest, the seconds, and what follows it is ignored. The hours
/// must be below 24, the minutes below 60, and the seconds not negative.
pub open spec fn hms_text(f: Seq<char>) -> Option<HmsV> {
    if f.len() < 4 {
        None
    } else {
        let h = uint_text(f.subrange(0, 2), u32_max());
        let m = uint_text(f.subrange(2, 4), u32_max());
        let sec = float_prefix(f.subrange(4, f.len() as int));
        if h is Some && m is Some && sec is Some && h.unwrap() < 24 && m.unwrap() < 60
            && !sec.unwrap().0.negative {
            Some(HmsV { hour: h.unwrap(), minute: m.unwrap(), second: sec.unwrap().0 })
        } else {
            None
        }
    }
}

/// An optional time field: empty gives `Some(None)`, a time its value,
/// anything else `None`.
pub open spec fn opt_hms_field(f: Seq<char>) -> Option<Option<HmsV>> {
    if f.len() == 0 {
        Some(None)
    } else {
        match hms_text(f) {
            Some(v) => Some(Some(v)),
            None => None,
        }
    }
}

/// The optional time in a field already known to be readable.
pub open spec fn fhms(f: Seq<char>) -> Option<HmsV> {
    opt_hms_field(f).unwrap()
}

pub open spec fn read_hms_is(r: Option<Option<Hms>>, v: Option<Option<HmsV>>) -> bool {
    match (r, v) {
        (Some(o), Some(w)) => opt_hms_is(o, w),
        (None, None) => true,
        _ => false,
    }
}

/// Reads the window `s[a..b]` as an optional time; see [`opt_hms_field`].
pub fn read_opt_hms(data: &str, s: &Vec<char>, a: usize, b: usize) -> (r: Option<Option<Hms>>)
    requires
        s@ == data@,
        a <= b <= s.len(),
    ensures
        read_hms_is(r, opt_hms_field(win(s@, a as int, b as int))),
{
    let ghost f = win(s@, a as int, b as int);
    if a == b {
        return Some(None);
    }
    if b - a < 4 {
        return None;
    }
    assert(win(s@, a as int, a + 2) =~= f.subrange(0, 2));
    assert(win(s@, a + 2, a + 4) =~= f.subrange(2, 4));
    assert(win(s@, a + 4, b as int) =~= f.subrange(4, f.len() as int));
    let h = read_uint_text(s, a, a + 2, 4294967295);
    let m = read_uint_text(s, a + 2, a + 4, 4294967295);
    let sec = read_opt_float_prefix(data, s, a + 4, b);
    match (h, m, sec) {
        (Some(h), Some(m), Some(Some(sec))) => {
            if h < 24 && m < 60 && !sec.negative {
                Some(Some(Hms { hour: h as u8, minute: m as u8, second: sec }))
            } else {
                None
            }
        },
        _ => None,
    }
}

/// The text of a time: hours and minutes in two digits each, then the
/// seconds literal.
pub open spec fn hms_chars(t: Hms) -> Seq<char> {
    padded(t.hour as nat, 2) + padded(t.minute as nat, 2) + number_text(t.second)
}

/// The text of an optional time: nothing when absent.
pub open spec fn opt_hms_chars(o: Option<Hms>) -> Seq<char> {
    match o {
        Some(t) => hms_chars(t),
        None => Seq::empty(),
    }
}

/// Writes an optional time as `hhmmss.ss`, or nothing when absent.
pub fn write_hms(f: &mut String, time: &Option<Hms>)
    ensures
        final(f)@ == old(f)@ + opt_hms_chars(*time),
{
    match time {
        Some(t) => {
            push_padded(f, t.hour as u64, 2);
            push_padded(f, t.minute as u64, 2);
            push_number(f, &t.second);
            assert(f@ =~= old(f)@ + hms_chars(*t));
        },
        None => {
            assert(old(f)@ + Seq::<char>::empty() =~= old(f)@);
        },
    }
}

/// The fraction of a second as a time is written: nothing for a whole
/// second, else a point and the milliseconds, microseconds or nanoseconds,
/// whichever is the coarsest that holds the fraction exactly.
pub open spec fn fraction_chars(nanos: nat) -> Seq<char> {
    if nanos == 0 {
        Seq::empty()
    } else if nanos % 1_000_000 == 0 {
        seq!['.'] + padded(nanos / 1_000_000, 3)
    } else if nanos % 1_000 == 0 {
        seq!['.'] + padded(nanos / 1_000, 6)
    } else {
        seq!['.'] + padded(nanos, 9)
    }
}

/// The seconds of a time of day as written: two digits, then the fraction.
pub open spec fn seconds_chars(second: nat, nanos: nat) -> Seq<char> {
    padded(second, 2) + fraction_chars(nanos)
}

/// Appends the fraction of a second of `nanos` nanoseconds; see
/// [`fraction_chars`].
pub fn push_fraction(f: &mut String, nanos: u32)
    ensures
        final(f)@ == old(f)@ + fraction_chars(nanos as nat),
{
    if nanos == 0 {
        assert(old(f)@ + Seq::<char>::empty() =~= old(f)@);
    } else if nanos % 1_000_000 == 0 {
        push_char(f, '.');
        push_padded(f, (nanos / 1_000_000) as u64, 3);
        assert(f@ =~= old(f)@ + fraction_chars(nanos as nat));
    } else if nanos % 1_000 == 0 {
        push_char(f, '.');
        push_padded(f, (nanos / 1_000) as u64, 6);
        assert(f@ =~= old(f)@ + fraction_chars(nanos as nat));
    } else {
        push_char(f, '.');
        push_padded(f, nanos as u64, 9);
        assert(f@ =~= old(f)@ + fraction_chars(nanos as nat));
    }
}

/// A time of day from its parts, as a sentence writes it: the seconds
/// literal is two digits of `second` and the fraction of `nanos`
/// nanoseconds.
pub fn time_of_day(hour: u8, minute: u8, second: u32, nanos: u32) -> (t: Hms)
    ensures
        t.hour == hour,
        t.minute == minute,
        !t.second.negative,
        t.second.magnitude@ == seconds_chars(second as nat, nanos as nat),
        hms_chars(t) == padded(hour as nat, 2) + padded(minute as nat, 2) + seconds_chars(
            second as nat,
            nanos as nat,
        ),
{
    let mut text = String::new();
    push_padded(&mut text, second as u64, 2);
    push_fraction(&mut text, nanos);
    assert(text@ =~= seconds_chars(second as nat, nanos as nat));
    let t = Hms { hour, minute, second: Number { negative: false, magnitude: text } };
    assert(hms_chars(t) =~= padded(hour as nat, 2) + padded(minute as nat, 2) + seconds_chars(
        second as nat,
        nanos as nat,
    ));
    t
}

/// A time remaining as a sentence writes it: whole hours, minutes and the
/// literal of the seconds. Any duration can be held: the hours are not
/// bounded, and the parts of a negative duration are negative or zero, as
/// Rust's `/` and `%` give them.
#[derive(Debug, Clone, PartialEq)]
pub struct HmsDuration {
    pub hours: i64,
    pub minutes: i64,
    pub second: Number,
}

/// The text of a time remaining: hours and minutes in at least two
/// characters each, a minus sign before a negative one, then the seconds
/// literal.
pub open spec fn duration_chars(t: HmsDuration) -> Seq<char> {
    signed_padded(t.hours as int, 2) + signed_padded(t.minutes as int, 2) + number_text(t.second)
}

/// The text of an optional time remaining: nothing when absent.
pub open spec fn opt_duration_chars(o: Option<HmsDuration>) -> Seq<char> {
    match o {
        Some(t) => duration_chars(t),
        None => Seq::empty(),
    }
}

/// Appends `v` in decimal, with a minus sign when negative, the digits
/// padded with zeros so that the whole takes at least `w` characters.
pub fn push_signed_padded(f: &mut String, v: i64, w: usize)
    requires
        w >= 1,
    ensures
        final(f)@ == old(f)@ + signed_padded(v as int, w as nat),
{
    if v < 0 {
        let m: u64 = (0i128 - (v as i128)) as u64;
        push_char(f, '-');
        push_padded(f, m, w - 1);
    } else {
        push_padded(f, v as u64, w);
    }
    assert(f@ =~= old(f)@ + signed_padded(v as int, w as nat));
}

/// Writes an optional time remaining, or nothing when absent.
pub fn write_duration(f: &mut String, d: &Option<HmsDuration>)
    ensures
        final(f)@ == old(f)@ + opt_duration_chars(*d),
{
    match d {
        Some(t) => {
            push_signed_padded(f, t.hours, 2);
            push_signed_padded(f, t.minutes, 2);
            push_number(f, &t.second);
            assert(f@ =~= old(f)@ + duration_chars(*t));
        },
        None => {
            assert(old(f)@ + Seq::<char>::empty() =~= old(f)@);
        },
    }
}

/// A time remaining holds the time `v` that its field was read as.
pub open spec fn opt_duration_is(o: Option<HmsDuration>, v: Option<HmsV>) -> bool {
    match (o, v) {
        (Some(t), Some(w)) => t.hours == w.hour && t.minutes == w.minute && num_is(t.second, w.second),
        (None, None) => true,
        _ => false,
    }
}

/// A time remaining read from a time field.
pub fn duration_of_hms(t: Option<Hms>) -> (r: Option<HmsDuration>)
    ensures
        forall|v: Option<HmsV>| opt_hms_is(t, v) ==> opt_duration_is(r, v),
{
    match t {
        Some(t) => Some(HmsDuration { hours: t.hour as i64, minutes: t.minute as i64, second: t.second }),
        None => None,
    }
}

/// The time of day with the same parts as a time remaining of less than a
/// day.
pub open spec fn duration_as_hms(o: Option<HmsDuration>) -> Option<Hms> {
    match o {
        Some(t) => Some(Hms { hour: t.hours as u8, minute: t.minutes as u8, second: t.second }),
        None => None,
    }
}

/// `x / d` as Rust computes it: rounded towards zero.
pub open spec fn trunc_div(x: int, d: int) -> int {
    if x >= 0 {
        x / d
    } else {
        -((-x) / d)
    }
}

/// `x % d` as Rust computes it: with the sign of `x`.
pub open spec fn trunc_rem(x: int, d: int) -> int {
    if x >= 0 {
        x % d
    } else {
        -((-x) % d)
    }
}

/// The text of a duration of `ms` milliseconds: hours, minutes within the
/// hour and seconds within the minute, each in at least two characters with
/// the sign of the duration, then a point and two digits of the hundredths
/// when there are more than none.
pub open spec fn millis_duration_chars(ms: int) -> Seq<char> {
    let h = trunc_div(ms, 3_600_000);
    let m = trunc_div(trunc_rem(ms, 3_600_000), 60_000);
    let sec = trunc_div(trunc_rem(ms, 60_000), 1000);
    let c = trunc_div(trunc_rem(ms, 1000), 10);
    signed_padded(h, 2) + signed_padded(m, 2) + signed_padded(sec, 2) + if c > 0 {
        seq!['.'] + padded(c as nat, 2)
    } else {
        Seq::empty()
    }
}

/// A duration of `total_millis` milliseconds as a time remaining: its
/// written text is [`millis_duration_chars`].
pub fn duration_of_millis(total_millis: i64) -> (t: HmsDuration)
    ensures
        t.hours == trunc_div(total_millis as int, 3_600_000),
        t.minutes == trunc_div(trunc_rem(total_millis as int, 3_600_000), 60_000),
        duration_chars(t) == millis_duration_chars(total_millis as int),
{
    let neg = total_millis < 0;
    let a: u64 = if neg { (0i128 - (total_millis as i128)) as u64 } else { total_millis as u64 };
    let h: u64 = a / 3_600_000;
    let m: u64 = (a % 3_600_000) / 60_000;
    let sec: u64 = (a % 60_000) / 1000;
    let c: u64 = (a % 1000) / 10;
    assert(h <= 0x7fff_ffff_ffff_ffff) by {
        assert(a <= 0x8000_0000_0000_0000);
    }
    let hours: i64 = if neg { 0 - (h as i64) } else { h as i64 };
    let minutes: i64 = if neg { 0 - (m as i64) } else { m as i64 };
    let mut text = String::new();
    let second = if neg && sec > 0 {
        push_padded(&mut text, sec, 1);
        Number { negative: true, magnitude: text }
    } else {
        push_padded(&mut text, sec, 2);
        if !neg && c > 0 {
            push_char(&mut text, '.');
            push_padded(&mut text, c, 2);
        }
        Number { negative: false, magnitude: text }
    };
    let t = HmsDuration { hours, minutes, second };
    proof {
        let ms = total_millis as int;
        assert(trunc_rem(ms, 3_600_000) == if neg { -((a % 3_600_000) as int) } else { (a % 3_600_000) as int });
        assert(trunc_rem(ms, 60_000) == if neg { -((a % 60_000) as int) } else { (a % 60_000) as int });
        assert(trunc_rem(ms, 1000) == if neg { -((a % 1000) as int) } else { (a % 1000) as int });
        assert(duration_chars(t) =~= millis_duration_chars(ms));
    }
    t
}

/// An integer written with at least `w` characters: a minus sign for a
/// negative value, then the magnitude padded with zeros.
pub open spec fn signed_padded(v: int, w: nat) -> Seq<char> {
    if v < 0 {
        seq!['-'] + padded((-v) as nat, if w > 0 { (w - 1) as nat } else { 0 })
    } else {
        padded(v as nat, w)
    }
}

/// A date as `ddmmyy`: two digits of the day, of the month and of the year
/// within its century.
pub open spec fn date_chars(day: nat, month: nat, year: int) -> Seq<char> {
    padded(day, 2) + padded(month, 2) + signed_padded(trunc_rem(year, 100), 2)
}

/// Appends a date as `ddmmyy`; see [`date_chars`].
pub fn write_date(f: &mut String, day: u32, month: u32, year: i32)
    ensures
        final(f)@ == old(f)@ + date_chars(day as nat, month as nat, year as int),
{
    push_padded(f, day as u64, 2);
    push_padded(f, month as u64, 2);
    if year >= 0 {
        let r: u32 = (year as u32) % 100;
        push_padded(f, r as u64, 2);
    } else {
        let m: u64 = (0i64 - (year as i64)) as u64;
        let r: u64 = m % 100;
        if r == 0 {
            push_padded(f, 0, 2);
        } else {
            push_char(f, '-');
            push_padded(f, r, 1);
        }
    }
    assert(f@ =~= old(f)@ + date_chars(day as nat, month as nat, year as int));
}

// ---------------------------------------------------------------------------
// Positions
// ---------------------------------------------------------------------------

/// A position as a sentence writes it: whole degrees, the literal of the
/// minutes, and the hemisphere of each coordinate. The latitude in degrees
/// is `lat_degrees + lat_minutes / 60`, negated when `south` holds; the
/// longitude likewise with `west`.
#[derive(Debug, Clone, PartialEq)]
pub struct LatLon {
    pub lat_degrees: u8,
    pub lat_minutes: Number,
    pub south: bool,
    pub lon_degrees: u8,
    pub lon_minutes: Number,
    pub west: bool,
}

/// The content of a [`LatLon`].
pub struct LatLonV {
    pub lat_degrees: nat,
    pub lat_minutes: NumV,
    pub south: bool,
    pub lon_degrees: nat,
    pub lon_minutes: NumV,
    pub west: bool,
}

pub open spec fn lat_lon_is(p: LatLon, v: LatLonV) -> bool {
    &&& p.lat_degrees == v.lat_degrees
    &&& num_is(p.lat_minutes, v.lat_minutes)
    &&& p.south == v.south
    &&& p.lon_degrees == v.lon_degrees
    &&& num_is(p.lon_minutes, v.lon_minutes)
    &&& p.west == v.west
}

pub open spec fn opt_lat_lon_is(o: Option<LatLon>, v: Option<LatLonV>) -> bool {
    match (o, v) {
        (Some(p), Some(w)) => lat_lon_is(p, w),
        (None, None) => true,
        _ => false,
    }
}

/// A coordinate field: its first `w` characters are the whole degrees, read
/// as an unsigned number of at most 255, and the rest, which is not empty,
/// is exactly one number literal, the minutes.
pub open spec fn coord_field(f: Seq<char>, w: int) -> Option<(nat, NumV)> {
    if f.len() <= w {
        None
    } else {
        let rest = f.subrange(w, f.len() as int);
        match (uint_text(f.subrange(0, w), 255), float_scan(rest)) {
            (Some(d), Scan::Token(e)) => if e as int == rest.len() {
                Some((d, literal_value(rest, e as int)))
            } else {
                None
            },
            _ => None,
        }
    }
}

/// The four fields of a position starting at field `k`: when the first
/// three are empty the position is absent and the fourth must be empty too;
/// otherwise a latitude field (two characters of degrees), `N` or `S`, a
/// longitude field (three characters of degrees), and `E` or `W`.
pub open spec fn lat_lon_fields(f: Seq<Seq<char>>, k: int) -> Option<Option<LatLonV>> {
    if f[k].len() == 0 && f[k + 1].len() == 0 && f[k + 2].len() == 0 {
        if f[k + 3].len() == 0 {
            Some(None)
        } else {
            None
        }
    } else {
        match (coord_field(f[k], 2), coord_field(f[k + 2], 3)) {
            (Some(la), Some(lo)) => if one_of_field(f[k + 1], seq!['N', 'S']) is Some && one_of_field(
                f[k + 3],
                seq!['E', 'W'],
            ) is Some {
                Some(
                    Some(
                        LatLonV {
                            lat_degrees: la.0,
                            lat_minutes: la.1,
                            south: f[k + 1][0] == 'S',
                            lon_degrees: lo.0,
                            lon_minutes: lo.1,
                            west: f[k + 3][0] == 'W',
                        },
                    ),
                )
            } else {
                None
            },
            _ => None,
        }
    }
}

/// The optional position in fields already known to be readable.
pub open spec fn flat_lon(f: Seq<Seq<char>>, k: int) -> Option<LatLonV> {
    lat_lon_fields(f, k).unwrap()
}

fn read_coord(data: &str, s: &Vec<char>, a: usize, b: usize, w: usize) -> (r: Option<(u8, Number)>)
    requires
        s@ == data@,
        a <= b <= s.len(),
        w == 2 || w == 3,
    ensures
        match (r, coord_field(win(s@, a as int, b as int), w as int)) {
            (Some(x), Some(y)) => x.0 == y.0 && num_is(x.1, y.1),
            (None, None) => true,
            _ => false,
        },
{
    let ghost f = win(s@, a as int, b as int);
    if b - a <= w {
        return None;
    }
    assert(win(s@, a as int, a + w) =~= f.subrange(0, w as int));
    assert(win(s@, a + w, b as int) =~= f.subrange(w as int, f.len() as int));
    let d = read_uint_text(s, a, a + w, 255);
    let m = read_opt_float_field(data, s, a + w, b);
    match (d, m) {
        (Some(d), Some(Some(m))) => Some((d as u8, m)),
        _ => None,
    }
}

/// Reads the four position fields starting at field `k`; see [`lat_lon_fields`].
pub fn read_lat_lon(data: &str, s: &Vec<char>, sp: &Vec<(usize, usize)>, k: usize) -> (r: Option<Option<LatLon>>)
    requires
        s@ == data@,
        crate::text::spans_match(s@, sp@),
        k + 4 <= sp.len(),
    ensures
        match (r, lat_lon_fields(crate::text::split_fields(s@), k as int)) {
            (Some(o), Some(v)) => opt_lat_lon_is(o, v),
            (None, None) => true,
            _ => false,
        },
{
    let ghost f = crate::text::split_fields(s@);
    assert(f[k as int] == win(s@, sp[k as int].0 as int, sp[k as int].1 as int));
    assert(f[k + 1] == win(s@, sp[k + 1].0 as int, sp[k + 1].1 as int));
    assert(f[k + 2] == win(s@, sp[k + 2].0 as int, sp[k + 2].1 as int));
    assert(f[k + 3] == win(s@, sp[k + 3].0 as int, sp[k + 3].1 as int));
    if sp[k].0 == sp[k].1 && sp[k + 1].0 == sp[k + 1].1 && sp[k + 2].0 == sp[k + 2].1 {
        if sp[k + 3].0 == sp[k + 3].1 {
            return Some(None);
        } else {
            return None;
        }
    }
    let ns = ['N', 'S'];
    let ew = ['E', 'W'];
    assert(ns@ =~= seq!['N', 'S']);
    assert(ew@ =~= seq!['E', 'W']);
    let la = read_coord(data, s, sp[k].0, sp[k].1, 2);
    let lo = read_coord(data, s, sp[k + 2].0, sp[k + 2].1, 3);
    let h1 = exec_one_of_field(s, sp[k + 1].0, sp[k + 1].1, ns.as_slice());
    let h2 = exec_one_of_field(s, sp[k + 3].0, sp[k + 3].1, ew.as_slice());
    match (la, lo, h1, h2) {
        (Some(la), Some(lo), Some(h1), Some(h2)) => Some(
            Some(
                LatLon {
                    lat_degrees: la.0,
                    lat_minutes: la.1,
                    south: h1 == 'S',
                    lon_degrees: lo.0,
                    lon_minutes: lo.1,
                    west: h2 == 'W',
                },
            ),
        ),
        _ => None,
    }
}

/// The first of the four fields of a written position: the latitude.
pub open spec fn lat_field(o: Option<LatLon>) -> Seq<char> {
    match o {
        Some(p) => padded(p.lat_degrees as nat, 2) + number_text(p.lat_minutes),
        None => Seq::empty(),
    }
}

/// The second field of a written position: its hemisphere letter.
pub open spec fn ns_field(o: Option<LatLon>) -> Seq<char> {
    match o {
        Some(p) => seq![if p.south { 'S' } else { 'N' }],
        None => Seq::empty(),
    }
}

/// The third field of a written position: the longitude.
pub open spec fn lon_field(o: Option<LatLon>) -> Seq<char> {
    match o {
        Some(p) => padded(p.lon_degrees as nat, 3) + number_text(p.lon_minutes),
        None => Seq::empty(),
    }
}

/// The fourth field of a written position: its hemisphere letter.
pub open spec fn ew_field(o: Option<LatLon>) -> Seq<char> {
    match o {
        Some(p) => seq![if p.west { 'W' } else { 'E' }],
        None => Seq::empty(),
    }
}

/// The text of an optional position: `ddmm.mm,N,dddmm.mm,E`, degrees padded
/// to two and three digits, or `,,,` when absent.
pub open spec fn lat_lon_chars(o: Option<LatLon>) -> Seq<char> {
    match o {
        Some(p) => padded(p.lat_degrees as nat, 2) + number_text(p.lat_minutes) + seq![
            ',',
            if p.south { 'S' } else { 'N' },
            ',',
        ] + padded(p.lon_degrees as nat, 3) + number_text(p.lon_minutes) + seq![
            ',',
            if p.west { 'W' } else { 'E' },
        ],
        None => seq![',', ',', ','],
    }
}

/// Writes the latitude of an optional position and its hemisphere:
/// `ddmm.mm,N`, or a lone comma when absent.
pub fn write_lat(f: &mut String, pos: &Option<LatLon>)
    ensures
        final(f)@ == old(f)@ + lat_field(*pos) + seq![','] + ns_field(*pos),
{
    match pos {
        Some(p) => {
            push_padded(f, p.lat_degrees as u64, 2);
            push_number(f, &p.lat_minutes);
            push_char(f, ',');
            push_char(f, if p.south { 'S' } else { 'N' });
        },
        None => push_char(f, ','),
    }
    assert(f@ =~= old(f)@ + lat_field(*pos) + seq![','] + ns_field(*pos));
}

/// Writes the longitude of an optional position and its hemisphere:
/// `dddmm.mm,E`, or a lone comma when absent.
pub fn write_lon(f: &mut String, pos: &Option<LatLon>)
    ensures
        final(f)@ == old(f)@ + lon_field(*pos) + seq![','] + ew_field(*pos),
{
    match pos {
        Some(p) => {
            push_padded(f, p.lon_degrees as u64, 3);
            push_number(f, &p.lon_minutes);
            push_char(f, ',');
            push_char(f, if p.west { 'W' } else { 'E' });
        },
        None => push_char(f, ','),
    }
    assert(f@ =~= old(f)@ + lon_field(*pos) + seq![','] + ew_field(*pos));
}

/// Writes an optional position; see [`lat_lon_chars`].
pub fn write_lat_lon(f: &mut String, pos: &Option<LatLon>)
    ensures
        final(f)@ == old(f)@ + lat_lon_chars(*pos),
{
    write_lat(f, pos);
    push_char(f, ',');
    write_lon(f, pos);
    proof {
        crate::readback::lemma_lat_lon_parts(*pos);
    }
    assert(f@ =~= old(f)@ + lat_lon_chars(*pos));
}

} // verus!
