//! Lexical pieces shared by all sentence grammars: characters, comma-separated
//! fields, decimal digits and number literals.

use vstd::prelude::*;
use vstd::string::*;

verus! {

/// A number literal as it was written in a sentence, kept exactly so that the
/// reader can turn it into the floating-point type of its choice.
///
/// The value is the magnitude literal, negated when `negative` holds.
/// The magnitude is an unsigned decimal literal (`12`, `12.`, `.5`, `1.5e-3`)
/// or one of the words `nan`, `inf`, `infinity` in any letter case.
#[derive(Debug, Clone, PartialEq, Eq)]
pub struct Number {
    pub negative: bool,
    pub magnitude: String,
}

/// The mathematical content of a [`Number`].
pub struct NumV {
    pub negative: bool,
    pub magnitude: Seq<char>,
}

/// `n` holds exactly the literal `v`.
pub open spec fn num_is(n: Number, v: NumV) -> bool {
    n.negative == v.negative && n.magnitude@ == v.magnitude
}

/// `o` holds exactly the optional literal `v`.
pub open spec fn opt_num_is(o: Option<Number>, v: Option<NumV>) -> bool {
    match (o, v) {
        (Some(n), Some(w)) => num_is(n, w),
        (None, None) => true,
        _ => false,
    }
}

/// The characters of a string slice, one by one.
pub fn chars_of(s: &str) -> (v: Vec<char>)
    ensures
        v@ == s@,
{
    let n = s.unicode_len();
    let mut v: Vec<char> = Vec::new();
    let mut i: usize = 0;
    while i < n
        invariant
            n == s@.len(),
            i <= n,
            v@ == s@.subrange(0, i as int),
        decreases n - i,
    {
        let c = s.get_char(i);
        v.push(c);
        i += 1;
        assert(v@ =~= s@.subrange(0, i as int));
    }
    v
}

// ---------------------------------------------------------------------------
// Fields
// ---------------------------------------------------------------------------

/// The comma-separated fields of `s`, in order. There is always at least one
/// field; `s` with `k` commas has `k + 1` fields.
pub open spec fn split_fields(s: Seq<char>) -> Seq<Seq<char>>
    decreases s.len(),
{
    if s.len() == 0 {
        seq![Seq::<char>::empty()]
    } else {
        let r = split_fields(s.drop_last());
        if s.last() == ',' {
            r.push(Seq::<char>::empty())
        } else {
            r.update(r.len() - 1, r.last().push(s.last()))
        }
    }
}

pub proof fn lemma_split_fields_nonempty(s: Seq<char>)
    ensures
        split_fields(s).len() >= 1,
    decreases s.len(),
{
    if s.len() > 0 {
        lemma_split_fields_nonempty(s.drop_last());
    }
}

/// Where each field of `s` starts and ends, as `(start, end)` positions.
pub open spec fn spans_match(s: Seq<char>, spans: Seq<(usize, usize)>) -> bool {
    &&& spans.len() == split_fields(s).len()
    &&& spans.len() > 0 ==> spans[0].0 == 0
    &&& forall|j: int|
        0 <= j < spans.len() ==> {
            &&& (#[trigger] spans[j]).0 <= spans[j].1 <= s.len()
            &&& s.subrange(spans[j].0 as int, spans[j].1 as int) == split_fields(s)[j]
            &&& (j + 1 < spans.len() ==> spans[j].1 < s.len() && s[spans[j].1 as int] == ','
                && spans[j + 1].0 == spans[j].1 + 1)
        }
}

/// Splits `s` at its commas.
#[verifier::spinoff_prover]
#[verifier::rlimit(40)]
pub fn field_spans(s: &Vec<char>) -> (spans: Vec<(usize, usize)>)
    ensures
        spans_match(s@, spans@),
{
    let n = s.len();
    let mut spans: Vec<(usize, usize)> = Vec::new();
    let mut cur: usize = 0;
    let mut i: usize = 0;
    proof {
        assert(s@.take(0) =~= Seq::<char>::empty());
    }
    while i < n
        invariant
            n == s.len(),
            i <= n,
            cur <= i,
            spans.len() == 0 ==> cur == 0,
            spans.len() > 0 ==> spans[0].0 == 0,
            spans.len() + 1 == split_fields(s@.take(i as int)).len(),
            s@.subrange(cur as int, i as int) == split_fields(s@.take(i as int)).last(),
            forall|j: int|
                0 <= j < spans.len() ==> {
                    &&& (#[trigger] spans[j]).0 <= spans[j].1 <= i
                    &&& s@.subrange(spans[j].0 as int, spans[j].1 as int) == split_fields(
                        s@.take(i as int),
                    )[j]
                    &&& spans[j].1 < s.len() && s@[spans[j].1 as int] == ','
                    &&& (j + 1 < spans.len() ==> spans[j + 1].0 == spans[j].1 + 1)
                    &&& (j + 1 == spans.len() ==> cur == spans[j].1 + 1)
                },
        decreases n - i,
    {
        let ghost old_t = s@.take(i as int);
        let ghost t = s@.take(i as int + 1);
        proof {
            assert(t.drop_last() =~= old_t);
            lemma_split_fields_nonempty(old_t);
        }
        if s[i] == ',' {
            spans.push((cur, i));
            cur = i + 1;
            proof {
                assert(s@.subrange(cur as int, i + 1) =~= Seq::<char>::empty());
            }
        } else {
            proof {
                assert(s@.subrange(cur as int, i + 1) =~= s@.subrange(cur as int, i as int).push(
                    s@[i as int],
                ));
            }
        }
        i += 1;
    }
    spans.push((cur, n));
    proof {
        assert(s@.take(n as int) =~= s@);
    }
    spans
}

// ---------------------------------------------------------------------------
// Digits and number literals
// ---------------------------------------------------------------------------

pub open spec fn is_digit(c: char) -> bool {
    '0' <= c && c <= '9'
}

/// How many decimal digits follow one another in `f` from position `k` on.
pub open spec fn digit_run(f: Seq<char>, k: int) -> int
    decreases f.len() - k,
{
    if 0 <= k < f.len() && is_digit(f[k]) {
        1 + digit_run(f, k + 1)
    } else {
        0
    }
}

pub proof fn lemma_digit_run_bounds(f: Seq<char>, k: int)
    requires
        0 <= k <= f.len(),
    ensures
        0 <= digit_run(f, k) <= f.len() - k,
        forall|m: int| k <= m < k + digit_run(f, k) ==> is_digit(#[trigger] f[m]),
        k + digit_run(f, k) < f.len() ==> !is_digit(f[k + digit_run(f, k)]),
    decreases f.len() - k,
{
    if k < f.len() && is_digit(f[k]) {
        lemma_digit_run_bounds(f, k + 1);
    }
}

/// The result of looking for a number literal at the start of a text.
#[derive(Debug, Clone, Copy, PartialEq, Eq, Structural)]
pub enum Scan {
    /// A literal ends at this position.
    Token(usize),
    /// No literal starts here; nothing is consumed.
    NoMatch,
    /// An exponent marker is not followed by digits: the text is rejected outright.
    Cut,
}

/// One sign character at position `k`, or none.
pub open spec fn sign_len(f: Seq<char>, k: int) -> int {
    if 0 <= k < f.len() && (f[k] == '+' || f[k] == '-') {
        1
    } else {
        0
    }
}

/// The end of a digits-and-point mantissa starting at `k`:
/// `digits [ "." [digits] ]` or `"." digits`.
pub open spec fn mantissa_end(f: Seq<char>, k: int) -> Option<int> {
    let d = digit_run(f, k);
    if d > 0 {
        let j = k + d;
        if j < f.len() && f[j] == '.' {
            Some(j + 1 + digit_run(f, j + 1))
        } else {
            Some(j)
        }
    } else if 0 <= k < f.len() && f[k] == '.' && digit_run(f, k + 1) > 0 {
        Some(k + 1 + digit_run(f, k + 1))
    } else {
        None
    }
}

/// An optional exponent `("e"|"E") [sign] digits` starting at `j`.
pub open spec fn exponent_scan(f: Seq<char>, j: int) -> Scan {
    if 0 <= j < f.len() && (f[j] == 'e' || f[j] == 'E') {
        let k = j + 1 + sign_len(f, j + 1);
        if digit_run(f, k) > 0 {
            Scan::Token((k + digit_run(f, k)) as usize)
        } else {
            Scan::Cut
        }
    } else {
        Scan::Token(j as usize)
    }
}

/// `c` equals the lower-case ASCII letter `l` in either case.
pub open spec fn ci_eq(c: char, l: char) -> bool {
    c == l || (c as u32) + 32 == (l as u32)
}

/// The word `w` (lower case) is written at position `k` of `f`, in any letter case.
pub open spec fn word_at(f: Seq<char>, k: int, w: Seq<char>) -> bool {
    &&& 0 <= k
    &&& k + w.len() <= f.len()
    &&& forall|m: int| 0 <= m < w.len() ==> ci_eq(#[trigger] f[k + m], w[m])
}

pub open spec fn word_nan() -> Seq<char> {
    seq!['n', 'a', 'n']
}

pub open spec fn word_inf() -> Seq<char> {
    seq!['i', 'n', 'f']
}

pub open spec fn word_infinity() -> Seq<char> {
    seq!['i', 'n', 'f', 'i', 'n', 'i', 't', 'y']
}

/// The longest number literal at the start of `f`, read the way the stream
/// reader of this library reads floating-point fields: an optional sign, a
/// mantissa, an optional exponent; or, without a sign, one of the words `nan`,
/// `infinity`, `inf`.
pub open spec fn float_scan(f: Seq<char>) -> Scan {
    match mantissa_end(f, sign_len(f, 0)) {
        Some(j) => exponent_scan(f, j),
        None => if word_at(f, 0, word_nan()) {
            Scan::Token(3)
        } else if word_at(f, 0, word_infinity()) {
            Scan::Token(8)
        } else if word_at(f, 0, word_inf()) {
            Scan::Token(3)
        } else {
            Scan::NoMatch
        },
    }
}

/// The value of the literal that `float_scan` found in `f`, ending at `end`.
pub open spec fn literal_value(f: Seq<char>, end: int) -> NumV {
    let s = if mantissa_end(f, sign_len(f, 0)) is Some { sign_len(f, 0) } else { 0 };
    NumV { negative: s == 1 && f[0] == '-', magnitude: f.subrange(s, end) }
}

/// A whole field read as an optional number literal: empty gives `Some(None)`,
/// a field that is exactly one literal gives its value, anything else `None`.
pub open spec fn opt_float_field(f: Seq<char>) -> Option<Option<NumV>> {
    if f.len() == 0 {
        Some(None)
    } else {
        match float_scan(f) {
            Scan::Token(e) => if e as int == f.len() {
                Some(Some(literal_value(f, e as int)))
            } else {
                None
            },
            _ => None,
        }
    }
}

/// A number literal read at the start of the last field, the rest of the
/// text being ignored: `Some(None)` when no literal starts there, `None`
/// when the text is rejected outright.
pub open spec fn opt_float_prefix(f: Seq<char>) -> Option<Option<NumV>> {
    match float_scan(f) {
        Scan::Token(e) => Some(Some(literal_value(f, e as int))),
        Scan::NoMatch => Some(None),
        Scan::Cut => None,
    }
}

/// A literal required at the start of a text, the rest being left to the caller.
pub open spec fn float_prefix(f: Seq<char>) -> Option<(NumV, int)> {
    match float_scan(f) {
        Scan::Token(e) => Some((literal_value(f, e as int), e as int)),
        _ => None,
    }
}

/// A field read as a whole with the standard library's floating-point syntax:
/// an optional sign, then a mantissa with optional exponent, or one of the
/// words `nan`, `inf`, `infinity`, up to the end of the field.
pub open spec fn std_float(f: Seq<char>) -> Option<NumV> {
    let s = sign_len(f, 0);
    let mag = f.subrange(s, f.len() as int);
    let ok = match mantissa_end(f, s) {
        Some(j) => exponent_scan(f, j) == Scan::Token(f.len() as usize),
        None => {
            ||| (word_at(f, s, word_nan()) && s + 3 == f.len())
            ||| (word_at(f, s, word_inf()) && s + 3 == f.len())
            ||| (word_at(f, s, word_infinity()) && s + 8 == f.len())
        },
    };
    if ok {
        Some(NumV { negative: s == 1 && f[0] == '-', magnitude: mag })
    } else {
        None
    }
}

/// An optional field read with the standard library's syntax: empty gives
/// `Some(None)`, a valid literal its value, anything else `None`.
pub open spec fn opt_std_float_field(f: Seq<char>) -> Option<Option<NumV>> {
    if f.len() == 0 {
        Some(None)
    } else {
        match std_float(f) {
            Some(v) => Some(Some(v)),
            None => None,
        }
    }
}

/// The decimal value of a run of digits.
pub open spec fn digits_value(f: Seq<char>) -> nat
    decreases f.len(),
{
    if f.len() == 0 {
        0
    } else {
        digits_value(f.drop_last()) * 10 + ((f.last() as u32) - ('0' as u32)) as nat
    }
}

/// All characters of `f` are decimal digits.
pub open spec fn all_digits(f: Seq<char>) -> bool {
    forall|m: int| 0 <= m < f.len() ==> is_digit(#[trigger] f[m])
}

/// A field that is exactly a non-empty run of digits whose value is at most
/// `max`: its value.
pub open spec fn unsigned_field(f: Seq<char>, max: nat) -> Option<nat> {
    if f.len() > 0 && all_digits(f) && digits_value(f) <= max {
        Some(digits_value(f))
    } else {
        None
    }
}

/// An optional unsigned field: empty gives `Some(None)`.
pub open spec fn opt_unsigned_field(f: Seq<char>, max: nat) -> Option<Option<nat>> {
    if f.len() == 0 {
        Some(None)
    } else {
        match unsigned_field(f, max) {
            Some(v) => Some(Some(v)),
            None => None,
        }
    }
}


// ---------------------------------------------------------------------------
// Executable readers over a window `s[a..b]`
// ---------------------------------------------------------------------------

/// The window `s[a..b]` as a sequence.
pub open spec fn win(s: Seq<char>, a: int, b: int) -> Seq<char> {
    s.subrange(a, b)
}

fn exec_digit_run(s: &Vec<char>, a: usize, b: usize, k: usize) -> (r: usize)
    requires
        a <= b <= s.len(),
        k <= b - a,
    ensures
        r == digit_run(win(s@, a as int, b as int), k as int),
        k + r <= b - a,
{
    let ghost f = win(s@, a as int, b as int);
    proof {
        lemma_digit_run_bounds(f, k as int);
    }
    let mut j = k;
    while j < b - a && '0' <= s[a + j] && s[a + j] <= '9'
        invariant
            a <= b <= s.len(),
            k <= j <= b - a,
            f == win(s@, a as int, b as int),
            digit_run(f, k as int) == (j - k) + digit_run(f, j as int),
        decreases b - a - j,
    {
        j += 1;
    }
    j - k
}

fn exec_sign_len(s: &Vec<char>, a: usize, b: usize, k: usize) -> (r: usize)
    requires
        a <= b <= s.len(),
        k <= b - a,
    ensures
        r == sign_len(win(s@, a as int, b as int), k as int),
{
    if k < b - a && (s[a + k] == '+' || s[a + k] == '-') {
        1
    } else {
        0
    }
}

fn exec_mantissa_end(s: &Vec<char>, a: usize, b: usize, k: usize) -> (r: Option<usize>)
    requires
        a <= b <= s.len(),
        k <= b - a,
    ensures
        match r {
            Some(j) => mantissa_end(win(s@, a as int, b as int), k as int) == Some(j as int),
            None => mantissa_end(win(s@, a as int, b as int), k as int) is None,
        },
        r matches Some(j) ==> k < j <= b - a,
{
    let d = exec_digit_run(s, a, b, k);
    if d > 0 {
        let j = k + d;
        if j < b - a && s[a + j] == '.' {
            let e = exec_digit_run(s, a, b, j + 1);
            Some(j + 1 + e)
        } else {
            Some(j)
        }
    } else if k < b - a && s[a + k] == '.' {
        let e = exec_digit_run(s, a, b, k + 1);
        if e > 0 {
            Some(k + 1 + e)
        } else {
            None
        }
    } else {
        None
    }
}

fn exec_exponent_scan(s: &Vec<char>, a: usize, b: usize, j: usize) -> (r: Scan)
    requires
        a <= b <= s.len(),
        j <= b - a,
    ensures
        r == exponent_scan(win(s@, a as int, b as int), j as int),
        r matches Scan::Token(e) ==> j <= e <= b - a,
{
    if j < b - a && (s[a + j] == 'e' || s[a + j] == 'E') {
        let k = j + 1 + exec_sign_len(s, a, b, j + 1);
        let d = exec_digit_run(s, a, b, k);
        if d > 0 {
            Scan::Token(k + d)
        } else {
            Scan::Cut
        }
    } else {
        Scan::Token(j)
    }
}

fn exec_ci_eq(c: char, l: char) -> (r: bool)
    requires
        'a' <= l <= 'z',
    ensures
        r == ci_eq(c, l),
{
    c == l || (c as u32) + 32 == (l as u32)
}

fn exec_word_at(s: &Vec<char>, a: usize, b: usize, k: usize, w: &[char]) -> (r: bool)
    requires
        a <= b <= s.len(),
        k <= b - a,
        forall|m: int| 0 <= m < w@.len() ==> 'a' <= #[trigger] w@[m] <= 'z',
    ensures
        r == word_at(win(s@, a as int, b as int), k as int, w@),
{
    let ghost f = win(s@, a as int, b as int);
    if w.len() > b - a - k {
        return false;
    }
    let mut m: usize = 0;
    while m < w.len()
        invariant
            a <= b <= s.len(),
            k + w@.len() <= b - a,
            m <= w@.len(),
            f == win(s@, a as int, b as int),
            forall|m: int| 0 <= m < w@.len() ==> 'a' <= #[trigger] w@[m] <= 'z',
            forall|q: int| 0 <= q < m ==> ci_eq(#[trigger] f[k + q], w@[q]),
        decreases w@.len() - m,
    {
        if !exec_ci_eq(s[a + k + m], w[m]) {
            assert(!ci_eq(f[k + m as int], w@[m as int]));
            return false;
        }
        m += 1;
    }
    true
}

/// Looks for a number literal at the start of `s[a..b]`; see [`float_scan`].
pub fn exec_float_scan(s: &Vec<char>, a: usize, b: usize) -> (r: Scan)
    requires
        a <= b <= s.len(),
    ensures
        r == float_scan(win(s@, a as int, b as int)),
        r matches Scan::Token(e) ==> 0 < e <= b - a,
{
    let sl = exec_sign_len(s, a, b, 0);
    match exec_mantissa_end(s, a, b, sl) {
        Some(j) => {
            let r = exec_exponent_scan(s, a, b, j);
            assert(r == float_scan(win(s@, a as int, b as int)));
            r
        },
        None => {
            let nan = ['n', 'a', 'n'];
            let infinity = ['i', 'n', 'f', 'i', 'n', 'i', 't', 'y'];
            let inf = ['i', 'n', 'f'];
            assert(nan@ =~= word_nan());
            assert(infinity@ =~= word_infinity());
            assert(inf@ =~= word_inf());
            let nan_s = nan.as_slice();
            let infinity_s = infinity.as_slice();
            let inf_s = inf.as_slice();
            assert(nan_s@ == word_nan());
            assert(infinity_s@ == word_infinity());
            assert(inf_s@ == word_inf());
            let ghost f = win(s@, a as int, b as int);
            assert(mantissa_end(f, sign_len(f, 0)) is None);
            if exec_word_at(s, a, b, 0, nan_s) {
                assert(word_at(f, 0, word_nan()));
                Scan::Token(3)
            } else if exec_word_at(s, a, b, 0, infinity_s) {
                Scan::Token(8)
            } else if exec_word_at(s, a, b, 0, inf_s) {
                Scan::Token(3)
            } else {
                Scan::NoMatch
            }
        },
    }
}


/// `r` is exactly the reading `v` of an optional number.
pub open spec fn read_is(r: Option<Option<Number>>, v: Option<Option<NumV>>) -> bool {
    match (r, v) {
        (Some(o), Some(w)) => opt_num_is(o, w),
        (None, None) => true,
        _ => false,
    }
}

/// The literal `data[a + lo .. a + hi]` as a number, negated when asked.
fn make_number(data: &str, s: &Vec<char>, a: usize, lo: usize, hi: usize, negative: bool) -> (n: Number)
    requires
        s@ == data@,
        a + lo <= a + hi <= s.len(),
    ensures
        n.negative == negative,
        n.magnitude@ == s@.subrange(a + lo, a + hi),
{
    let t = data.substring_char(a + lo, a + hi);
    Number { negative, magnitude: String::from_str(t) }
}

/// Reads the literal found by `float_scan` in the window, ending at `e`.
fn make_literal(data: &str, s: &Vec<char>, a: usize, b: usize, e: usize) -> (n: Number)
    requires
        s@ == data@,
        a <= b <= s.len(),
        0 < e <= b - a,
        float_scan(win(s@, a as int, b as int)) == Scan::Token(e),
    ensures
        num_is(n, literal_value(win(s@, a as int, b as int), e as int)),
{
    let ghost f = win(s@, a as int, b as int);
    let sl = exec_sign_len(s, a, b, 0);
    let m = exec_mantissa_end(s, a, b, sl);
    let st: usize = if m.is_some() { sl } else { 0 };
    proof {
        if m is None && sl == 1 {
            // no literal can then start with a sign: the words are unsigned
            if word_at(f, 0, word_nan()) {
                assert(ci_eq(f[0int + 0int], word_nan()[0]));
            }
            if word_at(f, 0, word_infinity()) {
                assert(ci_eq(f[0int + 0int], word_infinity()[0]));
            }
            if word_at(f, 0, word_inf()) {
                assert(ci_eq(f[0int + 0int], word_inf()[0]));
            }
        }
    }
    let neg = st == 1 && s[a] == '-';
    let n = make_number(data, s, a, st, e, neg);
    assert(n.magnitude@ =~= f.subrange(st as int, e as int));
    n
}

/// Reads a whole field as an optional number literal; see [`opt_float_field`].
pub fn read_opt_float_field(data: &str, s: &Vec<char>, a: usize, b: usize) -> (r: Option<Option<Number>>)
    requires
        s@ == data@,
        a <= b <= s.len(),
    ensures
        read_is(r, opt_float_field(win(s@, a as int, b as int))),
{
    if a == b {
        return Some(None);
    }
    match exec_float_scan(s, a, b) {
        Scan::Token(e) => if e == b - a {
            Some(Some(make_literal(data, s, a, b, e)))
        } else {
            None
        },
        _ => None,
    }
}

/// Reads a number literal at the start of the window; see [`opt_float_prefix`].
pub fn read_opt_float_prefix(data: &str, s: &Vec<char>, a: usize, b: usize) -> (r: Option<Option<Number>>)
    requires
        s@ == data@,
        a <= b <= s.len(),
    ensures
        read_is(r, opt_float_prefix(win(s@, a as int, b as int))),
{
    match exec_float_scan(s, a, b) {
        Scan::Token(e) => Some(Some(make_literal(data, s, a, b, e))),
        Scan::NoMatch => Some(None),
        Scan::Cut => None,
    }
}

/// Reads a whole field with the standard library's syntax; see [`opt_std_float_field`].
pub fn read_opt_std_float_field(data: &str, s: &Vec<char>, a: usize, b: usize) -> (r: Option<Option<Number>>)
    requires
        s@ == data@,
        a <= b <= s.len(),
    ensures
        read_is(r, opt_std_float_field(win(s@, a as int, b as int))),
{
    let ghost f = win(s@, a as int, b as int);
    if a == b {
        return Some(None);
    }
    let sl = exec_sign_len(s, a, b, 0);
    let ok = match exec_mantissa_end(s, a, b, sl) {
        Some(j) => exec_exponent_scan(s, a, b, j) == Scan::Token(b - a),
        None => {
            let nan = ['n', 'a', 'n'];
            let infinity = ['i', 'n', 'f', 'i', 'n', 'i', 't', 'y'];
            let inf = ['i', 'n', 'f'];
            let nan_s = nan.as_slice();
            let infinity_s = infinity.as_slice();
            let inf_s = inf.as_slice();
            assert(nan_s@ =~= word_nan());
            assert(infinity_s@ =~= word_infinity());
            assert(inf_s@ =~= word_inf());
            (sl + 3 == b - a && exec_word_at(s, a, b, sl, nan_s))
                || (sl + 3 == b - a && exec_word_at(s, a, b, sl, inf_s))
                || (sl + 8 == b - a && exec_word_at(s, a, b, sl, infinity_s))
        },
    };
    if ok {
        let neg = sl == 1 && s[a] == '-';
        let n = make_number(data, s, a, sl, b - a, neg);
        assert(n.magnitude@ =~= f.subrange(sl as int, f.len() as int));
        Some(Some(n))
    } else {
        None
    }
}

pub proof fn lemma_digits_value_take(f: Seq<char>, i: int)
    requires
        0 <= i < f.len(),
    ensures
        digits_value(f.take(i + 1)) == digits_value(f.take(i)) * 10 + ((f[i] as u32) - ('0' as u32)) as nat,
{
    assert(f.take(i + 1).drop_last() =~= f.take(i));
}

pub proof fn lemma_digits_value_mono(f: Seq<char>, i: int, j: int)
    requires
        0 <= i <= j <= f.len(),
        all_digits(f),
    ensures
        digits_value(f.take(i)) <= digits_value(f.take(j)),
    decreases j - i,
{
    if i < j {
        lemma_digits_value_mono(f, i, j - 1);
        lemma_digits_value_take(f, j - 1);
    }
}

/// Reads a whole field as an unsigned number no larger than `max`;
/// see [`unsigned_field`].
pub fn read_unsigned(s: &Vec<char>, a: usize, b: usize, max: u64) -> (r: Option<u64>)
    requires
        a <= b <= s.len(),
    ensures
        match r {
            Some(v) => unsigned_field(win(s@, a as int, b as int), max as nat) == Some(v as nat),
            None => unsigned_field(win(s@, a as int, b as int), max as nat) is None,
        },
{
    let ghost f = win(s@, a as int, b as int);
    if a == b {
        return None;
    }
    let mut i: usize = 0;
    while i < b - a
        invariant
            a <= b <= s.len(),
            i <= b - a,
            f == win(s@, a as int, b as int),
            forall|m: int| 0 <= m < i ==> is_digit(#[trigger] f[m]),
        decreases b - a - i,
    {
        if !('0' <= s[a + i] && s[a + i] <= '9') {
            assert(!is_digit(f[i as int]));
            return None;
        }
        i += 1;
    }
    assert(all_digits(f));
    let mut v: u64 = 0;
    let mut i: usize = 0;
    proof {
        assert(f.take(0) =~= Seq::<char>::empty());
    }
    while i < b - a
        invariant
            a <= b <= s.len(),
            i <= b - a,
            f == win(s@, a as int, b as int),
            all_digits(f),
            v <= max,
            v == digits_value(f.take(i as int)),
        decreases b - a - i,
    {
        proof {
            lemma_digits_value_take(f, i as int);
            assert(is_digit(f[i as int]));
            assert(f[i as int] == s@[a + i]);
        }
        let c = s[a + i];
        let d = (c as u32 - '0' as u32) as u64;
        if d > max || v > (max - d) / 10 {
            proof {
                assert(v * 10 + d > max) by (nonlinear_arith)
                    requires d > max || v > (max - d) / 10;
                lemma_digits_value_mono(f, i as int + 1, f.len() as int);
                assert(f.take(f.len() as int) =~= f);
            }
            return None;
        }
        proof {
            assert(v * 10 + d <= max) by (nonlinear_arith)
                requires v <= (max - d) / 10, d <= max;
        }
        v = v * 10 + d;
        i += 1;
    }
    assert(f.take(f.len() as int) =~= f);
    Some(v)
}


// ---------------------------------------------------------------------------
// Single-character fields
// ---------------------------------------------------------------------------

/// The field is exactly the one character `c`.
pub open spec fn field_is(f: Seq<char>, c: char) -> bool {
    f.len() == 1 && f[0] == c
}

/// The field starts with `c`.
pub open spec fn field_starts(f: Seq<char>, c: char) -> bool {
    f.len() >= 1 && f[0] == c
}

/// A field that is exactly one character of `set`.
pub open spec fn one_of_field(f: Seq<char>, set: Seq<char>) -> Option<char> {
    if f.len() == 1 && set.contains(f[0]) {
        Some(f[0])
    } else {
        None
    }
}

/// An optional one-character field: empty gives `Some(None)`, one character
/// of `set` gives it, anything else `None`.
pub open spec fn opt_one_of_field(f: Seq<char>, set: Seq<char>) -> Option<Option<char>> {
    if f.len() == 0 {
        Some(None)
    } else {
        match one_of_field(f, set) {
            Some(c) => Some(Some(c)),
            None => None,
        }
    }
}

/// The first letter of a field among four letters: which one it is.
pub proof fn lemma_letters4(a: char, b: char, c: char, e: char, f: Seq<char>)
    ensures
        f.len() >= 1 ==> (seq![a, b, c, e].contains(f[0]) <==> (f[0] == a || f[0] == b || f[0] == c
            || f[0] == e)),
{
    let s = seq![a, b, c, e];
    assert(s[0] == a && s[1] == b && s[2] == c && s[3] == e);
}

/// A field of three letters' choice: which letter it is, if any.
pub proof fn lemma_letters3(a: char, b: char, c: char, f: Seq<char>)
    ensures
        f.len() >= 1 ==> (seq![a, b, c].contains(f[0]) <==> (f[0] == a || f[0] == b || f[0] == c)),
        f == seq![a] <==> (f.len() == 1 && f[0] == a),
        f == seq![b] <==> (f.len() == 1 && f[0] == b),
        f == seq![c] <==> (f.len() == 1 && f[0] == c),
{
    let s = seq![a, b, c];
    assert(s[0] == a && s[1] == b && s[2] == c);
    if f.len() == 1 {
        if f[0] == a { assert(f =~= seq![a]); }
        if f[0] == b { assert(f =~= seq![b]); }
        if f[0] == c { assert(f =~= seq![c]); }
    }
}

/// A field of two letters' choice: which letter it is, if any.
pub proof fn lemma_letters2(a: char, b: char, f: Seq<char>)
    ensures
        f.len() >= 1 ==> (seq![a, b].contains(f[0]) <==> (f[0] == a || f[0] == b)),
        f == seq![a] <==> (f.len() == 1 && f[0] == a),
        f == seq![b] <==> (f.len() == 1 && f[0] == b),
{
    let s = seq![a, b];
    assert(s[0] == a && s[1] == b);
    if f.len() == 1 {
        if f[0] == a { assert(f =~= seq![a]); }
        if f[0] == b { assert(f =~= seq![b]); }
    }
}

/// The first character of the field if it is one of `set`, at the end of
/// the text where what follows is ignored.
pub open spec fn opt_one_of_prefix(f: Seq<char>, set: Seq<char>) -> Option<char> {
    if f.len() >= 1 && set.contains(f[0]) {
        Some(f[0])
    } else {
        None
    }
}

pub fn exec_field_is(s: &Vec<char>, a: usize, b: usize, c: char) -> (r: bool)
    requires
        a <= b <= s.len(),
    ensures
        r == field_is(win(s@, a as int, b as int), c),
{
    b - a == 1 && s[a] == c
}

pub fn exec_field_starts(s: &Vec<char>, a: usize, b: usize, c: char) -> (r: bool)
    requires
        a <= b <= s.len(),
    ensures
        r == field_starts(win(s@, a as int, b as int), c),
{
    b - a >= 1 && s[a] == c
}

fn exec_contains(set: &[char], c: char) -> (r: bool)
    ensures
        r == set@.contains(c),
{
    let mut i: usize = 0;
    while i < set.len()
        invariant
            i <= set.len(),
            forall|j: int| 0 <= j < i ==> set@[j] != c,
        decreases set.len() - i,
    {
        if set[i] == c {
            assert(set@[i as int] == c);
            return true;
        }
        i += 1;
    }
    false
}

pub fn exec_one_of_field(s: &Vec<char>, a: usize, b: usize, set: &[char]) -> (r: Option<char>)
    requires
        a <= b <= s.len(),
    ensures
        r == one_of_field(win(s@, a as int, b as int), set@),
{
    if b - a == 1 && exec_contains(set, s[a]) {
        Some(s[a])
    } else {
        None
    }
}

pub fn exec_opt_one_of_field(s: &Vec<char>, a: usize, b: usize, set: &[char]) -> (r: Option<Option<char>>)
    requires
        a <= b <= s.len(),
    ensures
        r == opt_one_of_field(win(s@, a as int, b as int), set@),
{
    if a == b {
        Some(None)
    } else {
        match exec_one_of_field(s, a, b, set) {
            Some(c) => Some(Some(c)),
            None => None,
        }
    }
}

pub fn exec_opt_one_of_prefix(s: &Vec<char>, a: usize, b: usize, set: &[char]) -> (r: Option<char>)
    requires
        a <= b <= s.len(),
    ensures
        r == opt_one_of_prefix(win(s@, a as int, b as int), set@),
{
    if b - a >= 1 && exec_contains(set, s[a]) {
        Some(s[a])
    } else {
        None
    }
}


// ---------------------------------------------------------------------------
// Shorthands used by the sentence grammars
// ---------------------------------------------------------------------------

/// The literal a number has.
pub open spec fn num_view(n: Number) -> NumV {
    NumV { negative: n.negative, magnitude: n.magnitude@ }
}

/// The literal an optional number has.
pub open spec fn opt_num_view(o: Option<Number>) -> Option<NumV> {
    match o {
        Some(n) => Some(num_view(n)),
        None => None,
    }
}

/// The optional number in a field already known to be readable.
pub open spec fn fnum(f: Seq<char>) -> Option<NumV> {
    opt_float_field(f).unwrap()
}

/// The optional number, standard syntax, in a field already known to be readable.
pub open spec fn fstd(f: Seq<char>) -> Option<NumV> {
    opt_std_float_field(f).unwrap()
}

/// The optional number at the start of a last field already known to be readable.
pub open spec fn fprefix(f: Seq<char>) -> Option<NumV> {
    opt_float_prefix(f).unwrap()
}

/// A field that is empty or exactly the character `c`.
pub open spec fn opt_char_field(f: Seq<char>, c: char) -> bool {
    f.len() == 0 || field_is(f, c)
}

/// The value negated when `b` holds.
pub open spec fn negate_if(v: Option<NumV>, b: bool) -> Option<NumV> {
    match v {
        Some(n) => Some(NumV { negative: if b { !n.negative } else { n.negative }, magnitude: n.magnitude }),
        None => None,
    }
}

pub fn exec_opt_char_field(s: &Vec<char>, a: usize, b: usize, c: char) -> (r: bool)
    requires
        a <= b <= s.len(),
    ensures
        r == opt_char_field(win(s@, a as int, b as int), c),
{
    a == b || exec_field_is(s, a, b, c)
}

/// Negates a number when `b` holds.
pub fn negate_opt(o: Option<Number>, b: bool) -> (r: Option<Number>)
    ensures
        opt_num_view(r) == negate_if(opt_num_view(o), b),
{
    match o {
        Some(n) => Some(Number { negative: if b { !n.negative } else { n.negative }, magnitude: n.magnitude }),
        None => None,
    }
}


/// Reads an optional unsigned field; see [`opt_unsigned_field`].
pub fn read_opt_unsigned(s: &Vec<char>, a: usize, b: usize, max: u64) -> (r: Option<Option<u64>>)
    requires
        a <= b <= s.len(),
    ensures
        match r {
            Some(Some(v)) => opt_unsigned_field(win(s@, a as int, b as int), max as nat) == Some(Some(v as nat)),
            Some(None) => opt_unsigned_field(win(s@, a as int, b as int), max as nat) == Some(None::<nat>),
            None => opt_unsigned_field(win(s@, a as int, b as int), max as nat) is None,
        },
{
    if a == b {
        Some(None)
    } else {
        match read_unsigned(s, a, b, max) {
            Some(v) => Some(Some(v)),
            None => None,
        }
    }
}

/// The optional unsigned number in a field already known to be readable.
pub open spec fn funs(f: Seq<char>, max: nat) -> Option<nat> {
    opt_unsigned_field(f, max).unwrap()
}

/// An optional small number held as an optional natural.
pub open spec fn opt_u8_is(o: Option<u8>, v: Option<nat>) -> bool {
    match (o, v) {
        (Some(x), Some(y)) => x as nat == y,
        (None, None) => true,
        _ => false,
    }
}


// ---------------------------------------------------------------------------
// UTF-8 lengths
// ---------------------------------------------------------------------------

/// How many UTF-8 bytes a character takes.
pub open spec fn utf8_width(c: char) -> nat {
    if (c as u32) < 0x80 {
        1
    } else if (c as u32) < 0x800 {
        2
    } else if (c as u32) < 0x10000 {
        3
    } else {
        4
    }
}

/// How many UTF-8 bytes a text takes.
pub open spec fn utf8_len(f: Seq<char>) -> nat
    decreases f.len(),
{
    if f.len() == 0 {
        0
    } else {
        utf8_width(f[0]) + utf8_len(f.drop_first())
    }
}

pub proof fn lemma_utf8_len_is_encoding_len(f: Seq<char>)
    ensures
        utf8_len(f) == vstd::utf8::encode_utf8(f).len(),
    decreases f.len(),
{
    if f.len() > 0 {
        lemma_utf8_len_is_encoding_len(f.drop_first());
        let v = f[0] as u32;
        vstd::utf8::char_is_scalar(f[0]);
        assert(vstd::utf8::encode_utf8(f) == vstd::utf8::encode_scalar(v) + vstd::utf8::encode_utf8(f.drop_first()));
        assert(vstd::utf8::encode_scalar(v).len() == utf8_width(f[0]));
    }
}

pub proof fn lemma_utf8_len_push(f: Seq<char>, c: char)
    ensures
        utf8_len(f.push(c)) == utf8_len(f) + utf8_width(c),
    decreases f.len(),
{
    if f.len() > 0 {
        assert(f.push(c).drop_first() =~= f.drop_first().push(c));
        lemma_utf8_len_push(f.drop_first(), c);
        assert(f.push(c)[0] == f[0]);
        assert(utf8_len(f.push(c)) == utf8_width(f[0]) + utf8_len(f.drop_first().push(c)));
        assert(utf8_len(f) == utf8_width(f[0]) + utf8_len(f.drop_first()));
    } else {
        assert(f.push(c).drop_first() =~= Seq::<char>::empty());
        assert(f.push(c)[0] == c);
        assert(utf8_len(f.push(c)) == utf8_width(c) + utf8_len(Seq::<char>::empty()));
    }
}

/// The byte length of two texts put together is the sum of theirs.
pub proof fn lemma_utf8_len_concat(a: Seq<char>, b: Seq<char>)
    ensures
        utf8_len(a + b) == utf8_len(a) + utf8_len(b),
    decreases b.len(),
{
    if b.len() == 0 {
        assert(a + b =~= a);
    } else {
        let c = b.last();
        let b0 = b.drop_last();
        lemma_utf8_len_concat(a, b0);
        assert(a + b =~= (a + b0).push(c));
        assert(b =~= b0.push(c));
        lemma_utf8_len_push(a + b0, c);
        lemma_utf8_len_push(b0, c);
    }
}

pub proof fn lemma_utf8_len_ascii(f: Seq<char>)
    requires
        vstd::utf8::is_ascii_chars(f),
    ensures
        utf8_len(f) == f.len(),
    decreases f.len(),
{
    if f.len() > 0 {
        assert(vstd::utf8::is_ascii_chars(f.drop_first()));
        lemma_utf8_len_ascii(f.drop_first());
    }
}

pub fn char_width(c: char) -> (w: usize)
    ensures
        w == utf8_width(c),
{
    if (c as u32) < 0x80 {
        1
    } else if (c as u32) < 0x800 {
        2
    } else if (c as u32) < 0x10000 {
        3
    } else {
        4
    }
}

/// The first `k` characters of `f` take exactly `n` bytes: `k` is where
/// slicing `f` at byte `n` lands on a character boundary.
pub open spec fn byte_cut(f: Seq<char>, n: nat, k: int) -> bool {
    0 <= k <= f.len() && utf8_len(f.take(k)) == n
}

/// Where a text `f` cut after at most `cap` bytes should end, in bytes.
pub open spec fn cut_target(f: Seq<char>, cap: nat) -> nat {
    if utf8_len(f) < cap { utf8_len(f) } else { cap }
}

/// The longest prefix of `f` that takes at most `cap` bytes, when cutting
/// `f` after `cap` bytes falls between two characters (or `f` is shorter);
/// `None` when the cut would fall inside a character.
pub open spec fn byte_prefix(f: Seq<char>, cap: nat) -> Option<Seq<char>> {
    let n = cut_target(f, cap);
    if exists|k: int| byte_cut(f, n, k) {
        Some(f.take(choose|k: int| byte_cut(f, n, k)))
    } else {
        None
    }
}

/// A prefix ending exactly at `n` bytes is the only one.
pub proof fn lemma_byte_cut_unique(f: Seq<char>, n: nat, k: int, q: int)
    requires
        byte_cut(f, n, k),
        byte_cut(f, n, q),
    ensures
        k == q,
{
    lemma_utf8_prefix_mono(f, k);
}

/// Where the window `s[a..b]`, cut after at most `cap` bytes, ends: the
/// number of characters kept, or `None` when the cut would fall inside a
/// character.
pub fn cut_at_bytes(s: &Vec<char>, a: usize, b: usize, cap: usize) -> (r: Option<usize>)
    requires
        a <= b <= s.len(),
    ensures
        ({
            let f = s@.subrange(a as int, b as int);
            let n = cut_target(f, cap as nat);
            match r {
                Some(k) => byte_cut(f, n, k as int) && byte_prefix(f, cap as nat) == Some(f.take(k as int)),
                None => byte_prefix(f, cap as nat) is None,
            }
        }),
{
    let r = cut_at_bytes_scan(s, a, b, cap);
    proof {
        let f = s@.subrange(a as int, b as int);
        let n = cut_target(f, cap as nat);
        match r {
            Some(k) => {
                let c = choose|q: int| byte_cut(f, n, q);
                lemma_byte_cut_unique(f, n, k as int, c);
            },
            None => {
                assert(forall|q: int| !#[trigger] byte_cut(f, n, q));
                assert(!(exists|q: int| #[trigger] byte_cut(f, n, q)));
                assert(byte_prefix(f, cap as nat) is None);
            },
        }
    }
    r
}

fn cut_at_bytes_scan(s: &Vec<char>, a: usize, b: usize, cap: usize) -> (r: Option<usize>)
    requires
        a <= b <= s.len(),
    ensures
        ({
            let f = s@.subrange(a as int, b as int);
            let n = cut_target(f, cap as nat);
            match r {
                Some(k) => byte_cut(f, n, k as int),
                None => forall|k: int| !#[trigger] byte_cut(f, n, k),
            }
        }),
{
    let ghost f = s@.subrange(a as int, b as int);
    let mut k: usize = 0;
    let mut used: usize = 0;
    proof {
        assert(f.take(0) =~= Seq::<char>::empty());
    }
    while k < b - a && char_width(s[a + k]) <= cap - used
        invariant
            a <= b <= s.len(),
            f == s@.subrange(a as int, b as int),
            k <= b - a,
            used <= cap,
                used == utf8_len(f.take(k as int)),
        decreases b - a - k,
    {
        proof {
            assert(f.take(k + 1) =~= f.take(k as int).push(f[k as int]));
            lemma_utf8_len_push(f.take(k as int), f[k as int]);
        }
        used = used + char_width(s[a + k]);
        k += 1;
    }
    proof {
        lemma_utf8_prefix_mono(f, k as int);
    }
    proof {
        lemma_utf8_prefix_mono(f, f.len() as int);
        assert(f.take(f.len() as int) =~= f);
    }
    if k == b - a {
        assert(f.take(k as int) =~= f);
        Some(k)
    } else if used == cap {
        assert(utf8_len(f) >= utf8_len(f.take(k as int)));
        Some(k)
    } else {
        proof {
            // the next character would step over the cap: no prefix ends exactly there
            assert(f.take(k + 1) =~= f.take(k as int).push(f[k as int]));
            lemma_utf8_len_push(f.take(k as int), f[k as int]);
            lemma_utf8_prefix_mono(f, k as int + 1);
            assert(utf8_len(f) >= utf8_len(f.take(k + 1)));
            let n = cut_target(f, cap as nat);
            assert(n == cap);
            assert forall|q: int| !#[trigger] byte_cut(f, n, q) by {
                if 0 <= q <= f.len() {
                    if q < k {
                        assert(utf8_len(f.take(q)) < utf8_len(f.take(k as int)));
                    } else if q > k {
                        assert(utf8_len(f.take(q)) > utf8_len(f.take(k as int)));
                        if q > k + 1 {
                            assert(utf8_len(f.take(q)) > utf8_len(f.take(k + 1)));
                        }
                    }
                }
            }
        }
        None
    }
}

/// `k` characters are the most of `f` that fit in `cap` bytes.
pub open spec fn fit_cut(f: Seq<char>, cap: nat, k: int) -> bool {
    &&& 0 <= k <= f.len()
    &&& utf8_len(f.take(k)) <= cap
    &&& (k == f.len() || utf8_len(f.take(k + 1)) > cap)
}

/// The longest prefix of `f` that takes at most `cap` bytes: `f` cut after
/// `cap` bytes, moved back to the character boundary before the cut.
pub open spec fn fit_prefix(f: Seq<char>, cap: nat) -> Seq<char> {
    f.take(choose|k: int| fit_cut(f, cap, k))
}

/// Only one number of characters is the most that fits.
pub proof fn lemma_fit_cut_unique(f: Seq<char>, cap: nat, k: int, q: int)
    requires
        fit_cut(f, cap, k),
        fit_cut(f, cap, q),
    ensures
        k == q,
{
    if k < q {
        lemma_utf8_prefix_mono(f, q);
        if k + 1 < q {
            assert(utf8_len(f.take(k + 1)) < utf8_len(f.take(q)));
        }
    } else if q < k {
        lemma_utf8_prefix_mono(f, k);
        if q + 1 < k {
            assert(utf8_len(f.take(q + 1)) < utf8_len(f.take(k)));
        }
    }
}

/// A text that fits in `cap` bytes is kept whole.
pub proof fn lemma_fit_prefix_whole(f: Seq<char>, cap: nat)
    requires
        utf8_len(f) <= cap,
    ensures
        fit_prefix(f, cap) == f,
{
    assert(f.take(f.len() as int) =~= f);
    assert(fit_cut(f, cap, f.len() as int));
    let k = choose|k: int| fit_cut(f, cap, k);
    lemma_fit_cut_unique(f, cap, k, f.len() as int);
}

/// How many characters of the window `s[a..b]` fit in `cap` bytes: where
/// the window, cut after `cap` bytes, ends on a character boundary.
pub fn fit_at_bytes(s: &Vec<char>, a: usize, b: usize, cap: usize) -> (k: usize)
    requires
        a <= b <= s.len(),
    ensures
        k <= b - a,
        fit_cut(s@.subrange(a as int, b as int), cap as nat, k as int),
        fit_prefix(s@.subrange(a as int, b as int), cap as nat) == s@.subrange(a as int, b as int).take(k as int),
{
    let ghost f = s@.subrange(a as int, b as int);
    let mut k: usize = 0;
    let mut used: usize = 0;
    proof {
        assert(f.take(0) =~= Seq::<char>::empty());
    }
    while k < b - a && char_width(s[a + k]) <= cap - used
        invariant
            a <= b <= s.len(),
            f == s@.subrange(a as int, b as int),
            k <= b - a,
            used <= cap,
                used == utf8_len(f.take(k as int)),
        decreases b - a - k,
    {
        proof {
            assert(f.take(k + 1) =~= f.take(k as int).push(f[k as int]));
            lemma_utf8_len_push(f.take(k as int), f[k as int]);
        }
        used = used + char_width(s[a + k]);
        k += 1;
    }
    proof {
        if k < b - a {
            assert(f.take(k + 1) =~= f.take(k as int).push(f[k as int]));
            lemma_utf8_len_push(f.take(k as int), f[k as int]);
        }
        assert(fit_cut(f, cap as nat, k as int));
        let c = choose|q: int| fit_cut(f, cap as nat, q);
        lemma_fit_cut_unique(f, cap as nat, k as int, c);
    }
    k
}

/// Byte lengths of prefixes grow with the prefix, strictly.
pub proof fn lemma_utf8_prefix_mono(f: Seq<char>, k: int)
    requires
        0 <= k <= f.len(),
    ensures
        forall|j: int| 0 <= j < k ==> #[trigger] utf8_len(f.take(j)) < utf8_len(f.take(k)),
        forall|j: int| k < j <= f.len() ==> #[trigger] utf8_len(f.take(j)) > utf8_len(f.take(k)),
    decreases f.len() - k,
{
    assert forall|j: int| 0 <= j < k implies #[trigger] utf8_len(f.take(j)) < utf8_len(f.take(k)) by {
        lemma_utf8_prefix_strict(f, j, k);
    }
    assert forall|j: int| k < j <= f.len() implies #[trigger] utf8_len(f.take(j)) > utf8_len(f.take(k)) by {
        lemma_utf8_prefix_strict(f, k, j);
    }
}

proof fn lemma_utf8_prefix_strict(f: Seq<char>, j: int, k: int)
    requires
        0 <= j < k <= f.len(),
    ensures
        utf8_len(f.take(j)) < utf8_len(f.take(k)),
    decreases k - j,
{
    assert(f.take(k) =~= f.take(k - 1).push(f[k - 1]));
    lemma_utf8_len_push(f.take(k - 1), f[k - 1]);
    if j < k - 1 {
        lemma_utf8_prefix_strict(f, j, k - 1);
    }
}

} // verus!
