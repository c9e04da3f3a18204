//! Building strings character by character.

use vstd::prelude::*;
use vstd::string::*;

verus! {

/// Appends one character: a wrapper of `String::push`, which the standard
/// library documents as appending the given char to the end of the string.
#[verifier::external_body]
pub(crate) fn push_char(s: &mut String, c: char)
    ensures
        final(s)@ == old(s)@.push(c),
{
    s.push(c);
}

/// Appends the characters of `v` in order.
pub fn push_chars(s: &mut String, v: &[char])
    ensures
        final(s)@ == old(s)@ + v@,
{
    let mut i: usize = 0;
    assert(s@ == old(s)@ + v@.take(0));
    while i < v.len()
        invariant
            i <= v.len(),
            s@ == old(s)@ + v@.take(i as int),
        decreases v.len() - i,
    {
        push_char(s, v[i]);
        assert(old(s)@ + v@.take(i + 1) =~= (old(s)@ + v@.take(i as int)).push(v@[i as int]));
        i += 1;
    }
    assert(v@.take(v.len() as int) =~= v@);
}

/// Appends a string slice.
pub fn push_str(s: &mut String, t: &str)
    ensures
        final(s)@ == old(s)@ + t@,
{
    s.append(t);
}

/// The decimal digits of an unsigned number, without leading zeros
/// (`0` for zero).
pub open spec fn decimal(n: nat) -> Seq<char>
    decreases n,
{
    if n < 10 {
        seq![digit_char(n)]
    } else {
        decimal(n / 10).push(digit_char(n % 10))
    }
}

/// The digit character of a value below ten.
pub open spec fn digit_char(d: nat) -> char {
    (d + ('0' as u32)) as char
}

/// Appends the decimal digits of `n`; see [`decimal`].
pub fn push_decimal(s: &mut String, n: u64)
    ensures
        final(s)@ == old(s)@ + decimal(n as nat),
    decreases n,
{
    if n >= 10 {
        push_decimal(s, n / 10);
    }
    let d = (n % 10) as u32 + ('0' as u32);
    let c = char_of_digit(d);
    push_char(s, c);
    proof {
        if n < 10 {
            assert(old(s)@ + decimal(n as nat) =~= old(s)@.push(c));
        } else {
            assert(old(s)@ + decimal(n as nat) =~= (old(s)@ + decimal((n / 10) as nat)).push(c));
        }
    }
}

fn char_of_digit(d: u32) -> (c: char)
    requires
        '0' as u32 <= d <= '9' as u32,
    ensures
        c == d as char,
{
    if d == '0' as u32 { '0' }
    else if d == '1' as u32 { '1' }
    else if d == '2' as u32 { '2' }
    else if d == '3' as u32 { '3' }
    else if d == '4' as u32 { '4' }
    else if d == '5' as u32 { '5' }
    else if d == '6' as u32 { '6' }
    else if d == '7' as u32 { '7' }
    else if d == '8' as u32 { '8' }
    else { '9' }
}


/// The text of a number literal: `-` when negative, then the magnitude.
pub open spec fn number_text(n: crate::text::Number) -> Seq<char> {
    if n.negative {
        seq!['-'] + n.magnitude@
    } else {
        n.magnitude@
    }
}

/// The text of an optional number: nothing when absent.
pub open spec fn opt_number_text(o: Option<crate::text::Number>) -> Seq<char> {
    match o {
        Some(n) => number_text(n),
        None => Seq::empty(),
    }
}

/// Appends the text of a number literal; see [`number_text`].
pub fn push_number(s: &mut String, n: &crate::text::Number)
    ensures
        final(s)@ == old(s)@ + number_text(*n),
{
    if n.negative {
        push_char(s, '-');
    }
    push_str(s, n.magnitude.as_str());
    proof {
        if n.negative {
            assert(final(s)@ =~= old(s)@ + number_text(*n));
        }
    }
}

/// Appends the text of an optional number; see [`opt_number_text`].
pub fn push_opt_number(s: &mut String, o: &Option<crate::text::Number>)
    ensures
        final(s)@ == old(s)@ + opt_number_text(*o),
{
    match o {
        Some(n) => push_number(s, n),
        None => {
            assert(old(s)@ + Seq::<char>::empty() =~= old(s)@);
        },
    }
}


/// The decimal text of an optional number: nothing when absent.
pub open spec fn opt_decimal(o: Option<u8>) -> Seq<char> {
    match o {
        Some(n) => decimal(n as nat),
        None => Seq::empty(),
    }
}

/// Appends the decimal text of an optional number; see [`opt_decimal`].
pub fn push_opt_decimal(s: &mut String, o: Option<u8>)
    ensures
        final(s)@ == old(s)@ + opt_decimal(o),
{
    match o {
        Some(n) => push_decimal(s, n as u64),
        None => {
            assert(old(s)@ + Seq::<char>::empty() =~= old(s)@);
        },
    }
}


/// A value that a sentence writes into a field as text.
pub trait FieldText {
    /// The text the value is written as.
    spec fn field_text(&self) -> Seq<char>;

    /// Appends the text of the value.
    fn write_text(&self, f: &mut String)
        ensures
            final(f)@ == old(f)@ + self.field_text(),
    ;
}

impl FieldText for crate::text::Number {
    open spec fn field_text(&self) -> Seq<char> {
        number_text(*self)
    }

    fn write_text(&self, f: &mut String) {
        push_number(f, self);
    }
}

impl FieldText for u8 {
    open spec fn field_text(&self) -> Seq<char> {
        decimal(*self as nat)
    }

    fn write_text(&self, f: &mut String) {
        push_decimal(f, *self as u64);
    }
}

impl FieldText for u16 {
    open spec fn field_text(&self) -> Seq<char> {
        decimal(*self as nat)
    }

    fn write_text(&self, f: &mut String) {
        push_decimal(f, *self as u64);
    }
}

impl FieldText for u32 {
    open spec fn field_text(&self) -> Seq<char> {
        decimal(*self as nat)
    }

    fn write_text(&self, f: &mut String) {
        push_decimal(f, *self as u64);
    }
}

impl FieldText for char {
    open spec fn field_text(&self) -> Seq<char> {
        seq![*self]
    }

    fn write_text(&self, f: &mut String) {
        push_char(f, *self);
    }
}

/// The text of an optional value: nothing when absent.
pub open spec fn opt_text<T: FieldText>(o: Option<T>) -> Seq<char> {
    match o {
        Some(v) => v.field_text(),
        None => Seq::empty(),
    }
}

/// Writes an optional value, or nothing when it is absent.
pub fn write_opt<T: FieldText>(f: &mut String, val: &Option<T>)
    ensures
        final(f)@ == old(f)@ + opt_text(*val),
{
    match val {
        Some(v) => v.write_text(f),
        None => {
            assert(old(f)@ + Seq::<char>::empty() =~= old(f)@);
        },
    }
}

/// Writes an optional value followed by a comma.
pub fn write_field<T: FieldText>(f: &mut String, val: &Option<T>)
    ensures
        final(f)@ == old(f)@ + opt_text(*val) + seq![','],
{
    write_opt(f, val);
    push_char(f, ',');
    assert(f@ =~= old(f)@ + opt_text(*val) + seq![',']);
}

} // verus!
