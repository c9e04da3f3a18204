//! Text fields kept in fixed-capacity strings: waypoint ids, target names
//! and the like. A field that does not fit its capacity is rejected.

use vstd::prelude::*;
use vstd::string::*;
use arrayvec::ArrayString;

use crate::bounded::{array_string64, chars64, heapless_string32, chars_h32};
use crate::text::{lemma_utf8_len_is_encoding_len, utf8_len, win};

verus! {

/// An optional text field of at most `cap` UTF-8 bytes: empty gives
/// `Some(None)`, a text that fits gives it, a longer one `None`.
pub open spec fn opt_text_field(f: Seq<char>, cap: nat) -> Option<Option<Seq<char>>> {
    if f.len() == 0 {
        Some(None)
    } else if utf8_len(f) <= cap {
        Some(Some(f))
    } else {
        None
    }
}

/// The optional text of a field already known to fit.
pub open spec fn ftext(f: Seq<char>, cap: nat) -> Option<Seq<char>> {
    opt_text_field(f, cap).unwrap()
}

/// The characters of an optional string of capacity 64.
pub open spec fn opt_chars64(o: Option<ArrayString<64>>) -> Option<Seq<char>> {
    match o {
        Some(a) => Some(chars64(a)),
        None => None,
    }
}

/// The characters of an optional string of capacity 32.
pub open spec fn opt_chars_h32(o: Option<heapless::String<32>>) -> Option<Seq<char>> {
    match o {
        Some(a) => Some(chars_h32(a)),
        None => None,
    }
}

/// The text an optional name is written as: nothing when absent.
pub open spec fn opt_name_chars(o: Option<Seq<char>>) -> Seq<char> {
    match o {
        Some(t) => t,
        None => Seq::empty(),
    }
}

/// Reads the window `s[a..b]` of `data` into a string of capacity 64;
/// see [`opt_text_field`].
pub fn read_text64(data: &str, s: &Vec<char>, a: usize, b: usize) -> (r: Option<Option<ArrayString<64>>>)
    requires
        s@ == data@,
        a <= b <= s.len(),
    ensures
        match (r, opt_text_field(win(s@, a as int, b as int), 64)) {
            (Some(o), Some(v)) => opt_chars64(o) == v,
            (None, None) => true,
            _ => false,
        },
{
    if a == b {
        return Some(None);
    }
    let t = data.substring_char(a, b);
    proof {
        lemma_utf8_len_is_encoding_len(t@);
        assert(t@ =~= win(s@, a as int, b as int));
    }
    match array_string64(t) {
        Some(x) => Some(Some(x)),
        None => None,
    }
}

/// Reads the window `s[a..b]` of `data` into a string of capacity 32;
/// see [`opt_text_field`].
pub fn read_text_h32(data: &str, s: &Vec<char>, a: usize, b: usize) -> (r: Option<Option<heapless::String<32>>>)
    requires
        s@ == data@,
        a <= b <= s.len(),
    ensures
        match (r, opt_text_field(win(s@, a as int, b as int), 32)) {
            (Some(o), Some(v)) => opt_chars_h32(o) == v,
            (None, None) => true,
            _ => false,
        },
{
    if a == b {
        return Some(None);
    }
    let t = data.substring_char(a, b);
    proof {
        lemma_utf8_len_is_encoding_len(t@);
        assert(t@ =~= win(s@, a as int, b as int));
    }
    match heapless_string32(t) {
        Some(x) => Some(Some(x)),
        None => None,
    }
}

} // verus!
