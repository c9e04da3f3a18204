//! Fixed-capacity strings and vectors of the `arrayvec` and `heapless` crates.
//!
//! Their contents are opaque to the verifier; each instance used by the
//! library gets a name for what it holds, and the calls the library makes
//! get contracts over that name.

use vstd::prelude::*;
use vstd::string::StringSliceAdditionalSpecFns;
use arrayvec::ArrayString;

use crate::sentences::faa_mode::FaaMode;
use crate::sentences::xdr::XdrMeasurement;

verus! {

#[verifier::external_type_specification]
#[verifier::external_body]
pub struct ExArrayString<const CAP: usize>(ArrayString<CAP>);

#[verifier::external_type_specification]
#[verifier::external_body]
#[verifier::reject_recursive_types(T)]
pub struct ExHeaplessVec<T, const N: usize>(heapless::Vec<T, N>);

#[verifier::external_type_specification]
#[verifier::external_body]
pub struct ExHeaplessString<const N: usize>(heapless::String<N>);

/// The characters an `ArrayString<64>` holds.
pub uninterp spec fn chars64(s: ArrayString<64>) -> Seq<char>;

/// `ArrayString::<64>::from`: makes a string holding `s`; it fails exactly
/// when the UTF-8 bytes of `s` exceed the capacity of 64.
#[verifier::external_body]
pub(crate) fn array_string64(s: &str) -> (r: Option<ArrayString<64>>)
    ensures
        r is Some <==> s.spec_bytes().len() <= 64,
        r matches Some(a) ==> chars64(a) == s@,
{
    ArrayString::<64>::from(s).ok()
}

/// `ArrayString::<64>::as_str`: the string slice of everything it holds.
#[verifier::external_body]
pub(crate) fn as_str64(a: &ArrayString<64>) -> (r: &str)
    ensures
        r@ == chars64(*a),
{
    a.as_str()
}

/// The characters an `ArrayString<82>` holds.
pub uninterp spec fn chars82(s: ArrayString<82>) -> Seq<char>;

/// `ArrayString::<82>::from`: makes a string holding `s`; it fails exactly
/// when the UTF-8 bytes of `s` exceed the capacity of 82.
#[verifier::external_body]
pub(crate) fn array_string82(s: &str) -> (r: Option<ArrayString<82>>)
    ensures
        r is Some <==> s.spec_bytes().len() <= 82,
        r matches Some(a) ==> chars82(a) == s@,
{
    ArrayString::<82>::from(s).ok()
}

/// `ArrayString::<82>::as_str`: the string slice of everything it holds.
#[verifier::external_body]
pub(crate) fn as_str82(a: &ArrayString<82>) -> (r: &str)
    ensures
        r@ == chars82(*a),
{
    a.as_str()
}

/// The characters an `ArrayString<10>` holds.
pub uninterp spec fn chars10(s: ArrayString<10>) -> Seq<char>;

/// `ArrayString::<10>::from`: makes a string holding `s`; it fails exactly
/// when the UTF-8 bytes of `s` exceed the capacity of 10.
#[verifier::external_body]
pub(crate) fn array_string10(s: &str) -> (r: Option<ArrayString<10>>)
    ensures
        r is Some <==> s.spec_bytes().len() <= 10,
        r matches Some(a) ==> chars10(a) == s@,
{
    ArrayString::<10>::from(s).ok()
}

/// `ArrayString::<10>::as_str`: the string slice of everything it holds.
#[verifier::external_body]
pub(crate) fn as_str10(a: &ArrayString<10>) -> (r: &str)
    ensures
        r@ == chars10(*a),
{
    a.as_str()
}

/// The characters an `ArrayString<4>` holds.
pub uninterp spec fn chars4(s: ArrayString<4>) -> Seq<char>;

/// `ArrayString::<4>::from`: makes a string holding `s`; it fails exactly
/// when the UTF-8 bytes of `s` exceed the capacity of 4.
#[verifier::external_body]
pub(crate) fn array_string4(s: &str) -> (r: Option<ArrayString<4>>)
    ensures
        r is Some <==> s.spec_bytes().len() <= 4,
        r matches Some(a) ==> chars4(a) == s@,
{
    ArrayString::<4>::from(s).ok()
}

/// `ArrayString::<4>::as_str`: the string slice of everything it holds.
#[verifier::external_body]
pub(crate) fn as_str4(a: &ArrayString<4>) -> (r: &str)
    ensures
        r@ == chars4(*a),
{
    a.as_str()
}

/// The characters an `ArrayString<16>` holds.
pub uninterp spec fn chars16(s: ArrayString<16>) -> Seq<char>;

/// `ArrayString::<16>::from`: makes a string holding `s`; it fails exactly
/// when the UTF-8 bytes of `s` exceed the capacity of 16.
#[verifier::external_body]
pub(crate) fn array_string16(s: &str) -> (r: Option<ArrayString<16>>)
    ensures
        r is Some <==> s.spec_bytes().len() <= 16,
        r matches Some(a) ==> chars16(a) == s@,
{
    ArrayString::<16>::from(s).ok()
}

/// `ArrayString::<16>::as_str`: the string slice of everything it holds.
#[verifier::external_body]
pub(crate) fn as_str16(a: &ArrayString<16>) -> (r: &str)
    ensures
        r@ == chars16(*a),
{
    a.as_str()
}

/// The items a `heapless::Vec<u8, 18>` holds, in order.
pub uninterp spec fn bytes18(v: heapless::Vec<u8, 18>) -> Seq<u8>;

/// `heapless::Vec::<u8, 18>::as_slice`: the items it holds.
#[verifier::external_body]
pub(crate) fn bytes18_as_slice(v: &heapless::Vec<u8, 18>) -> (r: &[u8])
    ensures
        r@ == bytes18(*v),
{
    v.as_slice()
}

/// `heapless::Vec::<u8, 18>::new`: an empty vector.
#[verifier::external_body]
pub(crate) fn bytes18_new() -> (r: heapless::Vec<u8, 18>)
    ensures
        bytes18(r) == Seq::<u8>::empty(),
{
    heapless::Vec::new()
}

/// `heapless::Vec::<u8, 18>::push`: appends the item when fewer than 18 are
/// held, and otherwise hands it back and leaves the vector as it was.
#[verifier::external_body]
pub(crate) fn bytes18_push(v: &mut heapless::Vec<u8, 18>, x: u8) -> (r: bool)
    ensures
        r <==> bytes18(*old(v)).len() < 18,
        r ==> bytes18(*final(v)) == bytes18(*old(v)).push(x),
        !r ==> bytes18(*final(v)) == bytes18(*old(v)),
{
    v.push(x).is_ok()
}

/// The items a `heapless::Vec<u32, 18>` holds, in order.
pub uninterp spec fn prns18(v: heapless::Vec<u32, 18>) -> Seq<u32>;

/// `heapless::Vec::<u32, 18>::from_slice`: a vector holding a copy of the
/// items; it fails exactly when there are more than 18 of them.
#[verifier::external_body]
pub(crate) fn prns18_from_slice(items: &[u32]) -> (r: Option<heapless::Vec<u32, 18>>)
    ensures
        r is Some <==> items@.len() <= 18,
        r matches Some(v) ==> prns18(v) == items@,
{
    heapless::Vec::<u32, 18>::from_slice(items).ok()
}

/// `heapless::Vec::<u32, 18>::as_slice`: the items it holds.
#[verifier::external_body]
pub(crate) fn prns18_as_slice(v: &heapless::Vec<u32, 18>) -> (r: &[u32])
    ensures
        r@ == prns18(*v),
{
    v.as_slice()
}

/// The items a `heapless::Vec<FaaMode, 6>` holds, in order.
pub uninterp spec fn modes6(v: heapless::Vec<FaaMode, 6>) -> Seq<FaaMode>;

/// `heapless::Vec::<FaaMode, 6>::from_slice`: a vector holding a copy of the
/// items; it fails exactly when there are more than 6 of them.
#[verifier::external_body]
pub(crate) fn modes6_from_slice(items: &[FaaMode]) -> (r: Option<heapless::Vec<FaaMode, 6>>)
    ensures
        r is Some <==> items@.len() <= 6,
        r matches Some(v) ==> modes6(v) == items@,
{
    heapless::Vec::<FaaMode, 6>::from_slice(items).ok()
}

/// `heapless::Vec::<FaaMode, 6>::as_slice`: the items it holds.
#[verifier::external_body]
pub(crate) fn modes6_as_slice(v: &heapless::Vec<FaaMode, 6>) -> (r: &[FaaMode])
    ensures
        r@ == modes6(*v),
{
    v.as_slice()
}

/// The measurements a `heapless::Vec<XdrMeasurement, 8>` holds, in order.
pub uninterp spec fn measurements8(v: heapless::Vec<XdrMeasurement, 8>) -> Seq<XdrMeasurement>;

/// `heapless::Vec::<XdrMeasurement, 8>::new`: an empty vector.
#[verifier::external_body]
pub(crate) fn measurements8_new() -> (r: heapless::Vec<XdrMeasurement, 8>)
    ensures
        measurements8(r) == Seq::<XdrMeasurement>::empty(),
{
    heapless::Vec::new()
}

/// `heapless::Vec::<XdrMeasurement, 8>::push`: appends the item when fewer
/// than 8 are held, and otherwise hands it back and leaves the vector as it was.
#[verifier::external_body]
pub(crate) fn measurements8_push(v: &mut heapless::Vec<XdrMeasurement, 8>, x: XdrMeasurement) -> (r: bool)
    ensures
        r <==> measurements8(*old(v)).len() < 8,
        r ==> measurements8(*final(v)) == measurements8(*old(v)).push(x),
        !r ==> measurements8(*final(v)) == measurements8(*old(v)),
{
    v.push(x).is_ok()
}

/// `heapless::Vec::<XdrMeasurement, 8>::as_slice`: the measurements it holds.
#[verifier::external_body]
pub(crate) fn measurements8_as_slice(v: &heapless::Vec<XdrMeasurement, 8>) -> (r: &[XdrMeasurement])
    ensures
        r@ == measurements8(*v),
{
    v.as_slice()
}

/// The characters a `heapless::String<32>` holds.
pub uninterp spec fn chars_h32(s: heapless::String<32>) -> Seq<char>;

/// `heapless::String::<32>::try_from`: a string holding `s`; it fails
/// exactly when the UTF-8 bytes of `s` exceed the capacity of 32.
#[verifier::external_body]
pub(crate) fn heapless_string32(s: &str) -> (r: Option<heapless::String<32>>)
    ensures
        r is Some <==> s.spec_bytes().len() <= 32,
        r matches Some(a) ==> chars_h32(a) == s@,
{
    heapless::String::<32>::try_from(s).ok()
}

/// `heapless::String::<32>::as_str`: the string slice of everything it holds.
#[verifier::external_body]
pub(crate) fn as_str_h32(a: &heapless::String<32>) -> (r: &str)
    ensures
        r@ == chars_h32(*a),
{
    a.as_str()
}

/// The characters a `heapless::String<102>` holds.
pub uninterp spec fn chars_h102(s: heapless::String<102>) -> Seq<char>;

/// `heapless::String::<102>::new`: an empty string.
#[verifier::external_body]
pub(crate) fn heapless_string102_new() -> (r: heapless::String<102>)
    ensures
        chars_h102(r) == Seq::<char>::empty(),
{
    heapless::String::<102>::new()
}

/// `heapless::String::<102>::push`: appends `c` when its UTF-8 bytes fit in
/// what is left of the 102 bytes, and leaves the string as it was
/// otherwise; `true` when it appended.
#[verifier::external_body]
pub(crate) fn heapless_string102_push(s: &mut heapless::String<102>, c: char) -> (r: bool)
    ensures
        r == (crate::text::utf8_len(chars_h102(*old(s))) + crate::text::utf8_width(c) <= 102),
        r ==> chars_h102(*final(s)) == chars_h102(*old(s)).push(c),
        !r ==> chars_h102(*final(s)) == chars_h102(*old(s)),
{
    s.push(c).is_ok()
}

/// `heapless::String::<102>::as_str`: the string slice of everything it holds.
#[verifier::external_body]
pub(crate) fn as_str_h102(s: &heapless::String<102>) -> (r: &str)
    ensures
        r@ == chars_h102(*s),
{
    s.as_str()
}

/// `Clone::clone` of `ArrayString`, which returns a copy of the value itself.
pub assume_specification<const CAP: usize> [<ArrayString<CAP> as Clone>::clone] (s: &ArrayString<CAP>) -> (r: ArrayString<CAP>)
    ensures
        r == *s,
;

/// `Clone::clone` of `heapless::Vec`, which clones each item; nothing is
/// stated of the result, since the items' own `clone` decides it.
pub assume_specification<T, const N: usize> [<heapless::Vec<T, N> as Clone>::clone] (v: &heapless::Vec<T, N>) -> heapless::Vec<T, N>
    where
        T: Clone,
;

/// `Clone::clone` of `heapless::String`; nothing is stated of the result.
pub assume_specification<const N: usize> [<heapless::String<N> as Clone>::clone] (s: &heapless::String<N>) -> heapless::String<N>;

} // verus!
