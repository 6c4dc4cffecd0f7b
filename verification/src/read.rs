//! Reading little-endian integers and text out of byte slices.
//!
//! The integers come from the `byteorder` crate and the text from the
//! standard library's UTF-8 conversions; each call stands behind a small
//! function whose contract states what the called function's documentation
//! and source give.
use byteorder::{ByteOrder, LE};
use vstd::prelude::*;
use vstd::utf8::{decode_utf8, valid_utf8};
use vstd::string::StringSliceAdditionalSpecFns;

verus! {

/// The little-endian `u16` in the first two bytes of `b`.
pub open spec fn spec_u16_le(b: Seq<u8>) -> u16 {
    (b[0] as int + b[1] as int * 0x100) as u16
}

/// The little-endian `u32` in the first four bytes of `b`.
pub open spec fn spec_u32_le(b: Seq<u8>) -> u32 {
    (b[0] as int + b[1] as int * 0x100 + b[2] as int * 0x1_0000 + b[3] as int * 0x100_0000) as u32
}

/// The little-endian two's complement `i16` in the first two bytes of `b`.
pub open spec fn spec_i16_le(b: Seq<u8>) -> i16 {
    spec_u16_le(b) as i16
}

/// `byteorder::LittleEndian::read_u16`: the first two bytes of `buf` as a little-endian
/// `u16`. It panics when `buf` is shorter than two bytes, which `requires` rules out.
#[verifier::external_body]
pub(crate) fn read_u16_le(buf: &[u8]) -> (r: u16)
    requires
        buf@.len() >= 2,
    ensures
        r == spec_u16_le(buf@),
{
    LE::read_u16(buf)
}

/// `byteorder::LittleEndian::read_u32`: the first four bytes of `buf` as a little-endian
/// `u32`. It panics when `buf` is shorter than four bytes, which `requires` rules out.
#[verifier::external_body]
pub(crate) fn read_u32_le(buf: &[u8]) -> (r: u32)
    requires
        buf@.len() >= 4,
    ensures
        r == spec_u32_le(buf@),
{
    LE::read_u32(buf)
}

/// `byteorder::LittleEndian::read_i16`: the first two bytes of `buf` as a little-endian
/// `u16`, reinterpreted as an `i16`. It panics when `buf` is shorter than two bytes, which
/// `requires` rules out.
#[verifier::external_body]
pub(crate) fn read_i16_le(buf: &[u8]) -> (r: i16)
    requires
        buf@.len() >= 2,
    ensures
        r == spec_i16_le(buf@),
{
    LE::read_i16(buf)
}

/// `std::str::from_utf8`: `Some` exactly when `v` is valid UTF-8, and then a string slice
/// whose bytes are `v` itself (the `Utf8Error` is dropped).
#[verifier::external_body]
pub(crate) fn str_from_utf8(v: &[u8]) -> (r: Option<&str>)
    ensures
        r is Some <==> valid_utf8(v@),
        r matches Some(s) ==> s.spec_bytes() == v@ && s@ == decode_utf8(v@),
{
    std::str::from_utf8(v).ok()
}

/// The text that `String::from_utf8_lossy` makes of `bytes`: each invalid sequence is
/// replaced by U+FFFD.
pub uninterp spec fn utf8_lossy(bytes: Seq<u8>) -> Seq<char>;

/// `String::from_utf8_lossy`, made an owned `String`: its text is `utf8_lossy(v)`, and, as the
/// documentation states, the text of `v` itself where `v` is valid UTF-8.
#[verifier::external_body]
pub(crate) fn string_from_utf8_lossy(v: &[u8]) -> (r: String)
    ensures
        r@ == utf8_lossy(v@),
        valid_utf8(v@) ==> r@ == decode_utf8(v@),
{
    String::from_utf8_lossy(v).into_owned()
}

} // verus!
