//! Units of a conventionally UTF-8 byte string: a well-formed codepoint, or
//! a maximal run of bytes that cannot begin one.

use vstd::prelude::*;
use vstd::utf8::{
    decode_first_scalar, encode_scalar, has_width_1_encoding, has_width_2_encoding,
    has_width_3_encoding, is_continuation_byte, length_of_first_scalar, valid_first_scalar,
};

verus! {

/// Whether `b` may follow the leading byte `lead` in a well-formed sequence.
/// After `E0`, `ED`, `F0` and `F4` the range is narrower than that of a
/// continuation byte: what is left out would be an overlong form, a
/// surrogate or a value beyond U+10FFFF.
pub open spec fn is_second_byte(lead: u8, b: u8) -> bool {
    if lead == 0xE0 {
        0xA0 <= b <= 0xBF
    } else if lead == 0xED {
        0x80 <= b <= 0x9F
    } else if lead == 0xF0 {
        0x90 <= b <= 0xBF
    } else if lead == 0xF4 {
        0x80 <= b <= 0x8F
    } else {
        0x80 <= b <= 0xBF
    }
}

/// For bytes that do not begin with a well-formed codepoint: the length of
/// the longest prefix that some well-formed sequence begins with, and 1
/// where there is no such prefix.
pub open spec fn invalid_prefix_len(s: Seq<u8>) -> int {
    if !(0xC2 <= s[0] <= 0xF4) || s.len() < 2 || !is_second_byte(s[0], s[1]) {
        1
    } else if s.len() < 3 || !is_continuation_byte(s[2]) {
        2
    } else {
        3
    }
}

/// The first unit of `s`: the codepoint that `s` begins with and the number
/// of bytes that encode it, or no codepoint and the length of the invalid run
/// that `s` begins with. The length is 0 only for the empty string.
pub open spec fn first_unit(s: Seq<u8>) -> (Option<char>, int) {
    if s.len() == 0 {
        (None, 0)
    } else if valid_first_scalar(s) {
        (Some(decode_first_scalar(s) as char), length_of_first_scalar(s))
    } else {
        (None, invalid_prefix_len(s))
    }
}

/// A unit of a non-empty string has at least one byte and lies within the
/// string; a codepoint has at most four bytes, an invalid run at most three.
pub proof fn lemma_first_unit_len(s: Seq<u8>)
    requires
        s.len() > 0,
    ensures
        1 <= first_unit(s).1 <= s.len(),
        first_unit(s).1 <= 4,
        first_unit(s).0 is None ==> first_unit(s).1 <= 3,
{
}

/// A byte below `0x80` at the head is a unit of its own: the codepoint of
/// that number.
pub proof fn lemma_first_unit_ascii(s: Seq<u8>)
    requires
        s.len() > 0,
        s[0] <= 0x7F,
    ensures
        first_unit(s) == (Some(s[0] as char), 1int),
{
    let b = s[0];
    assert((b & 0x7F) as u32 == b as u32) by (bit_vector)
        requires
            b <= 0x7F,
    ;
}

/// Decodes the first unit of `bytes`.
///
/// Calls `bstr::decode_utf8`. Claimed of it: for the empty slice it returns no
/// codepoint and 0; where the slice begins with a well-formed UTF-8 sequence,
/// the scalar value that the sequence encodes and its length, 1 to 4; else no
/// codepoint and the length, 1 to 3, of the longest prefix that a well-formed
/// sequence could begin with, 1 where there is none.
#[verifier::external_body]
pub(crate) fn decode_utf8(bytes: &[u8]) -> (r: (Option<char>, usize))
    ensures
        r.0 == first_unit(bytes@).0,
        r.1 == first_unit(bytes@).1,
{
    bstr::decode_utf8(bytes)
}

/// Writes the UTF-8 encoding of `c` to the front of `buf` and returns its
/// length. The bytes behind the encoding keep their values.
pub fn encode_utf8(c: char, buf: &mut [u8; 4]) -> (n: usize)
    ensures
        1 <= n <= 4,
        n == encode_scalar(c as u32).len(),
        final(buf)@.subrange(0, n as int) == encode_scalar(c as u32),
        forall|i: int| n <= i < 4 ==> final(buf)@[i] == old(buf)@[i],
    no_unwind
{
    let v: u32 = c as u32;
    if v <= 0x7F {
        assert((v & 0x7F) < 0x100) by (bit_vector);
        buf[0] = (v & 0x7F) as u8;
        assert(buf@.subrange(0, 1) =~= encode_scalar(v));
        1
    } else if v <= 0x7FF {
        assert(((v >> 6) & 0x1F) < 0x100 && (v & 0x3F) < 0x100) by (bit_vector);
        buf[0] = 0xC0 | ((v >> 6) & 0x1F) as u8;
        buf[1] = 0x80 | (v & 0x3F) as u8;
        assert(buf@.subrange(0, 2) =~= encode_scalar(v));
        2
    } else if v <= 0xFFFF {
        assert(((v >> 12) & 0x0F) < 0x100 && ((v >> 6) & 0x3F) < 0x100 && (v & 0x3F) < 0x100)
            by (bit_vector);
        buf[0] = 0xE0 | ((v >> 12) & 0x0F) as u8;
        buf[1] = 0x80 | ((v >> 6) & 0x3F) as u8;
        buf[2] = 0x80 | (v & 0x3F) as u8;
        assert(has_width_3_encoding(v));
        assert(buf@.subrange(0, 3) =~= encode_scalar(v));
        3
    } else {
        assert(((v >> 18) & 0x7) < 0x100 && ((v >> 12) & 0x3F) < 0x100 && ((v >> 6) & 0x3F)
            < 0x100 && (v & 0x3F) < 0x100) by (bit_vector);
        buf[0] = 0xF0 | ((v >> 18) & 0x7) as u8;
        buf[1] = 0x80 | ((v >> 12) & 0x3F) as u8;
        buf[2] = 0x80 | ((v >> 6) & 0x3F) as u8;
        buf[3] = 0x80 | (v & 0x3F) as u8;
        assert(!has_width_1_encoding(v) && !has_width_2_encoding(v) && !has_width_3_encoding(v));
        assert(buf@.subrange(0, 4) =~= encode_scalar(v));
        4
    }
}

} // verus!
