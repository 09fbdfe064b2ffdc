//! Strict UTF-8 decoding (as `std::str::from_utf8` does it), proved against
//! vstd's definition of well-formed UTF-8.
use vstd::prelude::*;
use vstd::utf8::{
    codepoint_width_1, codepoint_width_2, codepoint_width_3, codepoint_width_4, decode_first_scalar,
    decode_utf8, length_of_first_scalar, pop_first_scalar, valid_first_scalar, valid_utf8,
};

use crate::text::{char_from_u32, push_char};

verus! {

broadcast use vstd::utf8::char_u32_cast;

proof fn lemma_width_1_bound(b0: u8)
    ensures
        codepoint_width_1(b0) <= 0x7F,
{
    assert(((b0 & 0x7F) as u32) <= 0x7F) by (bit_vector);
}

proof fn lemma_width_2_bound(b0: u8, b1: u8)
    ensures
        codepoint_width_2(b0, b1) <= 0x7FF,
{
    assert(((((b0 & 0x1F) as u32) << 6u32) | ((b1 & 0x3f) as u32)) <= 0x7FF) by (bit_vector);
}

proof fn lemma_width_3_bound(b0: u8, b1: u8, b2: u8)
    ensures
        codepoint_width_3(b0, b1, b2) <= 0xFFFF,
{
    assert(((((b0 & 0x0F) as u32) << 12u32) | (((b1 & 0x3f) as u32) << 6u32) | ((b2 & 0x3f) as u32)) <= 0xFFFF)
        by (bit_vector);
}

/// Decodes the first scalar of `bytes[i..]`: its character and length, or
/// `None` when those bytes do not start with a well-formed encoding.
fn decode_scalar_at(bytes: &[u8], i: usize) -> (r: Option<(char, usize)>)
    requires
        i < bytes@.len(),
    ensures
        r is Some <==> valid_first_scalar(bytes@.skip(i as int)),
        r matches Some((c, k)) ==> c as u32 == decode_first_scalar(bytes@.skip(i as int))
            && k == length_of_first_scalar(bytes@.skip(i as int)),
{
    let ghost rest = bytes@.skip(i as int);
    let n = bytes.len();
    let b0 = bytes[i];
    assert(rest[0] == b0);
    let (cp, k): (u32, usize) = if b0 <= 0x7f {
        let cp: u32 = (b0 & 0x7F) as u32;
        proof {
            lemma_width_1_bound(b0);
        }
        (cp, 1)
    } else if 0xc0 <= b0 && b0 <= 0xdf {
        if n - i < 2 || !(0x80 <= bytes[i + 1] && bytes[i + 1] <= 0xbf) {
            return None;
        }
        let b1 = bytes[i + 1];
        assert(rest[1] == b1);
        let cp: u32 = (((b0 & 0x1F) as u32) << 6u32) | ((b1 & 0x3f) as u32);
        assert(cp == codepoint_width_2(b0, b1));
        proof {
            lemma_width_2_bound(b0, b1);
        }
        (cp, 2)
    } else if 0xe0 <= b0 && b0 <= 0xef {
        if n - i < 3 || !(0x80 <= bytes[i + 1] && bytes[i + 1] <= 0xbf) || !(0x80 <= bytes[i + 2]
            && bytes[i + 2] <= 0xbf) {
            return None;
        }
        let b1 = bytes[i + 1];
        let b2 = bytes[i + 2];
        assert(rest[1] == b1 && rest[2] == b2);
        let cp: u32 = (((b0 & 0x0F) as u32) << 12u32) | (((b1 & 0x3f) as u32) << 6u32) | ((b2 & 0x3f) as u32);
        assert(cp == codepoint_width_3(b0, b1, b2));
        proof {
            lemma_width_3_bound(b0, b1, b2);
        }
        (cp, 3)
    } else if 0xf0 <= b0 && b0 <= 0xf7 {
        if n - i < 4 || !(0x80 <= bytes[i + 1] && bytes[i + 1] <= 0xbf) || !(0x80 <= bytes[i + 2]
            && bytes[i + 2] <= 0xbf) || !(0x80 <= bytes[i + 3] && bytes[i + 3] <= 0xbf) {
            return None;
        }
        let b1 = bytes[i + 1];
        let b2 = bytes[i + 2];
        let b3 = bytes[i + 3];
        assert(rest[1] == b1 && rest[2] == b2 && rest[3] == b3);
        let cp: u32 = (((b0 & 0x07) as u32) << 18u32) | (((b1 & 0x3f) as u32) << 12u32) | (((b2 & 0x3f) as u32)
            << 6u32) | ((b3 & 0x3f) as u32);
        assert(cp == codepoint_width_4(b0, b1, b2, b3));
        (cp, 4)
    } else {
        return None;
    };
    let overlong = (k == 2 && cp < 0x80) || (k == 3 && cp < 0x800) || (k == 4 && (cp < 0x10000 || cp
        > 0x10ffff));
    if overlong || (0xD800 <= cp && cp <= 0xDFFF) {
        return None;
    }
    match char_from_u32(cp) {
        Some(c) => Some((c, k)),
        None => None,
    }
}

/// Decodes UTF-8 bytes into a `String`; `None` when they are not
/// well-formed UTF-8.
pub fn decode_utf8_bytes(bytes: &[u8]) -> (r: Option<String>)
    ensures
        r is Some <==> valid_utf8(bytes@),
        r matches Some(s) ==> s@ == decode_utf8(bytes@),
{
    let n = bytes.len();
    let mut out = String::new();
    let mut i: usize = 0;
    assert(bytes@.skip(0) =~= bytes@);
    while i < n
        invariant
            n == bytes@.len(),
            i <= n,
            valid_utf8(bytes@) <==> valid_utf8(bytes@.skip(i as int)),
            valid_utf8(bytes@) ==> decode_utf8(bytes@) == out@ + decode_utf8(bytes@.skip(i as int)),
        decreases n - i,
    {
        let ghost rest = bytes@.skip(i as int);
        match decode_scalar_at(bytes, i) {
            None => {
                assert(!valid_utf8(rest));
                return None;
            },
            Some((c, k)) => {
                assert(pop_first_scalar(rest) =~= bytes@.skip(i + k));
                let ghost before = out@;
                push_char(&mut out, c);
                proof {
                    if valid_utf8(bytes@) {
                        vstd::utf8::char_u32_cast(c, decode_first_scalar(rest));
                        assert(decode_utf8(rest) == seq![c] + decode_utf8(bytes@.skip(i + k)));
                        assert(before + (seq![c] + decode_utf8(bytes@.skip(i + k))) =~= out@ + decode_utf8(
                            bytes@.skip(i + k),
                        ));
                    }
                }
                i = i + k;
            },
        }
    }
    assert(bytes@.skip(n as int) =~= Seq::<u8>::empty());
    assert(out@ + Seq::<char>::empty() =~= out@);
    Some(out)
}

} // verus!
