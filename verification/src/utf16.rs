//! UTF-16 decoding (as `String::from_utf16` does it) and encoding (as
//! `str::encode_utf16` does it), both proved against a recursive definition.
use vstd::prelude::*;

use crate::text::{char_from_u32, push_char};

verus! {

broadcast use vstd::utf8::char_u32_cast, vstd::utf8::char_is_scalar;

/// A unit that is a character on its own.
pub open spec fn is_single_unit(u: u16) -> bool {
    u < 0xD800 || u > 0xDFFF
}

/// A leading (high) surrogate.
pub open spec fn is_high_surrogate(u: u16) -> bool {
    0xD800 <= u && u <= 0xDBFF
}

/// A trailing (low) surrogate.
pub open spec fn is_low_surrogate(u: u16) -> bool {
    0xDC00 <= u && u <= 0xDFFF
}

/// The code point of a surrogate pair.
pub open spec fn pair_code_point(hi: u16, lo: u16) -> u32 {
    (0x10000 + (hi - 0xD800) * 0x400 + (lo - 0xDC00)) as u32
}

/// Strict UTF-16 decoding: `None` as soon as a surrogate is unpaired.
pub open spec fn utf16_decode(units: Seq<u16>) -> Option<Seq<char>>
    decreases units.len(),
{
    if units.len() == 0 {
        Some(Seq::empty())
    } else if is_single_unit(units[0]) {
        match utf16_decode(units.drop_first()) {
            Some(rest) => Some(seq![(units[0] as u32) as char] + rest),
            None => None,
        }
    } else if is_high_surrogate(units[0]) && units.len() >= 2 && is_low_surrogate(units[1]) {
        match utf16_decode(units.subrange(2, units.len() as int)) {
            Some(rest) => Some(seq![pair_code_point(units[0], units[1]) as char] + rest),
            None => None,
        }
    } else {
        None
    }
}

/// The UTF-16 units of one character.
pub open spec fn utf16_encode_char(c: char) -> Seq<u16> {
    let v = c as u32;
    if v < 0x10000 {
        seq![v as u16]
    } else {
        seq![(0xD800 + (v - 0x10000) / 0x400) as u16, (0xDC00 + (v - 0x10000) % 0x400) as u16]
    }
}

/// UTF-16 encoding of a character sequence.
pub open spec fn utf16_encode(cs: Seq<char>) -> Seq<u16>
    decreases cs.len(),
{
    if cs.len() == 0 {
        Seq::empty()
    } else {
        utf16_encode_char(cs[0]) + utf16_encode(cs.drop_first())
    }
}

/// Decodes UTF-16 units into a `String`; `None` when a surrogate is unpaired.
pub fn decode_utf16(units: &[u16]) -> (r: Option<String>)
    ensures
        r is Some <==> utf16_decode(units@) is Some,
        r matches Some(s) ==> utf16_decode(units@) == Some(s@),
{
    let n = units.len();
    let mut out = String::new();
    let mut i: usize = 0;
    assert(units@.skip(0) =~= units@);
    proof {
        match utf16_decode(units@) {
            Some(rest) => {
                assert(out@ + rest =~= rest);
            },
            None => {},
        }
    }
    while i < n
        invariant
            n == units@.len(),
            i <= n,
            utf16_decode(units@) == match utf16_decode(units@.skip(i as int)) {
                Some(rest) => Some(out@ + rest),
                None => None::<Seq<char>>,
            },
        decreases n - i,
    {
        let ghost tail = units@.skip(i as int);
        let u = units[i];
        if u < 0xD800 || u > 0xDFFF {
            assert(tail.drop_first() =~= units@.skip(i + 1));
            let c = char_from_u32(u as u32);
            match c {
                Some(c) => {
                    proof {
                        let w = u as u32;
                        vstd::utf8::char_u32_cast(c, w);
                    }
                    let ghost before = out@;
                    push_char(&mut out, c);
                    proof {
                        match utf16_decode(units@.skip(i + 1)) {
                            Some(rest) => {
                                assert(before + (seq![c] + rest) =~= out@ + rest);
                            },
                            None => {},
                        }
                    }
                    i = i + 1;
                },
                None => {
                    return None;
                },
            }
        } else if u <= 0xDBFF && i + 1 < n && units[i + 1] >= 0xDC00 && units[i + 1] <= 0xDFFF {
            let lo = units[i + 1];
            assert(tail.subrange(2, tail.len() as int) =~= units@.skip(i + 2));
            let v: u32 = 0x10000 + (u as u32 - 0xD800) * 0x400 + (lo as u32 - 0xDC00);
            assert(v == pair_code_point(u, lo));
            let c = char_from_u32(v);
            match c {
                Some(c) => {
                    proof {
                        vstd::utf8::char_u32_cast(c, v);
                    }
                    let ghost before = out@;
                    push_char(&mut out, c);
                    proof {
                        match utf16_decode(units@.skip(i + 2)) {
                            Some(rest) => {
                                assert(before + (seq![c] + rest) =~= out@ + rest);
                            },
                            None => {},
                        }
                    }
                    i = i + 2;
                },
                None => {
                    return None;
                },
            }
        } else {
            return None;
        }
    }
    assert(units@.skip(n as int) =~= Seq::<u16>::empty());
    assert(out@ + Seq::<char>::empty() =~= out@);
    Some(out)
}


/// Encodes a character sequence into UTF-16 units.
pub fn encode_utf16(cs: &Vec<char>) -> (r: Vec<u16>)
    ensures
        r@ == utf16_encode(cs@),
{
    let n = cs.len();
    let mut out: Vec<u16> = Vec::new();
    let mut i: usize = 0;
    assert(cs@.skip(0) =~= cs@);
    assert(out@ + utf16_encode(cs@) =~= utf16_encode(cs@));
    while i < n
        invariant
            n == cs@.len(),
            i <= n,
            utf16_encode(cs@) == out@ + utf16_encode(cs@.skip(i as int)),
        decreases n - i,
    {
        let ghost before = out@;
        let c = cs[i];
        let v = c as u32;
        proof {
            vstd::utf8::char_is_scalar(c);
        }
        if v < 0x10000 {
            out.push(v as u16);
        } else {
            let w = v - 0x10000;
            assert(w / 0x400 < 0x400) by (nonlinear_arith)
                requires
                    w <= 0xFFFFF,
            ;
            out.push((0xD800 + w / 0x400) as u16);
            out.push((0xDC00 + w % 0x400) as u16);
        }
        assert(cs@.skip(i as int).drop_first() =~= cs@.skip(i + 1));
        assert(out@ =~= before + utf16_encode_char(c));
        assert(utf16_encode(cs@.skip(i as int)) == utf16_encode_char(c) + utf16_encode(cs@.skip(i + 1)));
        assert(before + (utf16_encode_char(c) + utf16_encode(cs@.skip(i + 1))) =~= out@ + utf16_encode(cs@.skip(i + 1)));
        i = i + 1;
    }
    assert(cs@.skip(n as int) =~= Seq::<char>::empty());
    assert(out@ + Seq::<u16>::empty() =~= out@);
    out
}

/// Decoding what encoding produced gives back the characters that were
/// encoded.
pub proof fn lemma_utf16_round_trip(cs: Seq<char>)
    ensures
        utf16_decode(utf16_encode(cs)) == Some(cs),
    decreases cs.len(),
{
    if cs.len() > 0 {
        let c = cs[0];
        let v = c as u32;
        let rest = cs.drop_first();
        let e = utf16_encode(cs);
        lemma_utf16_round_trip(rest);
        vstd::utf8::char_is_scalar(c);
        vstd::utf8::char_u32_cast(c, v);
        if v < 0x10000 {
            assert(e.drop_first() =~= utf16_encode(rest));
            assert(((v as u16) as u32) == v);
            assert(seq![c] + rest =~= cs);
        } else {
            let w = (v - 0x10000) as u32;
            let hi = (0xD800 + w / 0x400) as u16;
            let lo = (0xDC00 + w % 0x400) as u16;
            assert(w / 0x400 < 0x400 && w % 0x400 < 0x400 && (w / 0x400) * 0x400 + w % 0x400 == w)
                by (nonlinear_arith)
                requires
                    w <= 0xFFFFF,
            ;
            assert(e[0] == hi && e[1] == lo);
            assert(pair_code_point(hi, lo) == v);
            assert(e.subrange(2, e.len() as int) =~= utf16_encode(rest));
            assert(seq![c] + rest =~= cs);
        }
    } else {
        assert(utf16_encode(cs) =~= Seq::<u16>::empty());
    }
}

} // verus!
