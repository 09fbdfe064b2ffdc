//! Character-level helpers: building strings, hexadecimal and decimal
//! renderings of integers.
use vstd::prelude::*;
use vstd::string::StrSliceExecFns;

verus! {

/// Appends `c` to `s` through `String::push`.
///
/// Trusted: `String::push` appends exactly one character at the end.
#[verifier::external_body]
pub(crate) fn push_char(s: &mut String, c: char)
    ensures
        final(s)@ == old(s)@.push(c),
{
    s.push(c);
}

/// Unicode scalar values: everything up to `0x10FFFF` except the surrogates.
pub open spec fn is_unicode_scalar(v: u32) -> bool {
    v <= 0x10FFFF && !(0xD800 <= v && v <= 0xDFFF)
}

/// Converts a code point with `char::from_u32`.
///
/// Trusted: `char::from_u32` returns `Some` exactly for Unicode scalar values,
/// and the returned character has that code point.
#[verifier::external_body]
pub(crate) fn char_from_u32(v: u32) -> (r: Option<char>)
    ensures
        r is Some <==> is_unicode_scalar(v),
        r matches Some(c) ==> c as u32 == v,
{
    char::from_u32(v)
}

/// The lower-case hexadecimal digit for `d` (`d < 16`).
pub open spec fn hex_digit(d: nat) -> char {
    if d == 0 { '0' } else if d == 1 { '1' } else if d == 2 { '2' } else if d == 3 { '3' }
    else if d == 4 { '4' } else if d == 5 { '5' } else if d == 6 { '6' } else if d == 7 { '7' }
    else if d == 8 { '8' } else if d == 9 { '9' } else if d == 10 { 'a' } else if d == 11 { 'b' }
    else if d == 12 { 'c' } else if d == 13 { 'd' } else if d == 14 { 'e' } else { 'f' }
}

/// Lower-case hexadecimal rendering of `n` without padding (the `{:x}` format).
pub open spec fn hex_text(n: nat) -> Seq<char>
    decreases n,
{
    if n < 16 {
        seq![hex_digit(n)]
    } else {
        hex_text(n / 16).push(hex_digit(n % 16))
    }
}

/// The last `width` hexadecimal digits of `n`, zero-padded (the `{:0Wx}`
/// format when `n < 16^width`).
pub open spec fn hex_text_padded(n: nat, width: nat) -> Seq<char>
    decreases width,
{
    if width == 0 {
        Seq::empty()
    } else {
        hex_text_padded(n / 16, (width - 1) as nat).push(hex_digit(n % 16))
    }
}

/// Decimal rendering of `n` (the `{}` format of an unsigned integer).
pub open spec fn decimal_text(n: nat) -> Seq<char>
    decreases n,
{
    if n < 10 {
        seq![hex_digit(n)]
    } else {
        decimal_text(n / 10).push(hex_digit(n % 10))
    }
}

fn hex_digit_char(d: u64) -> (c: char)
    requires
        d < 16,
    ensures
        c == hex_digit(d as nat),
{
    match d {
        0 => '0',
        1 => '1',
        2 => '2',
        3 => '3',
        4 => '4',
        5 => '5',
        6 => '6',
        7 => '7',
        8 => '8',
        9 => '9',
        10 => 'a',
        11 => 'b',
        12 => 'c',
        13 => 'd',
        14 => 'e',
        _ => 'f',
    }
}

/// Appends the `{:x}` rendering of `n`.
pub fn push_hex(s: &mut String, n: u64)
    ensures
        final(s)@ == old(s)@ + hex_text(n as nat),
    decreases n,
{
    if n >= 16 {
        push_hex(s, n / 16);
    }
    push_char(s, hex_digit_char(n % 16));
    proof {
        if n >= 16 {
            assert(hex_text(n as nat) == hex_text((n / 16) as nat).push(hex_digit((n % 16) as nat)));
        }
        assert(final(s)@ =~= old(s)@ + hex_text(n as nat));
    }
}

/// Appends the zero-padded `width`-digit hexadecimal rendering of `n`.
pub fn push_hex_padded(s: &mut String, n: u64, width: u32)
    ensures
        final(s)@ == old(s)@ + hex_text_padded(n as nat, width as nat),
    decreases width,
{
    if width > 0 {
        push_hex_padded(s, n / 16, width - 1);
        push_char(s, hex_digit_char(n % 16));
        proof {
            assert(final(s)@ =~= old(s)@ + hex_text_padded(n as nat, width as nat));
        }
    } else {
        proof {
            assert(final(s)@ =~= old(s)@ + hex_text_padded(n as nat, width as nat));
        }
    }
}

/// Appends the decimal rendering of `n`.
pub fn push_decimal(s: &mut String, n: u64)
    ensures
        final(s)@ == old(s)@ + decimal_text(n as nat),
    decreases n,
{
    if n >= 10 {
        push_decimal(s, n / 10);
    }
    push_char(s, hex_digit_char(n % 10));
    proof {
        assert(final(s)@ =~= old(s)@ + decimal_text(n as nat));
    }
}

/// Appends a string literal (or any `&str`).
pub fn push_str(s: &mut String, t: &str)
    ensures
        final(s)@ == old(s)@ + t@,
{
    s.append(t);
}


/// `label_0 value_0 label_1 value_1 ...`, each value in `width` zero-padded
/// lower-case hexadecimal digits.
pub open spec fn fields_text(labels: Seq<Seq<char>>, values: Seq<u64>, width: nat) -> Seq<char>
    decreases labels.len(),
{
    if labels.len() == 0 || values.len() == 0 {
        Seq::empty()
    } else {
        fields_text(labels.drop_last(), values.drop_last(), width) + labels.last()
            + hex_text_padded(values.last() as nat, width)
    }
}

/// The character views of a sequence of string slices.
pub open spec fn str_views(labels: Seq<&str>) -> Seq<Seq<char>> {
    labels.map_values(|l: &str| l@)
}

/// Appends each label followed by its value in `width` hexadecimal digits.
pub fn push_fields(s: &mut String, labels: &[&str], values: &[u64], width: u32)
    requires
        labels@.len() == values@.len(),
    ensures
        final(s)@ == old(s)@ + fields_text(str_views(labels@), values@, width as nat),
{
    let n = labels.len();
    let mut i: usize = 0;
    assert(str_views(labels@).take(0) =~= Seq::<Seq<char>>::empty());
    assert(s@ =~= old(s)@ + fields_text(str_views(labels@).take(0), values@.take(0), width as nat));
    while i < n
        invariant
            n == labels@.len(),
            n == values@.len(),
            i <= n,
            s@ == old(s)@ + fields_text(str_views(labels@).take(i as int), values@.take(i as int), width as nat),
        decreases n - i,
    {
        let ghost before = s@;
        push_str(s, labels[i]);
        push_hex_padded(s, values[i], width);
        proof {
            let lv = str_views(labels@);
            assert(lv.take(i + 1).drop_last() =~= lv.take(i as int));
            assert(values@.take(i + 1).drop_last() =~= values@.take(i as int));
            assert(lv.take(i + 1).last() == labels@[i as int]@);
            assert(s@ =~= old(s)@ + fields_text(lv.take(i + 1), values@.take(i + 1), width as nat));
        }
        i = i + 1;
    }
    assert(str_views(labels@).take(n as int) =~= str_views(labels@));
    assert(values@.take(n as int) =~= values@);
}

/// The characters of a string slice.
pub fn chars_of(s: &str) -> (r: Vec<char>)
    ensures
        r@ == s@,
{
    let n = s.unicode_len();
    let mut out: Vec<char> = Vec::with_capacity(n);
    let mut i: usize = 0;
    while i < n
        invariant
            n == s@.len(),
            i <= n,
            out@ == s@.take(i as int),
        decreases n - i,
    {
        out.push(s.get_char(i));
        assert(out@ =~= s@.take(i + 1));
        i = i + 1;
    }
    assert(s@.take(n as int) =~= s@);
    out
}

/// The value of a lower-case hexadecimal digit (`0`-`9`, `a`-`f`), or -1.
pub open spec fn hex_char_value(c: char) -> int {
    if '0' <= c && c <= '9' {
        c as int - 48
    } else if 'a' <= c && c <= 'f' {
        c as int - 87
    } else {
        -1
    }
}

/// The number a string of hexadecimal digits writes, most significant first.
pub open spec fn hex_value(s: Seq<char>) -> int
    decreases s.len(),
{
    if s.len() == 0 {
        0
    } else {
        hex_value(s.drop_last()) * 16 + hex_char_value(s.last())
    }
}

proof fn lemma_hex_digit_value(d: nat)
    requires
        d < 16,
    ensures
        hex_char_value(hex_digit(d)) == d,
{
}

/// The `{:x}` rendering of a number consists of lower-case hexadecimal
/// digits, starts with a non-zero digit unless it is `0`, and reads back as
/// that number.
pub proof fn lemma_hex_text_reads_back(n: nat)
    ensures
        hex_value(hex_text(n)) == n,
        hex_text(n).len() > 0,
        forall|i: int| 0 <= i < hex_text(n).len() ==> hex_char_value(#[trigger] hex_text(n)[i]) >= 0,
        hex_text(n).len() > 1 ==> hex_text(n)[0] != '0',
        n >= 16 ==> hex_text(n).len() > 1,
    decreases n,
{
    let t = hex_text(n);
    if n >= 16 {
        lemma_hex_text_reads_back(n / 16);
        lemma_hex_digit_value(n % 16);
        assert(t.drop_last() =~= hex_text(n / 16));
        assert(t.last() == hex_digit(n % 16));
        assert((n / 16) * 16 + n % 16 == n) by (nonlinear_arith);
        assert(hex_value(t) == hex_value(t.drop_last()) * 16 + hex_char_value(t.last()));
        assert forall|i: int| 0 <= i < t.len() implies hex_char_value(#[trigger] t[i]) >= 0 by {
            if i < t.len() - 1 {
                assert(t[i] == hex_text(n / 16)[i]);
            }
        }
        assert(t[0] == hex_text(n / 16)[0]);
        if n / 16 < 16 {
            assert(n / 16 >= 1) by (nonlinear_arith)
                requires
                    n >= 16,
            ;
            lemma_hex_digit_value(n / 16);
        }
    } else {
        lemma_hex_digit_value(n);
        assert(t.drop_last() =~= Seq::<char>::empty());
        assert(hex_value(t) == hex_value(t.drop_last()) * 16 + hex_char_value(t.last()));
    }
}

/// The zero-padded rendering in `width` digits has exactly `width` digits
/// and reads back as the number when the number fits in them.
pub proof fn lemma_hex_text_padded_reads_back(n: nat, width: nat)
    ensures
        hex_text_padded(n, width).len() == width,
        forall|i: int| 0 <= i < width ==> hex_char_value(#[trigger] hex_text_padded(n, width)[i]) >= 0,
        n < vstd::arithmetic::power::pow(16, width) ==> hex_value(hex_text_padded(n, width)) == n,
    decreases width,
{
    let t = hex_text_padded(n, width);
    if width > 0 {
        lemma_hex_text_padded_reads_back(n / 16, (width - 1) as nat);
        lemma_hex_digit_value(n % 16);
        assert(t.drop_last() =~= hex_text_padded(n / 16, (width - 1) as nat));
        assert forall|i: int| 0 <= i < width implies hex_char_value(#[trigger] t[i]) >= 0 by {
            if i < width - 1 {
                assert(t[i] == hex_text_padded(n / 16, (width - 1) as nat)[i]);
            }
        }
        if n < vstd::arithmetic::power::pow(16, width) {
            let p = vstd::arithmetic::power::pow(16, (width - 1) as nat);
            vstd::arithmetic::power::lemma_pow_positive(16, (width - 1) as nat);
            assert(vstd::arithmetic::power::pow(16, width) == 16 * p) by {
                vstd::arithmetic::power::lemma_pow_adds(16, 1, (width - 1) as nat);
                vstd::arithmetic::power::lemma_pow1(16);
            }
            assert(n / 16 < p) by (nonlinear_arith)
                requires
                    n < 16 * p,
                    p > 0,
            ;
            assert((n / 16) * 16 + n % 16 == n) by (nonlinear_arith);
            assert(hex_value(t) == hex_value(t.drop_last()) * 16 + hex_char_value(t.last()));
        }
    } else {
        assert(t =~= Seq::<char>::empty());
        vstd::arithmetic::power::lemma_pow0(16);
    }
}

} // verus!
