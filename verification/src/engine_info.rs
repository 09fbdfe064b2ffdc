//! Identity of the replay layer: name, author, licence, banner and the
//! version read from the banner.
use vstd::prelude::*;

use crate::text::{chars_of, decimal_text, hex_digit};

verus! {

/// The name of the layer that drives the TTD SDK.
pub const LIBRARY_NAME: &'static str = "ttd_ffi";

/// The banner of that layer: its name and version.
pub const LIBRARY_BANNER: &'static str = "ttd_ffi v0.1.0";

/// The author of that layer.
pub const LIBRARY_AUTHOR: &'static str = "calladoum-elastic";

/// The licence of that layer.
pub const LIBRARY_LICENSE: &'static str = "Apache-2.0";

/// General information about the replay layer.
#[derive(Clone, Debug)]
pub struct EngineInfo {
    pub major: usize,
    pub minor: usize,
    pub patch: usize,
    pub license: String,
    pub author: String,
    pub banner: String,
    pub name: String,
}

/// The pieces of `s` between dots (as `str::split('.')` gives them; there
/// is always at least one).
pub open spec fn split_dots(s: Seq<char>) -> Seq<Seq<char>>
    decreases s.len(),
{
    if s.len() == 0 {
        seq![Seq::empty()]
    } else {
        let init = split_dots(s.drop_last());
        if s.last() == '.' {
            init.push(Seq::empty())
        } else {
            init.update(init.len() - 1, init.last().push(s.last()))
        }
    }
}

/// An ASCII decimal digit.
pub open spec fn is_digit(c: char) -> bool {
    '0' <= c && c <= '9'
}

/// The value of a decimal digit.
pub open spec fn digit_value(c: char) -> nat {
    ((c as u32) - 48) as nat
}

/// The value of a sequence of decimal digits.
pub open spec fn digits_value(d: Seq<char>) -> nat
    decreases d.len(),
{
    if d.len() == 0 {
        0
    } else {
        digits_value(d.drop_last()) * 10 + digit_value(d.last())
    }
}

/// The `usize` that `d` writes in decimal the way `{}` writes one: at least
/// one digit, nothing else, no leading zero (but for `0` itself), and a
/// value that fits; `None` for any other text.
pub open spec fn canonical_number(d: Seq<char>) -> Option<nat> {
    if d.len() == 0 || (exists|i: int| 0 <= i < d.len() && !is_digit(#[trigger] d[i])) || (d.len() > 1
        && d[0] == '0') || digits_value(d) > usize::MAX {
        None
    } else {
        Some(digits_value(d))
    }
}

/// The version a banner announces: `(X, Y, Z)` when the banner is exactly
/// `ttd_ffi vX.Y.Z` for three `usize` numbers written in decimal, and
/// `(0, 0, 0)` for any other banner.
pub open spec fn banner_version(banner: Seq<char>) -> (nat, nat, nat) {
    let p = "ttd_ffi v"@;
    if banner.len() >= p.len() && banner.take(p.len() as int) == p {
        let pieces = split_dots(banner.skip(p.len() as int));
        if pieces.len() == 3 {
            match (canonical_number(pieces[0]), canonical_number(pieces[1]), canonical_number(pieces[2])) {
                (Some(x), Some(y), Some(z)) => (x, y, z),
                _ => (0, 0, 0),
            }
        } else {
            (0, 0, 0)
        }
    } else {
        (0, 0, 0)
    }
}

/// An optional `usize` seen as an optional natural number.
pub open spec fn option_nat(o: Option<usize>) -> Option<nat> {
    match o {
        Some(v) => Some(v as nat),
        None => None,
    }
}

proof fn lemma_split_dots_nonempty(s: Seq<char>)
    ensures
        split_dots(s).len() >= 1,
    decreases s.len(),
{
    if s.len() > 0 {
        lemma_split_dots_nonempty(s.drop_last());
    }
}

proof fn lemma_digits_value_monotone(d: Seq<char>, j: int, k: int)
    requires
        0 <= j <= k <= d.len(),
    ensures
        digits_value(d.take(j)) <= digits_value(d.take(k)),
    decreases k - j,
{
    if j < k {
        lemma_digits_value_monotone(d, j, k - 1);
        assert(d.take(k).drop_last() =~= d.take(k - 1));
    }
}

/// Reads `cs[start..end]` as a number written the way `{}` writes a
/// `usize` (see `canonical_number`).
fn parse_canonical(cs: &Vec<char>, start: usize, end: usize) -> (r: Option<usize>)
    requires
        start <= end <= cs@.len(),
    ensures
        option_nat(r) == canonical_number(cs@.subrange(start as int, end as int)),
{
    let ghost d = cs@.subrange(start as int, end as int);
    if start == end {
        return None;
    }
    if end - start > 1 && cs[start] == '0' {
        assert(d[0] == '0');
        return None;
    }
    let mut acc: usize = 0;
    let mut i: usize = start;
    while i < end
        invariant
            start <= i <= end <= cs@.len(),
            d == cs@.subrange(start as int, end as int),
            d.len() > 0,
            !(d.len() > 1 && d[0] == '0'),
            forall|j: int| 0 <= j < i - start ==> is_digit(#[trigger] d[j]),
            acc as nat == digits_value(d.take(i - start)),
        decreases end - i,
    {
        let c = cs[i];
        assert(c == d[i - start]);
        if !('0' <= c && c <= '9') {
            return None;
        }
        let dv: usize = (c as u32 - 48) as usize;
        assert(d.take(i - start + 1).drop_last() =~= d.take(i - start));
        let m = acc.checked_mul(10);
        match m {
            Some(m) => {
                let a = m.checked_add(dv);
                match a {
                    Some(a) => {
                        acc = a;
                    },
                    None => {
                        proof {
                            if forall|j: int| 0 <= j < d.len() ==> is_digit(#[trigger] d[j]) {
                                lemma_digits_value_monotone(d, i - start + 1, d.len() as int);
                                assert(d.take(d.len() as int) =~= d);
                            }
                        }
                        return None;
                    },
                }
            },
            None => {
                proof {
                    if forall|j: int| 0 <= j < d.len() ==> is_digit(#[trigger] d[j]) {
                        lemma_digits_value_monotone(d, i - start + 1, d.len() as int);
                        assert(d.take(d.len() as int) =~= d);
                    }
                }
                return None;
            },
        }
        i = i + 1;
    }
    assert(d.take(d.len() as int) =~= d);
    Some(acc)
}

/// The version a banner announces (see `banner_version`).
pub fn parse_banner_version(banner: &str) -> (r: (usize, usize, usize))
    ensures
        (r.0 as nat, r.1 as nat, r.2 as nat) == banner_version(banner@),
{
    let cs = chars_of(banner);
    let prefix = chars_of("ttd_ffi v");
    proof {
        reveal_strlit("ttd_ffi v");
    }
    let n = cs.len();
    let m = prefix.len();
    if n < m {
        return (0, 0, 0);
    }
    let mut j: usize = 0;
    while j < m
        invariant
            n == cs@.len(),
            m == prefix@.len(),
            m <= n,
            j <= m,
            cs@ == banner@,
            prefix@ == "ttd_ffi v"@,
            forall|k: int| 0 <= k < j ==> cs@[k] == prefix@[k],
        decreases m - j,
    {
        if cs[j] != prefix[j] {
            assert(cs@.take(m as int)[j as int] != prefix@[j as int]);
            assert(cs@.take(m as int) != prefix@);
            return (0, 0, 0);
        }
        j = j + 1;
    }
    assert(cs@.take(m as int) =~= prefix@);
    let mut t: Vec<char> = Vec::new();
    let mut q: usize = m;
    while q < n
        invariant
            n == cs@.len(),
            m <= q <= n,
            t@ == cs@.subrange(m as int, q as int),
        decreases n - q,
    {
        t.push(cs[q]);
        assert(t@ =~= cs@.subrange(m as int, q + 1));
        q = q + 1;
    }
    assert(t@ =~= cs@.skip(m as int));
    let ghost ts = t@;
    let tn = t.len();
    let mut fields: [Option<usize>; 3] = [None, None, None];
    let mut index: usize = 0;
    let mut start: usize = 0;
    let mut i: usize = 0;
    assert(ts.take(0) =~= Seq::<char>::empty());
    assert(split_dots(ts.take(0)) =~= seq![Seq::<char>::empty()]);
    while i < tn
        invariant
            tn == ts.len(),
            ts == t@,
            start <= i <= tn,
            split_dots(ts.take(i as int)).len() == index + 1,
            split_dots(ts.take(i as int)).last() == ts.subrange(start as int, i as int),
            index <= i,
            forall|k: int| 0 <= k < 3 && k < index ==> option_nat(#[trigger] fields@[k]) == canonical_number(
                split_dots(ts.take(i as int))[k]),
        decreases tn - i,
    {
        let ghost before = split_dots(ts.take(i as int));
        assert(ts.take(i + 1).drop_last() =~= ts.take(i as int));
        if t[i] == '.' {
            let v = parse_canonical(&t, start, i);
            if index < 3 {
                fields[index] = v;
            }
            assert(split_dots(ts.take(i + 1)) == before.push(Seq::<char>::empty()));
            index = index + 1;
            start = i + 1;
            assert(ts.subrange(start as int, (i + 1) as int) =~= Seq::<char>::empty());
        } else {
            assert(split_dots(ts.take(i + 1)) == before.update(before.len() - 1, before.last().push(t@[i as int])));
            assert(ts.subrange(start as int, (i + 1) as int) =~= ts.subrange(start as int, i as int).push(t@[i as int]));
        }
        i = i + 1;
    }
    assert(ts.take(tn as int) =~= ts);
    if index != 2 {
        return (0, 0, 0);
    }
    let last = parse_canonical(&t, start, tn);
    match (fields[0], fields[1], last) {
        (Some(x), Some(y), Some(z)) => (x, y, z),
        _ => (0, 0, 0),
    }
}

impl EngineInfo {
    /// The identity of a layer from its licence, author, banner and name,
    /// with the version its banner announces.
    pub fn from_parts(license: &str, author: &str, banner: &str, name: &str) -> (r: Self)
        ensures
            r.license@ == license@,
            r.author@ == author@,
            r.banner@ == banner@,
            r.name@ == name@,
            (r.major as nat, r.minor as nat, r.patch as nat) == banner_version(banner@),
    {
        let (major, minor, patch) = parse_banner_version(banner);
        EngineInfo {
            major,
            minor,
            patch,
            license: license.to_string(),
            author: author.to_string(),
            banner: banner.to_string(),
            name: name.to_string(),
        }
    }

    /// The identity of the layer this library is built with.
    pub fn new() -> (r: Self)
        ensures
            r.license@ == LIBRARY_LICENSE@,
            r.author@ == LIBRARY_AUTHOR@,
            r.banner@ == LIBRARY_BANNER@,
            r.name@ == LIBRARY_NAME@,
            (r.major as nat, r.minor as nat, r.patch as nat) == banner_version(LIBRARY_BANNER@),
    {
        Self::from_parts(LIBRARY_LICENSE, LIBRARY_AUTHOR, LIBRARY_BANNER, LIBRARY_NAME)
    }
}

impl Default for EngineInfo {
    /// The same as `EngineInfo::new`.
    fn default() -> (r: Self)
        ensures
            r.license@ == LIBRARY_LICENSE@,
            r.author@ == LIBRARY_AUTHOR@,
            r.banner@ == LIBRARY_BANNER@,
            r.name@ == LIBRARY_NAME@,
            (r.major as nat, r.minor as nat, r.patch as nat) == banner_version(LIBRARY_BANNER@),
    {
        Self::new()
    }
}

/// The decimal (`{}`) text of a number consists of digits, has no leading
/// zero, and reads back as that number.
pub proof fn lemma_decimal_text_canonical(n: nat)
    ensures
        decimal_text(n).len() > 0,
        forall|i: int| 0 <= i < decimal_text(n).len() ==> is_digit(#[trigger] decimal_text(n)[i]),
        digits_value(decimal_text(n)) == n,
        decimal_text(n).len() > 1 ==> decimal_text(n)[0] != '0',
        n < 10 ==> decimal_text(n).len() == 1,
        n >= 10 ==> decimal_text(n).len() > 1,
    decreases n,
{
    if n >= 10 {
        lemma_decimal_text_canonical(n / 10);
        let d = decimal_text(n);
        assert(d.drop_last() =~= decimal_text(n / 10));
        assert(d.last() == hex_digit(n % 10));
        lemma_digit(n % 10);
        assert((n / 10) * 10 + n % 10 == n) by (nonlinear_arith);
        assert(d.len() > 0);
        assert(digits_value(d) == digits_value(d.drop_last()) * 10 + digit_value(d.last()));
        assert(digits_value(d.drop_last()) == n / 10);
        assert(digit_value(d.last()) == n % 10);
        assert(n / 10 >= 1) by (nonlinear_arith)
            requires
                n >= 10,
        ;
        assert forall|i: int| 0 <= i < d.len() implies is_digit(#[trigger] d[i]) by {
            if i < d.len() - 1 {
                assert(d[i] == decimal_text(n / 10)[i]);
            }
        }
        assert(d[0] == decimal_text(n / 10)[0]);
        if n / 10 < 10 {
            lemma_digit(n / 10);
        }
    } else {
        lemma_digit(n);
        let d = decimal_text(n);
        assert(d.drop_last() =~= Seq::<char>::empty());
        assert(digits_value(d.drop_last()) == 0);
        assert(digits_value(d) == digits_value(d.drop_last()) * 10 + digit_value(d.last()));
    }
}

proof fn lemma_digit(k: nat)
    requires
        k < 10,
    ensures
        is_digit(hex_digit(k)),
        digit_value(hex_digit(k)) == k,
        hex_digit(k) != '.',
        k > 0 ==> hex_digit(k) != '0',
{
}

/// Appending text without dots extends the last piece.
proof fn lemma_split_dots_append(x: Seq<char>, b: Seq<char>)
    requires
        forall|i: int| 0 <= i < b.len() ==> b[i] != '.',
    ensures
        split_dots(x + b) == split_dots(x).update(split_dots(x).len() - 1, split_dots(x).last() + b),
    decreases b.len(),
{
    lemma_split_dots_nonempty(x);
    if b.len() == 0 {
        assert(x + b =~= x);
        assert(split_dots(x).last() + b =~= split_dots(x).last());
        assert(split_dots(x).update(split_dots(x).len() - 1, split_dots(x).last()) =~= split_dots(x));
    } else {
        let b0 = b.drop_last();
        lemma_split_dots_append(x, b0);
        assert((x + b).drop_last() =~= x + b0);
        assert((x + b).last() == b.last());
        lemma_split_dots_nonempty(x + b0);
        assert(split_dots(x).last() + b =~= (split_dots(x).last() + b0).push(b.last()));
        assert(split_dots(x + b) =~= split_dots(x).update(split_dots(x).len() - 1, split_dots(x).last() + b));
    }
}

/// A banner of the form `ttd_ffi vX.Y.Z`, with each number written as `{}`
/// writes it, announces the version `(X, Y, Z)`.
pub proof fn lemma_banner_version_of_numbers(x: usize, y: usize, z: usize)
    ensures
        banner_version("ttd_ffi v"@ + decimal_text(x as nat) + seq!['.'] + decimal_text(y as nat) + seq!['.']
            + decimal_text(z as nat)) == (x as nat, y as nat, z as nat),
{
    let p = "ttd_ffi v"@;
    let dx = decimal_text(x as nat);
    let dy = decimal_text(y as nat);
    let dz = decimal_text(z as nat);
    lemma_decimal_text_canonical(x as nat);
    lemma_decimal_text_canonical(y as nat);
    lemma_decimal_text_canonical(z as nat);
    let banner = p + dx + seq!['.'] + dy + seq!['.'] + dz;
    let rest = dx + seq!['.'] + dy + seq!['.'] + dz;
    assert(banner.take(p.len() as int) =~= p);
    assert(banner.skip(p.len() as int) =~= rest);
    assert forall|i: int| 0 <= i < dx.len() implies dx[i] != '.' by {
        assert(is_digit(dx[i]));
    }
    assert forall|i: int| 0 <= i < dy.len() implies dy[i] != '.' by {
        assert(is_digit(dy[i]));
    }
    assert forall|i: int| 0 <= i < dz.len() implies dz[i] != '.' by {
        assert(is_digit(dz[i]));
    }
    let e = Seq::<char>::empty();
    lemma_split_dots_append(e, dx);
    assert(e + dx =~= dx);
    assert(split_dots(e) =~= seq![e]);
    assert(split_dots(dx) =~= seq![dx]);
    let a1 = dx + seq!['.'];
    assert(a1.drop_last() =~= dx);
    assert(split_dots(a1) =~= seq![dx, e]);
    lemma_split_dots_append(a1, dy);
    assert(split_dots(a1 + dy) =~= seq![dx, dy]);
    let a2 = a1 + dy + seq!['.'];
    assert(a2.drop_last() =~= a1 + dy);
    assert(split_dots(a2) =~= seq![dx, dy, e]);
    lemma_split_dots_append(a2, dz);
    assert(a2 + dz =~= rest);
    assert(split_dots(rest) =~= seq![dx, dy, dz]);
}

} // verus!
