//! Decimal formatting and parsing of unsigned integers, as `Display` and
//! `str::parse` do them for the unsigned integer types.

use vstd::prelude::*;

verus! {

/// The ASCII digit of `d` (for `d < 10`).
pub open spec fn digit_char(d: nat) -> char {
    (('0' as u32) + d) as char
}

/// The decimal text of `n`, without leading zeros (`format!("{}", n)`).
pub open spec fn decimal(n: nat) -> Seq<char>
    decreases n,
{
    if n < 10 {
        seq![digit_char(n)]
    } else {
        decimal(n / 10).push(digit_char(n % 10))
    }
}

/// The decimal text of `n` padded with zeros to two digits (`format!("{:02}", n)`).
pub open spec fn decimal2(n: nat) -> Seq<char> {
    if n < 10 {
        seq!['0'] + decimal(n)
    } else {
        decimal(n)
    }
}

pub open spec fn is_digit(c: char) -> bool {
    '0' <= c <= '9'
}

pub open spec fn digit_value(c: char) -> nat {
    ((c as u32) - ('0' as u32)) as nat
}

/// The value of a run of decimal digits.
pub open spec fn digits_value(s: Seq<char>) -> nat
    decreases s.len(),
{
    if s.len() == 0 {
        0
    } else {
        digits_value(s.drop_last()) * 10 + digit_value(s.last())
    }
}

pub open spec fn all_digits(s: Seq<char>) -> bool {
    forall|i: int| 0 <= i < s.len() ==> is_digit(#[trigger] s[i])
}

/// The digits part of an unsigned literal: everything after an optional leading `+`.
pub open spec fn unsigned_digits(s: Seq<char>) -> Seq<char> {
    if s.len() > 0 && s[0] == '+' {
        s.drop_first()
    } else {
        s
    }
}

/// What `str::parse` gives for an unsigned integer type whose largest value is
/// `max`: an optional `+`, then one or more ASCII digits whose value fits.
pub open spec fn parse_unsigned(s: Seq<char>, max: nat) -> Option<nat> {
    let d = unsigned_digits(s);
    if d.len() > 0 && all_digits(d) && digits_value(d) <= max {
        Some(digits_value(d))
    } else {
        None
    }
}

pub fn digit_to_char(d: u64) -> (c: char)
    requires
        d < 10,
    ensures
        c == digit_char(d as nat),
        is_digit(c),
{
    let b = (d as u8) + 48u8;
    b as char
}

/// Appends the decimal text of `n`.
pub fn push_decimal(out: &mut Vec<char>, n: u64)
    ensures
        final(out)@ == old(out)@ + decimal(n as nat),
    decreases n,
{
    if n >= 10 {
        push_decimal(out, n / 10);
    }
    let c = digit_to_char(n % 10);
    out.push(c);
    proof {
        if n < 10 {
            assert(decimal(n as nat) == seq![digit_char(n as nat)]);
        } else {
            assert(decimal(n as nat) == decimal((n / 10) as nat).push(digit_char((n % 10) as nat)));
        }
    }
}

/// Appends `n` padded with zeros to two digits.
pub fn push_decimal2(out: &mut Vec<char>, n: u64)
    ensures
        final(out)@ == old(out)@ + decimal2(n as nat),
{
    if n < 10 {
        out.push('0');
    }
    push_decimal(out, n);
    proof {
        if n < 10 {
            assert(old(out)@.push('0') + decimal(n as nat) == old(out)@ + (seq!['0'] + decimal(
                n as nat,
            )));
        }
    }
}

/// The decimal text of `n`.
pub fn decimal_chars(n: u64) -> (v: Vec<char>)
    ensures
        v@ == decimal(n as nat),
{
    let mut v: Vec<char> = Vec::new();
    push_decimal(&mut v, n);
    assert(Seq::<char>::empty() + decimal(n as nat) == decimal(n as nat));
    v
}

pub proof fn lemma_digits_value_prefix(s: Seq<char>, i: int)
    requires
        0 <= i <= s.len(),
    ensures
        digits_value(s.subrange(0, i)) <= digits_value(s),
    decreases s.len() - i,
{
    if i < s.len() {
        lemma_digits_value_prefix(s, i + 1);
        assert(s.subrange(0, i + 1).drop_last() == s.subrange(0, i));
    } else {
        assert(s.subrange(0, i) == s);
    }
}

/// Parses `v` as `str::parse` parses an unsigned integer whose largest value is `max`.
pub fn parse_unsigned_chars(v: &[char], max: u64) -> (r: Option<u64>)
    requires
        max <= u32::MAX,
    ensures
        match r {
            Some(n) => parse_unsigned(v@, max as nat) == Some(n as nat),
            None => parse_unsigned(v@, max as nat) is None,
        },
{
    let start: usize = if v.len() > 0 && v[0] == '+' {
        1
    } else {
        0
    };
    let ghost d = unsigned_digits(v@);
    assert(d == v@.subrange(start as int, v@.len() as int));
    if start >= v.len() {
        return None;
    }
    let mut acc: u64 = 0;
    let mut i = start;
    while i < v.len()
        invariant
            start <= i <= v@.len(),
            d == unsigned_digits(v@),
            d == v@.subrange(start as int, v@.len() as int),
            all_digits(v@.subrange(start as int, i as int)),
            acc as nat == digits_value(v@.subrange(start as int, i as int)),
            acc <= max,
            max <= u32::MAX,
        decreases v@.len() - i,
    {
        let c = v[i];
        if !('0' <= c && c <= '9') {
            assert(d[i - start] == c);
            assert(!all_digits(d));
            return None;
        }
        let dv = (c as u32 - '0' as u32) as u64;
        let next = acc * 10 + dv;
        let ghost pre = v@.subrange(start as int, i as int);
        let ghost ext = v@.subrange(start as int, i + 1);
        assert(ext.drop_last() == pre);
        assert(digits_value(ext) == digits_value(pre) * 10 + digit_value(c));
        if next > max {
            proof {
                assert(ext == d.subrange(0, (i + 1 - start) as int));
                lemma_digits_value_prefix(d, (i + 1 - start) as int);
                assert(digits_value(d) > max);
            }
            return None;
        }
        acc = next;
        i = i + 1;
        assert(all_digits(ext)) by {
            assert forall|j: int| 0 <= j < ext.len() implies is_digit(#[trigger] ext[j]) by {
                if j < pre.len() {
                    assert(ext[j] == pre[j]);
                }
            }
        }
    }
    Some(acc)
}

/// Parses a string as `str::parse::<u16>` does.
pub fn parse_u16(s: &str) -> (r: Option<u16>)
    ensures
        match r {
            Some(n) => parse_unsigned(s@, u16::MAX as nat) == Some(n as nat),
            None => parse_unsigned(s@, u16::MAX as nat) is None,
        },
{
    let v = crate::text::chars_of(s);
    match parse_unsigned_chars(v.as_slice(), 65535) {
        Some(n) => Some(n as u16),
        None => None,
    }
}

/// Parses a string as `str::parse::<u8>` does.
pub fn parse_u8(s: &str) -> (r: Option<u8>)
    ensures
        match r {
            Some(n) => parse_unsigned(s@, u8::MAX as nat) == Some(n as nat),
            None => parse_unsigned(s@, u8::MAX as nat) is None,
        },
{
    let v = crate::text::chars_of(s);
    match parse_unsigned_chars(v.as_slice(), 255) {
        Some(n) => Some(n as u8),
        None => None,
    }
}

/// Parses a string as `str::parse::<u32>` does.
pub fn parse_u32(s: &str) -> (r: Option<u32>)
    ensures
        match r {
            Some(n) => parse_unsigned(s@, u32::MAX as nat) == Some(n as nat),
            None => parse_unsigned(s@, u32::MAX as nat) is None,
        },
{
    let v = crate::text::chars_of(s);
    match parse_unsigned_chars(v.as_slice(), 4294967295) {
        Some(n) => Some(n as u32),
        None => None,
    }
}

} // verus!

verus! {

/// `n / d` in tenths, rounded to the nearest tenth with ties to even, which
/// is how `format!("{:.1}", n as f64 / d as f64)` rounds the exact quotient.
pub open spec fn rounded_tenths(n: nat, d: nat) -> nat
    recommends
        d > 0,
{
    let q = (n * 10) / d;
    let r = (n * 10) % d;
    if 2 * r > d || (2 * r == d && q % 2 == 1) {
        q + 1
    } else {
        q
    }
}

/// A number of tenths written with one decimal ("12.5").
pub open spec fn one_decimal(t: nat) -> Seq<char> {
    decimal(t / 10) + seq!['.'] + seq![digit_char(t % 10)]
}

/// A byte count as the pages show it: bytes below 1 KiB, else KB, MB or GB
/// (powers of 1024) with one decimal ("1.5 MB").
pub open spec fn file_size_text(b: nat) -> Seq<char> {
    if b < 1024 {
        decimal(b) + " B"@
    } else if b < 1048576 {
        one_decimal(rounded_tenths(b, 1024)) + " KB"@
    } else if b < 1073741824 {
        one_decimal(rounded_tenths(b, 1048576)) + " MB"@
    } else {
        one_decimal(rounded_tenths(b, 1073741824)) + " GB"@
    }
}

proof fn lemma_tenths_split(b: nat, u: nat, q: nat, r0: nat)
    requires
        u > 0,
        b == q * u + r0,
        r0 < u,
    ensures
        (b * 10) / u == q * 10 + (r0 * 10) / u,
        (b * 10) % u == (r0 * 10) % u,
{
    assert(b * 10 == (q * 10) * u + r0 * 10) by (nonlinear_arith)
        requires
            b == q * u + r0,
    ;
    vstd::arithmetic::div_mod::lemma_fundamental_div_mod((r0 * 10) as int, u as int);
    let q2 = (r0 * 10) / u;
    let r2 = (r0 * 10) % u;
    assert(r0 * 10 == u * q2 + r2);
    assert(b * 10 == u * (q * 10 + q2) + r2) by (nonlinear_arith)
        requires
            b * 10 == (q * 10) * u + r0 * 10,
            r0 * 10 == u * q2 + r2,
    ;
    assert(0 <= r2 < u) by {
        vstd::arithmetic::div_mod::lemma_mod_bound((r0 * 10) as int, u as int);
    }
    vstd::arithmetic::div_mod::lemma_fundamental_div_mod_converse(
        (b * 10) as int,
        u as int,
        (q * 10 + q2) as int,
        r2 as int,
    );
}

/// Appends `b` in the unit `u` with one decimal.
fn push_scaled(out: &mut Vec<char>, b: u64, u: u64)
    requires
        u == 1024 || u == 1048576 || u == 1073741824,
    ensures
        final(out)@ == old(out)@ + one_decimal(rounded_tenths(b as nat, u as nat)),
{
    let q = b / u;
    let r0 = b % u;
    proof {
        vstd::arithmetic::div_mod::lemma_fundamental_div_mod(b as int, u as int);
        assert(b == q * u + r0) by (nonlinear_arith)
            requires
                b == u * (b / u) + b % u,
                q == b / u,
                r0 == b % u,
        ;
        lemma_tenths_split(b as nat, u as nat, q as nat, r0 as nat);
        assert(q <= b / 1024) by {
            vstd::arithmetic::div_mod::lemma_div_is_ordered_by_denominator(b as int, 1024, u as int);
        }
    }
    let q2 = (r0 * 10) / u;
    let r2 = (r0 * 10) % u;
    let mut t = q * 10 + q2;
    if 2 * r2 > u || (2 * r2 == u && t % 2 == 1) {
        t = t + 1;
    }
    push_decimal(out, t / 10);
    out.push('.');
    let d = digit_to_char(t % 10);
    out.push(d);
    assert(out@ =~= old(out)@ + one_decimal(rounded_tenths(b as nat, u as nat)));
}

/// A byte count as the pages show it ("512 B", "1.5 KB", "2.0 GB").
pub fn format_file_size(bytes: u64) -> (s: String)
    ensures
        s@ == file_size_text(bytes as nat),
{
    let mut v: Vec<char> = Vec::new();
    if bytes < 1024 {
        push_decimal(&mut v, bytes);
        crate::text::extend_chars(&mut v, crate::text::chars_of(" B").as_slice());
    } else if bytes < 1048576 {
        push_scaled(&mut v, bytes, 1024);
        crate::text::extend_chars(&mut v, crate::text::chars_of(" KB").as_slice());
    } else if bytes < 1073741824 {
        push_scaled(&mut v, bytes, 1048576);
        crate::text::extend_chars(&mut v, crate::text::chars_of(" MB").as_slice());
    } else {
        push_scaled(&mut v, bytes, 1073741824);
        crate::text::extend_chars(&mut v, crate::text::chars_of(" GB").as_slice());
    }
    assert(v@ =~= file_size_text(bytes as nat));
    crate::text::string_of(v.as_slice())
}

} // verus!
