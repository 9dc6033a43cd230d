//! Building text: decimal and hexadecimal numbers, amounts with two
//! decimals, padding and prefixes.
use vstd::prelude::*;

verus! {

/// The character of decimal digit `d`.
pub open spec fn digit_char(d: nat) -> char {
    ((48 + d) as u8) as char
}

/// The character of hexadecimal digit `d`, lower case.
pub open spec fn hex_char(d: nat) -> char {
    if d < 10 {
        ((48 + d) as u8) as char
    } else {
        ((87 + d) as u8) as char
    }
}

/// Decimal digits of `n`, without leading zeros.
pub open spec fn decimal(n: nat) -> Seq<char>
    decreases n,
{
    if n < 10 {
        seq![digit_char(n)]
    } else {
        decimal(n / 10).push(digit_char(n % 10))
    }
}

/// Lower-case hexadecimal digits of `n`, without leading zeros.
pub open spec fn hex(n: nat) -> Seq<char>
    decreases n,
{
    if n < 16 {
        seq![hex_char(n)]
    } else {
        hex(n / 16).push(hex_char(n % 16))
    }
}

/// A signed integer in decimal.
pub open spec fn signed_decimal(n: int) -> Seq<char> {
    if n < 0 {
        seq!['-'] + decimal((-n) as nat)
    } else {
        decimal(n as nat)
    }
}

/// An amount of minor units as a number with two decimals.
pub open spec fn cents_text(c: int) -> Seq<char> {
    let m: nat = if c < 0 { (-c) as nat } else { c as nat };
    let sign: Seq<char> = if c < 0 { seq!['-'] } else { seq![] };
    sign + decimal(m / 100) + seq!['.', digit_char((m % 100) / 10), digit_char(m % 10)]
}

/// `n` spaces.
pub open spec fn spaces(n: nat) -> Seq<char> {
    Seq::new(n, |i: int| ' ')
}

/// `s` followed by spaces up to width `w`.
pub open spec fn pad_right(s: Seq<char>, w: nat) -> Seq<char> {
    if s.len() >= w {
        s
    } else {
        s + spaces((w - s.len()) as nat)
    }
}

/// `s` preceded by zeros up to width `w`.
pub open spec fn zero_pad(s: Seq<char>, w: nat) -> Seq<char> {
    if s.len() >= w {
        s
    } else {
        Seq::new((w - s.len()) as nat, |i: int| '0') + s
    }
}

/// The first `n` characters of `s`, or all of it where it is shorter.
pub open spec fn prefix(s: Seq<char>, n: nat) -> Seq<char> {
    if s.len() <= n {
        s
    } else {
        s.take(n as int)
    }
}

/// Appends one character (`String::push`).
#[verifier::external_body]
pub(crate) fn push_char(s: &mut String, c: char)
    ensures
        final(s)@ == old(s)@.push(c),
{
    s.push(c);
}

/// What `str::to_uppercase` gives for a string.
pub uninterp spec fn uppercase(s: Seq<char>) -> Seq<char>;

/// The upper-case form of `s` (`str::to_uppercase`).
#[verifier::external_body]
pub(crate) fn to_uppercase(s: &str) -> (r: String)
    ensures
        r@ == uppercase(s@),
{
    s.to_uppercase()
}

/// A copy of a literal.
pub fn lit(s: &str) -> (r: String)
    ensures
        r@ == s@,
{
    s.to_owned()
}

/// Whether `s` reads `t`.
pub fn eq_lit(s: &String, t: &str) -> (b: bool)
    ensures
        b == (s@ == t@),
{
    let u = t.to_owned();
    *s == u
}

pub fn push_decimal(s: &mut String, n: u128)
    ensures
        final(s)@ == old(s)@ + decimal(n as nat),
    decreases n,
{
    if n < 10 {
        let c: char = (48u8 + n as u8) as char;
        push_char(s, c);
        assert(s@ =~= old(s)@ + decimal(n as nat));
    } else {
        push_decimal(s, n / 10);
        let c: char = (48u8 + (n % 10) as u8) as char;
        push_char(s, c);
        assert(s@ =~= old(s)@ + decimal(n as nat));
    }
}

pub fn push_hex(s: &mut String, n: u128)
    ensures
        final(s)@ == old(s)@ + hex(n as nat),
    decreases n,
{
    let d: u8 = (n % 16) as u8;
    let c: char = if d < 10 { (48u8 + d) as char } else { (87u8 + d) as char };
    if n < 16 {
        push_char(s, c);
        assert(s@ =~= old(s)@ + hex(n as nat));
    } else {
        push_hex(s, n / 16);
        push_char(s, c);
        assert(s@ =~= old(s)@ + hex(n as nat));
    }
}

pub fn push_signed(s: &mut String, n: i64)
    ensures
        final(s)@ == old(s)@ + signed_decimal(n as int),
{
    if n < 0 {
        push_char(s, '-');
        let m: u128 = (-(n as i128)) as u128;
        push_decimal(s, m);
        assert(s@ =~= old(s)@ + signed_decimal(n as int));
    } else {
        push_decimal(s, n as u128);
    }
}

pub fn push_cents(s: &mut String, c: i64)
    ensures
        final(s)@ == old(s)@ + cents_text(c as int),
{
    let m: u128 = if c < 0 { (-(c as i128)) as u128 } else { c as u128 };
    if c < 0 {
        push_char(s, '-');
    }
    push_decimal(s, m / 100);
    push_char(s, '.');
    push_char(s, (48u8 + ((m % 100) / 10) as u8) as char);
    push_char(s, (48u8 + (m % 10) as u8) as char);
    assert(s@ =~= old(s)@ + cents_text(c as int));
}

pub fn push_padded(s: &mut String, t: &str, w: usize)
    ensures
        final(s)@ == old(s)@ + pad_right(t@, w as nat),
{
    s.append(t);
    let n = t.unicode_len();
    if n < w {
        let mut k = n;
        while k < w
            invariant
                n <= k <= w,
                n == t@.len(),
                s@ == old(s)@ + t@ + spaces((k - n) as nat),
            decreases w - k,
        {
            push_char(s, ' ');
            k = k + 1;
            assert(spaces((k - n) as nat) =~= spaces((k - 1 - n) as nat).push(' '));
        }
        assert(s@ =~= old(s)@ + pad_right(t@, w as nat));
    } else {
        assert(s@ =~= old(s)@ + pad_right(t@, w as nat));
    }
}

/// The first `n` characters of `t`.
pub fn take_prefix(t: &str, n: usize) -> (r: String)
    ensures
        r@ == prefix(t@, n as nat),
{
    let len = t.unicode_len();
    if len <= n {
        t.to_owned()
    } else {
        let p = t.substring_char(0, n);
        p.to_owned()
    }
}

/// Digits of a fraction `f` of `w` places, trailing zeros dropped.
pub open spec fn frac_text(f: nat, w: nat) -> Seq<char>
    decreases w,
{
    if w > 0 && f % 10 == 0 {
        frac_text(f / 10, (w - 1) as nat)
    } else {
        zero_pad(decimal(f), w)
    }
}

/// A positive number given in millionths, as the shortest decimal: no
/// fraction where it is whole, else its fraction without trailing zeros.
pub open spec fn micro_text(m: nat) -> Seq<char> {
    if m % 1_000_000 == 0 {
        decimal(m / 1_000_000)
    } else {
        decimal(m / 1_000_000) + seq!['.'] + frac_text(m % 1_000_000, 6)
    }
}

pub fn push_zero_padded(s: &mut String, n: u128, w: usize)
    ensures
        final(s)@ == old(s)@ + zero_pad(decimal(n as nat), w as nat),
{
    let mut digits = String::new();
    push_decimal(&mut digits, n);
    let len = digits.unicode_len();
    let mut k = len;
    while k < w
        invariant
            len == decimal(n as nat).len(),
            digits@ == decimal(n as nat),
            len <= k,
            k <= w || k == len,
            s@ == old(s)@ + Seq::new((k - len) as nat, |i: int| '0'),
        decreases w - k,
    {
        push_char(s, '0');
        k = k + 1;
        assert(s@ =~= old(s)@ + Seq::new((k - len) as nat, |i: int| '0'));
    }
    s.append(digits.as_str());
    assert(s@ =~= old(s)@ + zero_pad(decimal(n as nat), w as nat));
}

pub fn push_micro(s: &mut String, m: u64)
    ensures
        final(s)@ == old(s)@ + micro_text(m as nat),
{
    push_decimal(s, (m / 1_000_000) as u128);
    let f0: u64 = m % 1_000_000;
    if f0 != 0 {
        push_char(s, '.');
        let mut f: u64 = f0;
        let mut w: usize = 6;
        while w > 0 && f % 10 == 0
            invariant
                w <= 6,
                frac_text(f as nat, w as nat) == frac_text(f0 as nat, 6),
            decreases w,
        {
            f = f / 10;
            w = w - 1;
        }
        push_zero_padded(s, f as u128, w);
    }
    assert(s@ =~= old(s)@ + micro_text(m as nat));
}

/// `n / d` rounded to a whole number as decimal formatting does: to the
/// nearest, halves to the even neighbour, with the sign of `n` kept.
pub open spec fn rounded_text(n: int, d: nat) -> Seq<char> {
    let m: nat = if n < 0 { (-n) as nat } else { n as nat };
    let q: nat = m / d;
    let r: nat = m % d;
    let u: nat = if 2 * r > d || (2 * r == d && q % 2 == 1) { q + 1 } else { q };
    let sign: Seq<char> = if n < 0 { seq!['-'] } else { seq![] };
    sign + decimal(u)
}

pub fn push_rounded(s: &mut String, n: i64, d: u64)
    requires
        d > 0,
    ensures
        final(s)@ == old(s)@ + rounded_text(n as int, d as nat),
{
    let m: u128 = if n < 0 { (-(n as i128)) as u128 } else { n as u128 };
    let dd: u128 = d as u128;
    let q: u128 = m / dd;
    let r: u128 = m % dd;
    let u: u128 = if 2 * r > dd || (2 * r == dd && q % 2 == 1) { q + 1 } else { q };
    if n < 0 {
        push_char(s, '-');
    }
    push_decimal(s, u);
    assert(s@ =~= old(s)@ + rounded_text(n as int, d as nat));
}
} // verus!
