//! Time, random identifiers and calendar dates.
use vstd::prelude::*;
use crate::text::{hex, push_hex, zero_pad};
use chrono::Datelike;

verus! {

/// The current time in RFC 3339 form (`chrono::Utc::now().to_rfc3339()`).
/// What time it is is not stated.
#[verifier::external_body]
pub(crate) fn now() -> String {
    chrono::Utc::now().to_rfc3339()
}

/// A random version-4 UUID as a number (`uuid::Uuid::new_v4().as_u128()`).
/// The crate sets the version nibble (bits 76 to 79) to 4 and the variant
/// bits (62 and 63) to 1 and 0; the other bits are random and not stated.
#[verifier::external_body]
pub(crate) fn random_uuid() -> (r: u128)
    ensures
        (r >> 76u128) & 0xfu128 == 4,
        (r >> 62u128) & 0x3u128 == 2,
{
    uuid::Uuid::new_v4().as_u128()
}

/// The short identifier of a UUID: its first eight hexadecimal digits.
pub open spec fn uid_text(r: u128) -> Seq<char> {
    zero_pad(hex((r >> 96u128) as nat), 8)
}

/// The first eight hexadecimal digits of UUID `r`.
pub fn uid_of(r: u128) -> (s: String)
    ensures
        s@ == uid_text(r),
{
    let top: u128 = r >> 96u128;
    let mut digits = String::new();
    push_hex(&mut digits, top);
    let n = digits.unicode_len();
    let mut s = String::new();
    let mut k = n;
    while k < 8
        invariant
            n == hex(top as nat).len(),
            digits@ == hex(top as nat),
            n <= k <= 8 || (n > 8 && k == n),
            s@ == Seq::new((k - n) as nat, |i: int| '0'),
        decreases 8 - k,
    {
        crate::text::push_char(&mut s, '0');
        k = k + 1;
        assert(s@ =~= Seq::new((k - n) as nat, |i: int| '0'));
    }
    s.append(digits.as_str());
    assert(s@ =~= uid_text(r));
    s
}

/// A fresh short identifier.
pub fn uid() -> (s: String)
    ensures
        exists|r: u128| s@ == uid_text(r),
{
    let r = random_uuid();
    uid_of(r)
}

/// The year, month and day that `chrono` reads from a date written
/// `YYYY-MM-DD`, where it parses as one.
pub uninterp spec fn ymd(s: Seq<char>) -> Option<(i32, u32, u32)>;

/// Parses a `YYYY-MM-DD` date (`chrono::NaiveDate::parse_from_str` with
/// `"%Y-%m-%d"`) to its year, month and day (`Datelike::year`, `month`,
/// `day`).
#[verifier::external_body]
pub(crate) fn parse_ymd(s: &str) -> (r: Option<(i32, u32, u32)>)
    ensures
        r == ymd(s@),
{
    match chrono::NaiveDate::parse_from_str(s, "%Y-%m-%d") {
        Ok(d) => Some((d.year(), d.month(), d.day())),
        Err(_) => None,
    }
}

/// Today's year, month and day in UTC
/// (`chrono::Utc::now().date_naive()`).  Which day it is is not stated.
#[verifier::external_body]
pub(crate) fn today() -> (i32, u32, u32) {
    let d = chrono::Utc::now().date_naive();
    (d.year(), d.month(), d.day())
}

} // verus!
