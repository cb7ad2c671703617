//! Fresh identifiers and time stamps, from the `uuid` and `chrono` crates.

use vstd::prelude::*;

verus! {

pub open spec fn is_lower_hex_digit(c: char) -> bool {
    ('0' <= c && c <= '9') || ('a' <= c && c <= 'f')
}

/// The shape of the text of a random (version 4) UUID in hyphenated,
/// lower-case form: 8-4-4-4-12 hexadecimal digits, with the version digit 4
/// and a variant digit from 8 to b.
pub open spec fn is_hyphenated_v4_uuid(s: Seq<char>) -> bool {
    &&& s.len() == 36
    &&& forall|i: int|
        0 <= i < 36 ==> if i == 8 || i == 13 || i == 18 || i == 23 {
            s[i] == '-'
        } else {
            is_lower_hex_digit(#[trigger] s[i])
        }
    &&& s[14] == '4'
    &&& s[19] == '8' || s[19] == '9' || s[19] == 'a' || s[19] == 'b'
}

/// Calls `uuid::Uuid::new_v4` and writes the UUID with its `Display` impl,
/// which gives the hyphenated lower-case form. The value is random, so
/// nothing but its shape is claimed. `new_v4` panics when the operating
/// system cannot supply random bytes.
#[verifier::external_body]
pub(crate) fn new_uuid() -> (id: String)
    ensures
        is_hyphenated_v4_uuid(id@),
{
    uuid::Uuid::new_v4().to_string()
}

pub open spec fn is_decimal_digit(c: char) -> bool {
    '0' <= c && c <= '9'
}

/// All characters of `s` from index `lo` up to, not including, `hi` are
/// decimal digits.
pub open spec fn digits_between(s: Seq<char>, lo: int, hi: int) -> bool {
    forall|i: int| lo <= i < hi ==> is_decimal_digit(#[trigger] s[i])
}

/// `s` is an RFC 3339 time stamp in UTC, as `chrono` writes it with
/// `to_rfc3339`: a year (four digits, or a sign and at least four digits),
/// `-MM-DD`, `T`, `hh:mm:ss`, a fraction of `frac - 1` digits after a dot
/// when `frac` is not zero, and the offset `+00:00`.
pub open spec fn is_rfc3339_utc_with_fraction(s: Seq<char>, frac: int) -> bool {
    let n = s.len() as int;
    let t = n - 6 - frac - 9;
    let y = t - 6;
    &&& y >= 4
    &&& s.subrange(n - 6, n) == "+00:00"@
    &&& frac > 0 ==> s[n - 6 - frac] == '.' && digits_between(s, n - 5 - frac, n - 6)
    &&& s[t] == 'T'
    &&& digits_between(s, t + 1, t + 3) && s[t + 3] == ':'
    &&& digits_between(s, t + 4, t + 6) && s[t + 6] == ':'
    &&& digits_between(s, t + 7, t + 9)
    &&& s[y] == '-' && digits_between(s, y + 1, y + 3)
    &&& s[y + 3] == '-' && digits_between(s, y + 4, y + 6)
    &&& (y == 4 && digits_between(s, 0, 4)) || (y >= 5 && (s[0] == '+' || s[0] == '-')
        && digits_between(s, 1, y))
}

/// `s` is an RFC 3339 time stamp in UTC with no fraction of a second or with
/// milli-, micro- or nanoseconds, as `chrono` writes it with `to_rfc3339`.
pub open spec fn is_rfc3339_utc(s: Seq<char>) -> bool {
    ||| is_rfc3339_utc_with_fraction(s, 0)
    ||| is_rfc3339_utc_with_fraction(s, 4)
    ||| is_rfc3339_utc_with_fraction(s, 7)
    ||| is_rfc3339_utc_with_fraction(s, 10)
}

/// Calls `chrono::Utc::now` and writes the time with `to_rfc3339`, which
/// writes the date, the time of day with the fraction of a second that it
/// needs, and the offset `+00:00`. The value is the current time, so nothing
/// but this form is claimed of it.
#[verifier::external_body]
pub(crate) fn now_rfc3339() -> (stamp: String)
    ensures
        is_rfc3339_utc(stamp@),
{
    chrono::Utc::now().to_rfc3339()
}

} // verus!
