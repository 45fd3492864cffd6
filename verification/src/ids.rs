//! Identifiers and clock readings. UUIDs are carried as their 128-bit values;
//! drawing a fresh one, printing one and parsing one are calls into the
//! `uuid` crate, and the clock is read through `chrono`.

use vstd::prelude::*;

verus! {

/// The lower-case hexadecimal digit for `n` (below 16).
pub open spec fn hex_digit(n: u128) -> char {
    if n < 8 {
        if n < 4 {
            if n == 0 { '0' } else if n == 1 { '1' } else if n == 2 { '2' } else { '3' }
        } else {
            if n == 4 { '4' } else if n == 5 { '5' } else if n == 6 { '6' } else { '7' }
        }
    } else if n < 12 {
        if n == 8 { '8' } else if n == 9 { '9' } else if n == 10 { 'a' } else { 'b' }
    } else {
        if n == 12 { 'c' } else if n == 13 { 'd' } else if n == 14 { 'e' } else { 'f' }
    }
}

/// The `k`-th of the 32 hexadecimal digits of `value`, most significant
/// first.
pub open spec fn uuid_nibble(value: u128, k: int) -> u128 {
    (value >> ((124 - 4 * k) as u128)) & 0xfu128
}

/// The hyphenated text of a UUID: its 32 lower-case hexadecimal digits, most
/// significant first, in groups of 8, 4, 4, 4 and 12 joined by hyphens, 36
/// characters in all.
pub open spec fn uuid_text(value: u128) -> Seq<char> {
    Seq::new(
        36,
        |i: int|
            if i == 8 || i == 13 || i == 18 || i == 23 {
                '-'
            } else {
                let k = if i < 8 {
                    i
                } else if i < 13 {
                    i - 1
                } else if i < 18 {
                    i - 2
                } else if i < 23 {
                    i - 3
                } else {
                    i - 4
                };
                hex_digit(uuid_nibble(value, k))
            },
    )
}

/// What `uuid::Uuid::parse_str(text)` gives: the 128-bit value of the UUID
/// that `text` spells, or the message of the error.
pub uninterp spec fn uuid_parse(text: Seq<char>) -> Result<u128, Seq<char>>;

/// The 128-bit value of a random (version 4, RFC 4122 variant) UUID: the
/// version nibble is 4 and the two variant bits are `10`.
pub open spec fn is_random_uuid(value: u128) -> bool {
    (value >> 76u128) & 0xfu128 == 4 && (value >> 62u128) & 0x3u128 == 2
}

/// Draws a random (version 4) UUID with `uuid::Uuid::new_v4` and returns its
/// 128-bit value. `new_v4` masks random bits and sets the version nibble to
/// 4 and the variant bits to `10`; the contract claims that much and nothing
/// of the other bits, which come from the random number generator.
#[verifier::external_body]
pub(crate) fn fresh_uuid() -> (res: u128)
    ensures
        is_random_uuid(res),
{
    uuid::Uuid::new_v4().as_u128()
}

/// The text of a UUID, through `uuid::Uuid::from_u128(value).to_string()`.
/// The crate's `Display` writes the hyphenated lower-case form that
/// `uuid_text` spells out, and `Uuid::parse_str` reads that form back to the
/// same value; the contract claims these two facts.
#[verifier::external_body]
pub(crate) fn uuid_to_string(value: u128) -> (res: String)
    ensures
        res@ == uuid_text(value),
        res@.len() == 36,
        match uuid_parse(res@) {
            Ok(v) => v == value,
            Err(_) => false,
        },
{
    uuid::Uuid::from_u128(value).to_string()
}

/// Parses a UUID with `uuid::Uuid::parse_str`, giving its 128-bit value or
/// the error's message. The contract only ties the outcome to the name
/// `uuid_parse`; which texts the crate accepts is not restated here.
#[verifier::external_body]
pub(crate) fn parse_uuid(text: &str) -> (res: Result<u128, String>)
    ensures
        match uuid_parse(text@) {
            Ok(v) => res matches Ok(w) && w == v,
            Err(m) => res matches Err(e) && e@ == m,
        },
{
    match uuid::Uuid::parse_str(text) {
        Ok(u) => Ok(u.as_u128()),
        Err(e) => Err(e.to_string()),
    }
}

/// A point in time, UTC: whole seconds since the Unix epoch and the
/// nanoseconds past that second (beyond 999 999 999 only within a leap
/// second).
#[derive(Debug, Clone, Copy, PartialEq, Eq, Structural)]
pub struct Timestamp {
    pub secs: i64,
    pub nanos: u32,
}

/// The current time, through `chrono::Utc::now()`, read as its
/// `timestamp()` and `timestamp_subsec_nanos()`. Nothing is promised of it:
/// it is the machine's clock.
#[verifier::external_body]
pub(crate) fn now() -> Timestamp {
    let t = chrono::Utc::now();
    Timestamp { secs: t.timestamp(), nanos: t.timestamp_subsec_nanos() }
}

/// `c` is one of the digits `0` to `9`.
pub open spec fn is_digit(c: char) -> bool {
    0x30 <= (c as u32) <= 0x39
}

/// `s[k]` is the `T` of an RFC 3339 date and time whose UTC offset starts at
/// `f`: the date ends in `-MM-DD` with the year's sign and digits before it,
/// the time is `hh:mm:ss`, and a fraction of 3, 6 or 9 digits may follow.
pub open spec fn rfc3339_time_at(s: Seq<char>, k: int, f: int) -> bool {
    &&& 10 <= k
    &&& s[k] == 'T'
    &&& s[k - 3] == '-'
    &&& s[k - 6] == '-'
    &&& s[k + 3] == ':'
    &&& s[k + 6] == ':'
    &&& is_digit(s[k - 5]) && is_digit(s[k - 4]) && is_digit(s[k - 2]) && is_digit(s[k - 1])
    &&& is_digit(s[k + 1]) && is_digit(s[k + 2]) && is_digit(s[k + 4]) && is_digit(s[k + 5])
    &&& is_digit(s[k + 7]) && is_digit(s[k + 8])
    &&& forall|j: int| 0 <= j < k - 6 ==> is_digit(#[trigger] s[j]) || (j == 0 && (s[0] == '+' || s[0] == '-'))
    &&& (f == k + 9 || (s[k + 9] == '.' && (f == k + 13 || f == k + 16 || f == k + 19) && forall|j: int|
        k + 10 <= j < f ==> is_digit(#[trigger] s[j])))
}

/// `s` is an RFC 3339 time in UTC as chrono writes it, such as
/// `2024-05-01T12:30:05.123+00:00`: a date and time followed by the offset
/// `+00:00`.
pub open spec fn is_rfc3339_utc(s: Seq<char>) -> bool {
    let f = s.len() - 6;
    &&& s.len() >= 25
    &&& s[f] == '+' && s[f + 1] == '0' && s[f + 2] == '0' && s[f + 3] == ':' && s[f + 4] == '0' && s[f + 5]
        == '0'
    &&& exists|k: int| #[trigger] rfc3339_time_at(s, k, f)
}

/// The current time in RFC 3339 form, through
/// `chrono::Utc::now().to_rfc3339()`. Which time it reads is the machine's
/// clock; the contract claims only the form that chrono's `write_rfc3339`
/// gives every reading: date, `T`, time with an optional fraction of 3, 6
/// or 9 digits, and the offset `+00:00` (never `Z`).
#[verifier::external_body]
pub(crate) fn now_rfc3339() -> (res: String)
    ensures
        is_rfc3339_utc(res@),
{
    chrono::Utc::now().to_rfc3339()
}

} // verus!
