//! The calls into std and chrono that the rules of the tracker rest on.

use vstd::prelude::*;

verus! {

/// Whether `char::is_numeric` holds of a character: whether the character
/// belongs to one of Unicode's general categories for numbers.
pub uninterp spec fn numeric_char(c: char) -> bool;

/// Calls `char::is_numeric`. Trusted: the result is `numeric_char(c)`; the
/// ASCII digits `'0'..='9'` are numeric (they are of category Nd), and no
/// other ASCII character is (no other one is of a category for numbers).
#[verifier::external_body]
pub(crate) fn char_is_numeric(c: char) -> (r: bool)
    ensures
        r == numeric_char(c),
        '0' <= c <= '9' ==> r,
        (c as int) < 128 && !('0' <= c <= '9') ==> !r,
{
    c.is_numeric()
}


/// The ASCII decimal digits `'0'..='9'`.
pub open spec fn is_ascii_digit(c: char) -> bool {
    '0' <= c <= '9'
}

/// Every character of `s` is an ASCII decimal digit.
pub open spec fn all_ascii_digits(s: Seq<char>) -> bool {
    forall|i: int| 0 <= i < s.len() ==> is_ascii_digit(#[trigger] s[i])
}

/// The number that a string of ASCII decimal digits writes, most significant
/// digit first.
pub open spec fn decimal_value(s: Seq<char>) -> int
    decreases s.len(),
{
    if s.len() == 0 {
        0
    } else {
        decimal_value(s.drop_last()) * 10 + (s.last() as int - '0' as int)
    }
}

/// The sign of a number's text and the digits after it: a leading `-` makes
/// it negative, a leading `+` is dropped.
pub open spec fn sign_and_digits(s: Seq<char>) -> (bool, Seq<char>) {
    if s.len() > 0 && s[0] == '-' {
        (true, s.drop_first())
    } else if s.len() > 0 && s[0] == '+' {
        (false, s.drop_first())
    } else {
        (false, s)
    }
}

/// What `str::parse::<i32>` gives back for a text: an optional `+` or `-`
/// followed by one or more ASCII digits names a number, which must fit an
/// `i32`; any other text is an error (`None`).
pub open spec fn parsed_i32(s: Seq<char>) -> Option<i32> {
    let (negative, digits) = sign_and_digits(s);
    let v = if negative {
        -decimal_value(digits)
    } else {
        decimal_value(digits)
    };
    if digits.len() == 0 || !all_ascii_digits(digits) || v < i32::MIN || v > i32::MAX {
        None
    } else {
        Some(v as i32)
    }
}

/// Calls `str::parse::<i32>`. Trusted: the result is `parsed_i32(s@)`, the
/// grammar that std documents for `i32::from_str` (through
/// `from_str_radix` with radix 10: an optional sign followed by digits, with
/// an error on an empty text, on any other character, and on overflow).
#[verifier::external_body]
pub(crate) fn parse_i32(s: &str) -> (r: Option<i32>)
    ensures
        r == parsed_i32(s@),
{
    match s.parse::<i32>() {
        Ok(v) => Some(v),
        Err(_) => None,
    }
}

/// The least instant, in milliseconds since the Unix epoch, below every one
/// that chrono can hold (its dates begin in the year -262143).
pub open spec fn epoch_millis_min() -> int {
    -8_400_000_000_000_000
}

/// An instant, in milliseconds since the Unix epoch, above every one that
/// chrono can hold (its dates end in the year 262142).
pub open spec fn epoch_millis_max() -> int {
    8_300_000_000_000_000
}

/// The instant that an RFC 2822 date names, in milliseconds since the Unix
/// epoch, as chrono reads it; `None` where chrono refuses the text.
pub uninterp spec fn rfc2822_epoch_millis(s: Seq<char>) -> Option<i64>;

/// Calls `chrono::DateTime::parse_from_rfc2822` and, on success, its
/// `timestamp_millis`. Trusted: the result is `rfc2822_epoch_millis(s@)`,
/// and an instant it gives lies within the dates chrono can hold (years
/// -262143 to 262142). Nothing more of the date grammar is stated.
#[verifier::external_body]
pub(crate) fn parse_rfc2822_millis(s: &str) -> (r: Option<i64>)
    ensures
        r == rfc2822_epoch_millis(s@),
        r matches Some(v) ==> epoch_millis_min() <= v <= epoch_millis_max(),
{
    match chrono::DateTime::parse_from_rfc2822(s) {
        Ok(t) => Some(t.timestamp_millis()),
        Err(_) => None,
    }
}

/// Calls `chrono::Duration::minutes` and reads the duration back with
/// `num_milliseconds`. Trusted: a duration of `minutes` minutes holds
/// `minutes * 60_000` milliseconds. chrono panics when `minutes * 60` seconds
/// lie beyond `i64::MAX / 1000`; `requires` keeps such inputs out.
#[verifier::external_body]
pub(crate) fn minutes_in_millis(minutes: i64) -> (r: i64)
    requires
        -(i64::MAX / 1000) <= minutes * 60 <= i64::MAX / 1000,
    ensures
        r == minutes * 60_000,
{
    chrono::Duration::minutes(minutes).num_milliseconds()
}

/// Calls `chrono::Local::now` and formats the instant with `to_rfc2822`.
/// The date depends on the clock and is not named. Trusted: the text is a
/// full date (`"Www, D Mon YYYY HH:MM:SS +HHMM"`, never the unset start
/// `"0"`), which chrono's RFC 2822 reader accepts: chrono writes the year with
/// four digits and reads four-digit years as written, and panics rather than
/// write a year outside 0..=9999. chrono also panics when the system clock
/// lies before the Unix epoch (`Utc::now`); no argument can rule that out.
#[verifier::external_body]
pub(crate) fn local_now_rfc2822() -> (r: String)
    ensures
        r@ != seq!['0'],
        rfc2822_epoch_millis(r@) is Some,
{
    chrono::Local::now().to_rfc2822()
}

/// Calls `chrono::Local::now` and reads the instant with `timestamp_millis`.
/// The instant depends on the clock and is not named. Trusted: it lies at or
/// after the Unix epoch (chrono's `Utc::now` panics on a clock before it, and
/// no argument can rule that out) and within the dates chrono can hold.
#[verifier::external_body]
pub(crate) fn local_now_millis() -> (r: i64)
    ensures
        0 <= r <= epoch_millis_max(),
{
    chrono::Local::now().timestamp_millis()
}

} // verus!
