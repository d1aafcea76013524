//! The formatting that the bot takes from outside crates: humantime's
//! durations, chrono's calendar texts, percent-encoding of search terms and
//! byte-unit's sizes. Each call stands behind one trusted item whose contract
//! says what the crate returns.
use vstd::prelude::*;
use crate::text::{decimal, digit_char, joined};
use vstd::string::StringSliceAdditionalSpecFns;

verus! {

// ---------------------------------------------------------------------------
// humantime
// ---------------------------------------------------------------------------

/// One unit of a humantime duration: the count and the unit name, with an
/// `s` after the name where `plural` is asked for and the count exceeds one.
pub open spec fn unit_part(value: nat, unit: Seq<char>, plural: bool) -> Seq<char> {
    decimal(value) + unit + (if plural && value > 1 { seq!['s'] } else { Seq::empty() })
}

/// Adds a unit to the parts when its count is not zero.
pub open spec fn with_unit(parts: Seq<Seq<char>>, value: nat, unit: Seq<char>, plural: bool) -> Seq<Seq<char>> {
    if value > 0 { parts.push(unit_part(value, unit, plural)) } else { parts }
}

/// The non-zero units of a whole number of seconds, largest first: years of
/// 365.25 days, months of 30.44 days, days, hours, minutes and seconds.
pub open spec fn duration_parts(secs: nat) -> Seq<Seq<char>> {
    let years = secs / 31_557_600;
    let ydays = secs % 31_557_600;
    let months = ydays / 2_630_016;
    let mdays = ydays % 2_630_016;
    let days = mdays / 86400;
    let day_secs = mdays % 86400;
    let hours = day_secs / 3600;
    let minutes = day_secs % 3600 / 60;
    let seconds = day_secs % 60;
    let p0 = with_unit(Seq::empty(), years, "year"@, true);
    let p1 = with_unit(p0, months, "month"@, true);
    let p2 = with_unit(p1, days, "day"@, true);
    let p3 = with_unit(p2, hours, "h"@, false);
    let p4 = with_unit(p3, minutes, "m"@, false);
    with_unit(p4, seconds, "s"@, false)
}

/// What humantime prints for a duration of `secs` whole seconds.
pub open spec fn duration_text(secs: nat) -> Seq<char> {
    if secs == 0 { "0s"@ } else { joined(duration_parts(secs), " "@) }
}

/// `humantime::format_duration` of `secs` whole seconds, as a string. The
/// crate writes "0s" for zero and otherwise the non-zero units (years of
/// 31,557,600 s, months of 2,630,016 s, days, h, m, s), separated by spaces,
/// with "s" after year, month and day counts above one.
#[verifier::external_body]
pub(crate) fn format_duration_secs(secs: u64) -> (s: String)
    ensures
        s@ == duration_text(secs as nat),
{
    humantime::format_duration(std::time::Duration::from_secs(secs)).to_string()
}

// ---------------------------------------------------------------------------
// chrono
// ---------------------------------------------------------------------------

/// The text that chrono writes for the UTC time `secs` seconds after the
/// Unix epoch under the format `pattern`.
pub uninterp spec fn utc_text(secs: int, pattern: Seq<char>) -> Seq<char>;

/// The instants that chrono's `DateTime<Utc>` can hold: from the first
/// second of the year -262143 to the last second of the year 262142.
pub open spec fn utc_in_range(secs: int) -> bool {
    -8_334_601_315_200 <= secs && secs <= 8_210_266_876_799
}

/// The format patterns that the bot uses; chrono accepts each of them.
pub open spec fn known_pattern(p: Seq<char>) -> bool {
    ||| p == "%B %e, %Y"@
    ||| p == "%B %-e, %Y"@
    ||| p == "%B %-d, %Y"@
    ||| p == "%B %e, %Y - %I:%M %p"@
    ||| p == "%A, %B %e, %Y @ %l:%M %P"@
    ||| p == "%B %e, %Y @ %l:%M %P"@
    ||| p == "%A"@
    ||| p == "%-S seconds"@
    ||| p == "%-M minutes, %-S seconds"@
    ||| p == "%-H hour(s), %-M minutes, %-S seconds"@
}

/// `chrono::DateTime::<Utc>::from_timestamp(secs, 0)`, formatted with
/// `pattern`. chrono returns no time outside the range it can hold; the
/// text is named, not stated.
#[verifier::external_body]
pub(crate) fn format_utc(secs: i64, pattern: &str) -> (r: Option<String>)
    requires
        known_pattern(pattern@),
    ensures
        r is Some <==> utc_in_range(secs as int),
        r matches Some(s) ==> s@ == utc_text(secs as int, pattern@),
{
    match chrono::DateTime::from_timestamp(secs, 0) {
        Some(t) => Some(t.format(pattern).to_string()),
        None => None,
    }
}

/// The chrono text of a time that chrono can hold.
pub fn utc_string(secs: i64, pattern: &str) -> (s: String)
    requires
        known_pattern(pattern@),
        utc_in_range(secs as int),
    ensures
        s@ == utc_text(secs as int, pattern@),
{
    match format_utc(secs, pattern) {
        Some(s) => s,
        None => String::new(),
    }
}

/// The text chrono writes for the calendar date `days` days after
/// 1970-01-01 (`NaiveDate`'s `Display`).
pub uninterp spec fn date_text(days: int) -> Seq<char>;

/// The days that chrono's `NaiveDate` can hold, counted from 1970-01-01:
/// from the first day of the year -262143 to the last of the year 262142.
pub open spec fn date_in_range(days: int) -> bool {
    -96_465_293 <= days && days <= 95_026_236
}

/// `chrono::NaiveDate::from_epoch_days(days)`, written with `to_string`.
/// chrono returns no date outside the range it can hold; the text is
/// named, not stated.
#[verifier::external_body]
pub(crate) fn format_date(days: i32) -> (r: Option<String>)
    ensures
        r is Some <==> date_in_range(days as int),
        r matches Some(s) ==> s@ == date_text(days as int),
{
    match chrono::NaiveDate::from_epoch_days(days) {
        Some(d) => Some(d.to_string()),
        None => None,
    }
}

/// The chrono text of a date that chrono can hold.
pub fn date_string(days: i32) -> (s: String)
    requires
        date_in_range(days as int),
    ensures
        s@ == date_text(days as int),
{
    match format_date(days) {
        Some(s) => s,
        None => String::new(),
    }
}

/// The day, counted from 1970-01-01, that chrono reads from `s` under the
/// pattern `%Y-%m-%d`, if it reads one.
pub uninterp spec fn ymd_days(s: Seq<char>) -> Option<int>;

/// `chrono::NaiveDate::parse_from_str(s, "%Y-%m-%d")`, as a day count from
/// 1970-01-01 (`to_epoch_days`). chrono's reading rules are not stated:
/// the result is named; whatever date it reads is one chrono holds.
#[verifier::external_body]
pub(crate) fn parse_ymd(s: &str) -> (r: Option<i32>)
    ensures
        r matches Some(d) ==> date_in_range(d as int),
        match r {
            Some(d) => ymd_days(s@) == Some(d as int),
            None => ymd_days(s@) is None,
        },
{
    match chrono::NaiveDate::parse_from_str(s, "%Y-%m-%d") {
        Ok(d) => Some(d.to_epoch_days()),
        Err(_) => None,
    }
}

// ---------------------------------------------------------------------------
// percent-encoding
// ---------------------------------------------------------------------------

/// Upper-case hexadecimal digit for `d` in 0..16.
pub open spec fn hex_upper(d: int) -> char {
    if d < 10 { digit_char(d) }
    else if d == 10 { 'A' }
    else if d == 11 { 'B' }
    else if d == 12 { 'C' }
    else if d == 13 { 'D' }
    else if d == 14 { 'E' }
    else { 'F' }
}

/// ASCII letters and digits pass unencoded.
pub open spec fn is_alnum_byte(b: u8) -> bool {
    (0x30 <= b && b <= 0x39) || (0x41 <= b && b <= 0x5A) || (0x61 <= b && b <= 0x7A)
}

/// Each byte either kept (letters and digits) or written as `%XX`.
pub open spec fn percent_bytes(bs: Seq<u8>) -> Seq<char>
    decreases bs.len(),
{
    if bs.len() == 0 {
        Seq::empty()
    } else {
        (if is_alnum_byte(bs[0]) {
            seq![bs[0] as char]
        } else {
            seq!['%', hex_upper((bs[0] / 16) as int), hex_upper((bs[0] % 16) as int)]
        }) + percent_bytes(bs.skip(1))
    }
}

/// `percent_encoding::utf8_percent_encode(s, NON_ALPHANUMERIC)`, collected
/// into a string: every byte of the UTF-8 form of `s` that is not an ASCII
/// letter or digit becomes `%` and two upper-case hex digits.
#[verifier::external_body]
pub(crate) fn percent_encode(s: &str) -> (r: String)
    ensures
        r@ == percent_bytes(s.spec_bytes()),
{
    percent_encoding::utf8_percent_encode(s, percent_encoding::NON_ALPHANUMERIC).to_string()
}

// ---------------------------------------------------------------------------
// byte-unit
// ---------------------------------------------------------------------------

/// The text byte-unit writes for `kilobytes` thousand bytes in the decimal
/// unit that suits it, with two fractional digits.
pub uninterp spec fn size_text(kilobytes: int) -> Seq<char>;

/// `Byte::from_bytes(n_kb_bytes(kilobytes)).get_appropriate_unit(false).format(2)`
/// from byte-unit: the size in decimal units, with two digits after the
/// point (floating point inside the crate); the text is named, not stated.
#[verifier::external_body]
pub(crate) fn size_string(kilobytes: u64) -> (s: String)
    ensures
        s@ == size_text(kilobytes as int),
{
    byte_unit::Byte::from_bytes(byte_unit::n_kb_bytes(kilobytes as u128)).get_appropriate_unit(false).format(2)
}

} // verus!
