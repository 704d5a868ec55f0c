//! Calendar dates and their `DD.MM.YYYY` text form.
//!
//! The registry encodes every date as exactly ten characters: a zero-padded
//! day, month and four-digit year joined by `'.'`. Parsing accepts exactly
//! that shape with a valid proleptic Gregorian calendar date, and nothing
//! else; formatting reproduces it, so the two are mutually inverse.

pub mod dd_mm_yyyy;
pub mod dd_mm_yyyy_option;

use vstd::arithmetic::div_mod::lemma_fundamental_div_mod_converse;
use vstd::prelude::*;

verus! {

/// A calendar date in the proleptic Gregorian calendar, year 0 through 9999.
#[derive(Copy, Clone, Debug, PartialEq, Eq, Structural, Hash)]
pub struct Date {
    /// Year, 0 through 9999.
    pub year: u16,
    /// Month, 1 through 12.
    pub month: u8,
    /// Day of the month, 1 through the month's length.
    pub day: u8,
}

/// Rejection of a date text that is not `DD.MM.YYYY` with a valid date.
#[derive(Copy, Clone, Debug, PartialEq, Eq, Structural)]
pub struct DateError;

/// Leap years of the proleptic Gregorian calendar.
pub open spec fn is_leap_year(y: int) -> bool {
    (y % 4 == 0 && y % 100 != 0) || y % 400 == 0
}

/// Number of days of month `m` in year `y`.
pub open spec fn days_in_month(y: int, m: int) -> int {
    if m == 2 {
        if is_leap_year(y) {
            29
        } else {
            28
        }
    } else if m == 4 || m == 6 || m == 9 || m == 11 {
        30
    } else {
        31
    }
}

/// A valid calendar date with a four-digit year.
pub open spec fn valid_ymd(y: int, m: int, d: int) -> bool {
    &&& 0 <= y <= 9999
    &&& 1 <= m <= 12
    &&& 1 <= d <= days_in_month(y, m)
}

impl Date {
    /// The fields form a valid calendar date.
    pub open spec fn wf(self) -> bool {
        valid_ymd(self.year as int, self.month as int, self.day as int)
    }
}

/// An ASCII decimal digit.
pub open spec fn is_digit(c: char) -> bool {
    48 <= c as int <= 57
}

/// Value of an ASCII decimal digit.
pub open spec fn digit_val(c: char) -> int {
    c as int - 48
}

/// The ASCII digit character with value `v`.
pub open spec fn digit_char(v: int) -> char {
    (48 + v) as char
}

/// Value of the two digits of `s` at positions `i` and `i + 1`.
pub open spec fn two_digits(s: Seq<char>, i: int) -> int {
    10 * digit_val(s[i]) + digit_val(s[i + 1])
}

/// Value of the four digits of `s` at positions `i` through `i + 3`.
pub open spec fn four_digits(s: Seq<char>, i: int) -> int {
    1000 * digit_val(s[i]) + 100 * digit_val(s[i + 1]) + 10 * digit_val(s[i + 2]) + digit_val(
        s[i + 3],
    )
}

/// Ten characters in the shape `DD.MM.YYYY`, all digits in place.
pub open spec fn date_shaped(s: Seq<char>) -> bool {
    &&& s.len() == 10
    &&& is_digit(s[0])
    &&& is_digit(s[1])
    &&& s[2] == '.'
    &&& is_digit(s[3])
    &&& is_digit(s[4])
    &&& s[5] == '.'
    &&& is_digit(s[6])
    &&& is_digit(s[7])
    &&& is_digit(s[8])
    &&& is_digit(s[9])
}

/// The date that the text `s` denotes: `Some` exactly when `s` is shaped
/// `DD.MM.YYYY` and names a valid calendar date.
pub open spec fn spec_parse_date(s: Seq<char>) -> Option<Date> {
    if date_shaped(s) && valid_ymd(four_digits(s, 6), two_digits(s, 3), two_digits(s, 0)) {
        Some(
            Date {
                year: four_digits(s, 6) as u16,
                month: two_digits(s, 3) as u8,
                day: two_digits(s, 0) as u8,
            },
        )
    } else {
        None
    }
}

/// The ten-character `DD.MM.YYYY` text of `d`.
pub open spec fn spec_format_date(d: Date) -> Seq<char> {
    seq![
        digit_char(d.day as int / 10),
        digit_char(d.day as int % 10),
        '.',
        digit_char(d.month as int / 10),
        digit_char(d.month as int % 10),
        '.',
        digit_char(d.year as int / 1000),
        digit_char(d.year as int / 100 % 10),
        digit_char(d.year as int / 10 % 10),
        digit_char(d.year as int % 10),
    ]
}

/// Number of days of `month` in `year`.
pub fn month_days(year: u16, month: u8) -> (r: u8)
    requires
        1 <= month <= 12,
    ensures
        r as int == days_in_month(year as int, month as int),
{
    if month == 2 {
        if (year % 4 == 0 && year % 100 != 0) || year % 400 == 0 {
            29
        } else {
            28
        }
    } else if month == 4 || month == 6 || month == 9 || month == 11 {
        30
    } else {
        31
    }
}

/// Whether `c` is an ASCII decimal digit.
pub fn digit(c: char) -> (r: bool)
    ensures
        r == is_digit(c),
{
    c >= '0' && c <= '9'
}

/// The ASCII digit character with value `v`.
pub fn digit_to_char(v: u8) -> (c: char)
    requires
        v < 10,
    ensures
        c == digit_char(v as int),
{
    (48 + v) as char
}

/// Parse a `DD.MM.YYYY` character sequence into a date.
pub fn date_from_chars(s: &[char]) -> (r: Option<Date>)
    ensures
        r == spec_parse_date(s@),
{
    if s.len() != 10 {
        return None;
    }
    if !(digit(s[0]) && digit(s[1]) && s[2] == '.' && digit(s[3]) && digit(s[4]) && s[5] == '.'
        && digit(s[6]) && digit(s[7]) && digit(s[8]) && digit(s[9])) {
        return None;
    }
    let day: u32 = (s[0] as u32 - 48) * 10 + (s[1] as u32 - 48);
    let month: u32 = (s[3] as u32 - 48) * 10 + (s[4] as u32 - 48);
    let year: u32 = (s[6] as u32 - 48) * 1000 + (s[7] as u32 - 48) * 100 + (s[8] as u32 - 48) * 10
        + (s[9] as u32 - 48);
    if !(1 <= month && month <= 12) {
        return None;
    }
    if day < 1 || day > month_days(year as u16, month as u8) as u32 {
        return None;
    }
    Some(Date { year: year as u16, month: month as u8, day: day as u8 })
}

/// Format a date as its ten `DD.MM.YYYY` characters.
pub fn date_to_chars(d: &Date) -> (r: Vec<char>)
    requires
        d.wf(),
    ensures
        r@ == spec_format_date(*d),
{
    let mut v: Vec<char> = Vec::new();
    v.push(digit_to_char(d.day / 10));
    v.push(digit_to_char(d.day % 10));
    v.push('.');
    v.push(digit_to_char(d.month / 10));
    v.push(digit_to_char(d.month % 10));
    v.push('.');
    v.push(digit_to_char((d.year / 1000) as u8));
    v.push(digit_to_char((d.year / 100 % 10) as u8));
    v.push(digit_to_char((d.year / 10 % 10) as u8));
    v.push(digit_to_char((d.year % 10) as u8));
    assert(v@ =~= spec_format_date(*d));
    v
}

/// A date parsed from its own text formats back to that exact text:
/// decode-then-reencode is the identity on every accepted date string.
pub proof fn lemma_date_round_trip(s: Seq<char>)
    requires
        spec_parse_date(s) is Some,
    ensures
        spec_format_date(spec_parse_date(s)->Some_0) == s,
{
    let d = spec_parse_date(s)->Some_0;
    let d1 = digit_val(s[0]);
    let d0 = digit_val(s[1]);
    let m1 = digit_val(s[3]);
    let m0 = digit_val(s[4]);
    let y3 = digit_val(s[6]);
    let y2 = digit_val(s[7]);
    let y1 = digit_val(s[8]);
    let y0 = digit_val(s[9]);

    lemma_fundamental_div_mod_converse(d.day as int, 10, d1, d0);
    lemma_fundamental_div_mod_converse(d.month as int, 10, m1, m0);
    let y = d.year as int;
    lemma_fundamental_div_mod_converse(y, 1000, y3, 100 * y2 + 10 * y1 + y0);
    lemma_fundamental_div_mod_converse(y, 100, 10 * y3 + y2, 10 * y1 + y0);
    lemma_fundamental_div_mod_converse(10 * y3 + y2, 10, y3, y2);
    lemma_fundamental_div_mod_converse(y, 10, 100 * y3 + 10 * y2 + y1, y0);
    lemma_fundamental_div_mod_converse(100 * y3 + 10 * y2 + y1, 10, 10 * y3 + y2, y1);

    lemma_digit_char_val(s[0]);
    lemma_digit_char_val(s[1]);
    lemma_digit_char_val(s[3]);
    lemma_digit_char_val(s[4]);
    lemma_digit_char_val(s[6]);
    lemma_digit_char_val(s[7]);
    lemma_digit_char_val(s[8]);
    lemma_digit_char_val(s[9]);
    assert(spec_format_date(d) =~= s);
}

/// Every valid date's text parses back to that date: the formatter writes
/// only texts that the parser accepts, and to the same value.
#[verifier::rlimit(100)]
pub proof fn lemma_date_format_parses(d: Date)
    requires
        d.wf(),
    ensures
        spec_parse_date(spec_format_date(d)) == Some(d),
{
    let s = spec_format_date(d);
    lemma_digit_val_char(d.day as int / 10);
    lemma_digit_val_char(d.day as int % 10);
    lemma_digit_val_char(d.month as int / 10);
    lemma_digit_val_char(d.month as int % 10);
    lemma_digit_val_char(d.year as int / 1000);
    lemma_digit_val_char(d.year as int / 100 % 10);
    lemma_digit_val_char(d.year as int / 10 % 10);
    lemma_digit_val_char(d.year as int % 10);
    assert(two_digits(s, 0) == d.day);
    assert(two_digits(s, 3) == d.month);
    assert(four_digits(s, 6) == d.year) by {
        let y = d.year as int;
        assert(y == 1000 * (y / 1000) + 100 * (y / 100 % 10) + 10 * (y / 10 % 10) + y % 10);
    }
}

/// The value of a rebuilt digit character is the digit value it was built
/// from.
proof fn lemma_digit_val_char(v: int)
    requires
        0 <= v <= 9,
    ensures
        is_digit(digit_char(v)),
        digit_val(digit_char(v)) == v,
{
    let u = (48 + v) as u32;
    vstd::utf8::char_is_scalar(u as char);
    assert((u as char) as u32 == u) by {
        assert(u <= 57);
    }
}

/// Rebuilding a digit character from its value gives the character back.
proof fn lemma_digit_char_val(c: char)
    requires
        is_digit(c),
    ensures
        digit_char(digit_val(c)) == c,
{
    vstd::utf8::char_u32_cast(c, (48 + digit_val(c)) as u32);
}

} // verus!
