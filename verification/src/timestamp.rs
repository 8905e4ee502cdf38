//! Timestamps with a fixed UTC offset, and the access-log timestamp
//! format.
//!
//! Access logs carry timestamps in one fixed layout: a one- or
//! two-digit day, an abbreviated month name, a four-digit year, then
//! `:H:M:S` with two digits each, one space, and a `+hhmm` or `-hhmm`
//! offset — as in `10/Oct/2000:13:55:36 -0700`. The parser here accepts
//! exactly that layout, including calendar validity of the date, and is
//! proved equal to its specification.

use vstd::prelude::*;
use crate::num::{digit_val, digits_val, is_digit_char};

verus! {

use vstd::string::StrSliceExecFns;

/// An instant with a fixed offset from UTC, as plain calendar fields.
///
/// `offset_seconds` is the local-time-minus-UTC difference; `-0700`
/// parses to `-25200`.
#[derive(Debug, Clone, Copy, PartialEq, Eq, Structural, Hash)]
pub struct LogTimestamp {
    pub year: i32,
    pub month: u8,
    pub day: u8,
    pub hour: u8,
    pub minute: u8,
    pub second: u8,
    pub offset_seconds: i32,
}

/// Gregorian leap-year rule.
pub open spec fn is_leap_year(y: int) -> bool {
    (y % 4 == 0 && y % 100 != 0) || y % 400 == 0
}

/// Number of days in month `m` (1-based) of year `y`.
pub open spec fn days_in_month(y: int, m: int) -> int {
    if m == 2 {
        if is_leap_year(y) {
            29
        } else {
            28
        }
    } else if m == 4 || m == 6 || m == 9 || m == 11 {
        30
    } else {
        31
    }
}

/// A timestamp whose fields describe a real calendar instant with an
/// offset of at most a day.
pub open spec fn ts_valid(t: LogTimestamp) -> bool {
    0 <= t.year <= 9999 && 1 <= t.month <= 12 && 1 <= t.day <= days_in_month(
        t.year as int,
        t.month as int,
    ) && t.hour <= 23 && t.minute <= 59 && t.second <= 59 && -86340 <= t.offset_seconds <= 86340
}

/// 1-based month number of a three-letter month abbreviation, or 0 if
/// the three characters name no month.
pub open spec fn month_number(a: char, b: char, c: char) -> int {
    if a == 'J' && b == 'a' && c == 'n' {
        1
    } else if a == 'F' && b == 'e' && c == 'b' {
        2
    } else if a == 'M' && b == 'a' && c == 'r' {
        3
    } else if a == 'A' && b == 'p' && c == 'r' {
        4
    } else if a == 'M' && b == 'a' && c == 'y' {
        5
    } else if a == 'J' && b == 'u' && c == 'n' {
        6
    } else if a == 'J' && b == 'u' && c == 'l' {
        7
    } else if a == 'A' && b == 'u' && c == 'g' {
        8
    } else if a == 'S' && b == 'e' && c == 'p' {
        9
    } else if a == 'O' && b == 'c' && c == 't' {
        10
    } else if a == 'N' && b == 'o' && c == 'v' {
        11
    } else if a == 'D' && b == 'e' && c == 'c' {
        12
    } else {
        0
    }
}

/// What the 24 characters after the day field must look like —
/// `/Mon/yyyy:HH:MM:SS shhmm` — and the timestamp they denote together
/// with a day value of `day`.
pub open spec fn ts_rest_model(day: int, r: Seq<char>) -> Option<LogTimestamp> {
    if r.len() == 24 && r[0] == '/' && r[4] == '/' && r[9] == ':' && r[12] == ':' && r[15] == ':'
        && r[18] == ' ' && month_number(r[1], r[2], r[3]) != 0 && is_digit_char(r[5])
        && is_digit_char(r[6]) && is_digit_char(r[7]) && is_digit_char(r[8]) && is_digit_char(
        r[10],
    ) && is_digit_char(r[11]) && is_digit_char(r[13]) && is_digit_char(r[14]) && is_digit_char(
        r[16],
    ) && is_digit_char(r[17]) && (r[19] == '+' || r[19] == '-') && is_digit_char(r[20])
        && is_digit_char(r[21]) && is_digit_char(r[22]) && is_digit_char(r[23]) {
        let month = month_number(r[1], r[2], r[3]);
        let year = digit_val(r[5]) * 1000 + digit_val(r[6]) * 100 + digit_val(r[7]) * 10
            + digit_val(r[8]);
        let hour = digit_val(r[10]) * 10 + digit_val(r[11]);
        let minute = digit_val(r[13]) * 10 + digit_val(r[14]);
        let second = digit_val(r[16]) * 10 + digit_val(r[17]);
        let oh = digit_val(r[20]) * 10 + digit_val(r[21]);
        let om = digit_val(r[22]) * 10 + digit_val(r[23]);
        if 1 <= day <= days_in_month(year, month) && hour <= 23 && minute <= 59 && second <= 59
            && oh <= 23 && om <= 59 {
            let off = oh * 3600 + om * 60;
            Some(
                LogTimestamp {
                    year: year as i32,
                    month: month as u8,
                    day: day as u8,
                    hour: hour as u8,
                    minute: minute as u8,
                    second: second as u8,
                    offset_seconds: if r[19] == '-' {
                        (-off) as i32
                    } else {
                        off as i32
                    },
                },
            )
        } else {
            None
        }
    } else {
        None
    }
}

/// What a whole timestamp slice parses to: a one- or two-digit day,
/// then the fixed 24-character remainder, with nothing before or after.
pub open spec fn ts_model(s: Seq<char>) -> Option<LogTimestamp> {
    let dlen: int = if s.len() >= 1 && is_digit_char(s[0]) {
        if s.len() >= 2 && is_digit_char(s[1]) {
            2
        } else {
            1
        }
    } else {
        0
    };
    if dlen == 0 || s.len() != dlen + 24 {
        None
    } else {
        ts_rest_model(digits_val(s.subrange(0, dlen)), s.subrange(dlen, s.len() as int))
    }
}

/// Every timestamp the format accepts is a valid calendar instant.
pub proof fn lemma_ts_model_valid(s: Seq<char>)
    requires
        ts_model(s) is Some,
    ensures
        ts_valid(ts_model(s)->Some_0),
{
}

/// Executable test for a decimal digit.
fn is_digit(c: char) -> (r: bool)
    ensures
        r == is_digit_char(c),
{
    c as u32 >= '0' as u32 && c as u32 <= '9' as u32
}

/// Numeric value of a digit character.
fn digit(c: char) -> (r: u32)
    requires
        is_digit_char(c),
    ensures
        r == digit_val(c),
        r <= 9,
{
    c as u32 - '0' as u32
}

/// Executable month-name lookup.
fn month_num(a: char, b: char, c: char) -> (r: u32)
    ensures
        r == month_number(a, b, c),
{
    if a == 'J' && b == 'a' && c == 'n' {
        1
    } else if a == 'F' && b == 'e' && c == 'b' {
        2
    } else if a == 'M' && b == 'a' && c == 'r' {
        3
    } else if a == 'A' && b == 'p' && c == 'r' {
        4
    } else if a == 'M' && b == 'a' && c == 'y' {
        5
    } else if a == 'J' && b == 'u' && c == 'n' {
        6
    } else if a == 'J' && b == 'u' && c == 'l' {
        7
    } else if a == 'A' && b == 'u' && c == 'g' {
        8
    } else if a == 'S' && b == 'e' && c == 'p' {
        9
    } else if a == 'O' && b == 'c' && c == 't' {
        10
    } else if a == 'N' && b == 'o' && c == 'v' {
        11
    } else if a == 'D' && b == 'e' && c == 'c' {
        12
    } else {
        0
    }
}

/// Executable days-in-month.
fn month_days(y: i32, m: u32) -> (r: u32)
    ensures
        r == days_in_month(y as int, m as int),
{
    if m == 2 {
        if (y % 4 == 0 && y % 100 != 0) || y % 400 == 0 {
            29
        } else {
            28
        }
    } else if m == 4 || m == 6 || m == 9 || m == 11 {
        30
    } else {
        31
    }
}

/// Parse a timestamp slice in the fixed access-log format, proved equal
/// to `ts_model`.
pub fn parse_timestamp_text(s: &str) -> (r: Option<LogTimestamp>)
    ensures
        r == ts_model(s@),
{
    let n = s.unicode_len();
    if n < 1 || !is_digit(s.get_char(0)) {
        return None;
    }
    let dlen: usize = if n >= 2 && is_digit(s.get_char(1)) {
        2
    } else {
        1
    };
    if n != dlen + 24 {
        return None;
    }
    let day: u32 = if dlen == 2 {
        digit(s.get_char(0)) * 10 + digit(s.get_char(1))
    } else {
        digit(s.get_char(0))
    };
    proof {
        reveal_with_fuel(digits_val, 3);
        let dseq = s@.subrange(0, dlen as int);
        if dlen == 2 {
            assert(dseq.drop_last() =~= s@.subrange(0, 1));
            assert(dseq.drop_last().drop_last() =~= Seq::<char>::empty());
            assert(digits_val(dseq) == digit_val(s@[0]) * 10 + digit_val(s@[1]));
        } else {
            assert(dseq.drop_last() =~= Seq::<char>::empty());
            assert(digits_val(dseq) == digit_val(s@[0]));
        }
    }
    let ghost rest = s@.subrange(dlen as int, s@.len() as int);
    let b = dlen;
    if !(s.get_char(b) == '/' && s.get_char(b + 4) == '/' && s.get_char(b + 9) == ':'
        && s.get_char(b + 12) == ':' && s.get_char(b + 15) == ':' && s.get_char(b + 18) == ' ') {
        return None;
    }
    let mon = month_num(s.get_char(b + 1), s.get_char(b + 2), s.get_char(b + 3));
    if mon == 0 {
        return None;
    }
    if !(is_digit(s.get_char(b + 5)) && is_digit(s.get_char(b + 6)) && is_digit(s.get_char(b + 7))
        && is_digit(s.get_char(b + 8)) && is_digit(s.get_char(b + 10)) && is_digit(
        s.get_char(b + 11),
    ) && is_digit(s.get_char(b + 13)) && is_digit(s.get_char(b + 14)) && is_digit(
        s.get_char(b + 16),
    ) && is_digit(s.get_char(b + 17))) {
        return None;
    }
    let sign = s.get_char(b + 19);
    if !(sign == '+' || sign == '-') {
        return None;
    }
    if !(is_digit(s.get_char(b + 20)) && is_digit(s.get_char(b + 21)) && is_digit(
        s.get_char(b + 22),
    ) && is_digit(s.get_char(b + 23))) {
        return None;
    }
    let year: u32 = digit(s.get_char(b + 5)) * 1000 + digit(s.get_char(b + 6)) * 100 + digit(
        s.get_char(b + 7),
    ) * 10 + digit(s.get_char(b + 8));
    let hour: u32 = digit(s.get_char(b + 10)) * 10 + digit(s.get_char(b + 11));
    let minute: u32 = digit(s.get_char(b + 13)) * 10 + digit(s.get_char(b + 14));
    let second: u32 = digit(s.get_char(b + 16)) * 10 + digit(s.get_char(b + 17));
    let oh: u32 = digit(s.get_char(b + 20)) * 10 + digit(s.get_char(b + 21));
    let om: u32 = digit(s.get_char(b + 22)) * 10 + digit(s.get_char(b + 23));
    if !(1 <= day && day <= month_days(year as i32, mon) && hour <= 23 && minute <= 59 && second
        <= 59 && oh <= 23 && om <= 59) {
        return None;
    }
    let off: i32 = (oh * 3600 + om * 60) as i32;
    Some(
        LogTimestamp {
            year: year as i32,
            month: mon as u8,
            day: day as u8,
            hour: hour as u8,
            minute: minute as u8,
            second: second as u8,
            offset_seconds: if sign == '-' {
                -off
            } else {
                off
            },
        },
    )
}

} // verus!
