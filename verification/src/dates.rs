//! Calendar dates: the `YYYY-MM-DD` header format, validity, ordering and
//! the date-time values carried into RSS items.

use vstd::prelude::*;

verus! {

/// A calendar date.
#[derive(Debug, Clone, Copy, PartialEq, Eq, Structural)]
pub struct Date {
    pub year: u32,
    pub month: u8,
    pub day: u8,
}

/// A date with a time of day.
#[derive(Debug, Clone, Copy, PartialEq, Eq, Structural)]
pub struct DateTime {
    pub date: Date,
    pub hour: u8,
    pub minute: u8,
    pub second: u8,
}

pub open spec fn is_leap_year(y: int) -> bool {
    y % 4 == 0 && (y % 100 != 0 || y % 400 == 0)
}

pub open spec fn days_in_month(y: int, m: int) -> int {
    if m == 2 {
        if is_leap_year(y) {
            29
        } else {
            28
        }
    } else if m == 4 || m == 6 || m == 9 || m == 11 {
        30
    } else {
        31
    }
}

/// A date the `YYYY-MM-DD` format can express: four-digit year, real
/// month, real day of that month.
pub open spec fn valid_date(d: Date) -> bool {
    &&& d.year <= 9999
    &&& 1 <= d.month <= 12
    &&& 1 <= d.day <= days_in_month(d.year as int, d.month as int)
}

/// Time-of-day fields in range.
pub open spec fn valid_time(t: DateTime) -> bool {
    t.hour <= 23 && t.minute <= 59 && t.second <= 59
}

/// Chronological order on dates.
pub open spec fn date_le(a: Date, b: Date) -> bool {
    ||| a.year < b.year
    ||| (a.year == b.year && a.month < b.month)
    ||| (a.year == b.year && a.month == b.month && a.day <= b.day)
}

/// Order on optional dates, a missing date sorting below every real one.
pub open spec fn opt_date_le(a: Option<Date>, b: Option<Date>) -> bool {
    match (a, b) {
        (Option::None, _) => true,
        (Option::Some(_), Option::None) => false,
        (Option::Some(x), Option::Some(y)) => date_le(x, y),
    }
}

pub open spec fn is_digit(c: char) -> bool {
    '0' <= c && c <= '9'
}

pub open spec fn digit_char(v: int) -> char {
    if v == 0 {
        '0'
    } else if v == 1 {
        '1'
    } else if v == 2 {
        '2'
    } else if v == 3 {
        '3'
    } else if v == 4 {
        '4'
    } else if v == 5 {
        '5'
    } else if v == 6 {
        '6'
    } else if v == 7 {
        '7'
    } else if v == 8 {
        '8'
    } else {
        '9'
    }
}

pub open spec fn digit_val(c: char) -> int {
    c as int - '0' as int
}

/// The ten characters `YYYY-MM-DD` of a date.
pub open spec fn format_date_spec(d: Date) -> Seq<char> {
    seq![
        digit_char(d.year as int / 1000 % 10),
        digit_char(d.year as int / 100 % 10),
        digit_char(d.year as int / 10 % 10),
        digit_char(d.year as int % 10),
        '-',
        digit_char(d.month as int / 10),
        digit_char(d.month as int % 10),
        '-',
        digit_char(d.day as int / 10),
        digit_char(d.day as int % 10),
    ]
}

/// Whether `s` has the exact shape `YYYY-MM-DD`.
pub open spec fn date_shaped(s: Seq<char>) -> bool {
    &&& s.len() == 10
    &&& is_digit(s[0]) && is_digit(s[1]) && is_digit(s[2]) && is_digit(s[3])
    &&& s[4] == '-'
    &&& is_digit(s[5]) && is_digit(s[6])
    &&& s[7] == '-'
    &&& is_digit(s[8]) && is_digit(s[9])
}

/// The date a `YYYY-MM-DD` string denotes, if it is shaped right and
/// names a real calendar day.
pub open spec fn parse_date_spec(s: Seq<char>) -> Option<Date> {
    if date_shaped(s) {
        let y = 1000 * digit_val(s[0]) + 100 * digit_val(s[1]) + 10 * digit_val(s[2]) + digit_val(
            s[3],
        );
        let m = 10 * digit_val(s[5]) + digit_val(s[6]);
        let d = 10 * digit_val(s[8]) + digit_val(s[9]);
        if 1 <= m <= 12 && 1 <= d <= days_in_month(y, m) {
            Some(Date { year: y as u32, month: m as u8, day: d as u8 })
        } else {
            None
        }
    } else {
        None
    }
}

fn leap_year(y: u32) -> (r: bool)
    ensures
        r == is_leap_year(y as int),
{
    y % 4 == 0 && (y % 100 != 0 || y % 400 == 0)
}

fn month_days(y: u32, m: u8) -> (r: u8)
    ensures
        r as int == days_in_month(y as int, m as int),
{
    if m == 2 {
        if leap_year(y) {
            29
        } else {
            28
        }
    } else if m == 4 || m == 6 || m == 9 || m == 11 {
        30
    } else {
        31
    }
}

/// Decides validity executably.
pub fn date_valid(d: &Date) -> (r: bool)
    ensures
        r == valid_date(*d),
{
    d.year <= 9999 && 1 <= d.month && d.month <= 12 && 1 <= d.day && d.day <= month_days(
        d.year,
        d.month,
    )
}

fn digit_of(c: char) -> (r: Option<u32>)
    ensures
        r is Some <==> is_digit(c),
        r matches Some(v) ==> v as int == digit_val(c) && v < 10,
{
    if c >= '0' && c <= '9' {
        Some(c as u32 - 48)
    } else {
        None
    }
}

/// Parses a `YYYY-MM-DD` date, accepting exactly the strings the parse
/// specification accepts.
pub fn parse_date(s: &str) -> (r: Option<Date>)
    ensures
        r == parse_date_spec(s@),
{
    if s.unicode_len() != 10 {
        return None;
    }
    if s.get_char(4) != '-' || s.get_char(7) != '-' {
        return None;
    }
    let d0 = digit_of(s.get_char(0));
    let d1 = digit_of(s.get_char(1));
    let d2 = digit_of(s.get_char(2));
    let d3 = digit_of(s.get_char(3));
    let d5 = digit_of(s.get_char(5));
    let d6 = digit_of(s.get_char(6));
    let d8 = digit_of(s.get_char(8));
    let d9 = digit_of(s.get_char(9));
    match (d0, d1, d2, d3, d5, d6, d8, d9) {
        (
            Some(v0),
            Some(v1),
            Some(v2),
            Some(v3),
            Some(v5),
            Some(v6),
            Some(v8),
            Some(v9),
        ) => {
            let y: u32 = 1000 * v0 + 100 * v1 + 10 * v2 + v3;
            let m: u32 = 10 * v5 + v6;
            let d: u32 = 10 * v8 + v9;
            if 1 <= m && m <= 12 && 1 <= d {
                let dm = month_days(y, m as u8);
                if d <= dm as u32 {
                    Some(Date { year: y, month: m as u8, day: d as u8 })
                } else {
                    None
                }
            } else {
                None
            }
        },
        _ => None,
    }
}

fn digit_str(v: u32) -> (r: &'static str)
    requires
        v < 10,
    ensures
        r@ =~= seq![digit_char(v as int)],
{
    if v == 0 {
        proof {
            reveal_strlit("0");
        }
        "0"
    } else if v == 1 {
        proof {
            reveal_strlit("1");
        }
        "1"
    } else if v == 2 {
        proof {
            reveal_strlit("2");
        }
        "2"
    } else if v == 3 {
        proof {
            reveal_strlit("3");
        }
        "3"
    } else if v == 4 {
        proof {
            reveal_strlit("4");
        }
        "4"
    } else if v == 5 {
        proof {
            reveal_strlit("5");
        }
        "5"
    } else if v == 6 {
        proof {
            reveal_strlit("6");
        }
        "6"
    } else if v == 7 {
        proof {
            reveal_strlit("7");
        }
        "7"
    } else if v == 8 {
        proof {
            reveal_strlit("8");
        }
        "8"
    } else {
        proof {
            reveal_strlit("9");
        }
        "9"
    }
}

/// Formats a date as `YYYY-MM-DD`.
pub fn format_date(d: &Date) -> (r: String)
    requires
        valid_date(*d),
    ensures
        r@ == format_date_spec(*d),
{
    let mut out = String::new();
    out.append(digit_str(d.year / 1000 % 10));
    out.append(digit_str(d.year / 100 % 10));
    out.append(digit_str(d.year / 10 % 10));
    out.append(digit_str(d.year % 10));
    proof {
        reveal_strlit("-");
    }
    out.append("-");
    out.append(digit_str(d.month as u32 / 10));
    out.append(digit_str(d.month as u32 % 10));
    out.append("-");
    out.append(digit_str(d.day as u32 / 10));
    out.append(digit_str(d.day as u32 % 10));
    proof {
        assert(out@ =~= format_date_spec(*d));
    }
    out
}

/// A formatted valid date parses back to the same date.
pub proof fn lemma_date_round_trip(d: Date)
    requires
        valid_date(d),
    ensures
        parse_date_spec(format_date_spec(d)) == Some(d),
{
    let s = format_date_spec(d);
    let y = d.year as int;
    let m = d.month as int;
    let dd = d.day as int;
    assert(date_shaped(s));
    assert(digit_val(digit_char(y / 1000 % 10)) == y / 1000 % 10);
    assert(digit_val(digit_char(y / 100 % 10)) == y / 100 % 10);
    assert(digit_val(digit_char(y / 10 % 10)) == y / 10 % 10);
    assert(digit_val(digit_char(y % 10)) == y % 10);
    assert(digit_val(digit_char(m / 10)) == m / 10);
    assert(digit_val(digit_char(m % 10)) == m % 10);
    assert(digit_val(digit_char(dd / 10)) == dd / 10);
    assert(digit_val(digit_char(dd % 10)) == dd % 10);
    let yy = d.year;
    assert(1000 * ((yy / 1000) % 10) + 100 * ((yy / 100) % 10) + 10 * ((yy / 10) % 10) + yy % 10
        == yy) by (bit_vector)
        requires
            yy <= 9999,
    ;
    let mm = d.month;
    assert(10 * ((mm as u32) / 10) + (mm as u32) % 10 == mm as u32) by (bit_vector);
    let db = d.day;
    assert(10 * ((db as u32) / 10) + (db as u32) % 10 == db as u32) by (bit_vector);
    assert(m / 10 == (mm as u32 / 10) as int && m % 10 == (mm as u32 % 10) as int);
    assert(parse_date_spec(s) == Some(d));
}

/// The sentinel minimum timestamp assigned to entries without a date.
pub fn epoch() -> (r: DateTime)
    ensures
        r == epoch_spec(),
{
    DateTime { date: Date { year: 1970, month: 1, day: 1 }, hour: 0, minute: 0, second: 0 }
}

pub open spec fn epoch_spec() -> DateTime {
    DateTime { date: Date { year: 1970, month: 1, day: 1 }, hour: 0, minute: 0, second: 0 }
}

/// Chronological comparison, `a <= b`, on optional dates with a missing
/// date below every real one.
pub fn opt_date_le_exec(a: &Option<Date>, b: &Option<Date>) -> (r: bool)
    ensures
        r == opt_date_le(*a, *b),
{
    match (a, b) {
        (Option::None, _) => true,
        (Option::Some(_), Option::None) => false,
        (Option::Some(x), Option::Some(y)) => {
            if x.year != y.year {
                x.year < y.year
            } else if x.month != y.month {
                x.month < y.month
            } else {
                x.day <= y.day
            }
        },
    }
}

} // verus!
