//! Calendar days and the names under which a day's prices are fetched and
//! cached.

use vstd::prelude::*;

verus! {

use crate::config::Config;
use vstd::arithmetic::div_mod::{lemma_div_is_ordered, lemma_small_mod};
use vstd::string::StringExecFns;

/// A day's identity for the price source: the date, the URL the curve is
/// downloaded from, and the local cache file it is stored in.
#[derive(Debug)]
pub struct Day {
    pub year: u16,
    pub month: u8,
    pub day: u8,
    pub url: String,
    pub file: String,
}

/// A leap year of the Gregorian calendar.
pub open spec fn is_leap_year(y: int) -> bool {
    y % 4 == 0 && (y % 100 != 0 || y % 400 == 0)
}

/// Days of a month of the Gregorian calendar.
pub open spec fn days_in_month_spec(y: int, m: int) -> int {
    if m == 2 {
        if is_leap_year(y) {
            29
        } else {
            28
        }
    } else if m == 4 || m == 6 || m == 9 || m == 11 {
        30
    } else {
        31
    }
}

/// A calendar date within the four-digit-year range.
pub open spec fn valid_date(y: int, m: int, d: int) -> bool {
    &&& 0 <= y <= 9999
    &&& 1 <= m <= 12
    &&& 1 <= d <= days_in_month_spec(y, m)
}

/// The date one day later.
pub open spec fn next_day_spec(y: int, m: int, d: int) -> (int, int, int) {
    if d < days_in_month_spec(y, m) {
        (y, m, d + 1)
    } else if m < 12 {
        (y, m + 1, 1)
    } else {
        (y + 1, 1, 1)
    }
}

/// Days of a month.
pub fn days_in_month(y: u16, m: u8) -> (r: u8)
    requires
        1 <= m <= 12,
    ensures
        r == days_in_month_spec(y as int, m as int),
{
    if m == 2 {
        if (y % 4 == 0 && y % 100 != 0) || y % 400 == 0 {
            29
        } else {
            28
        }
    } else if m == 4 || m == 6 || m == 9 || m == 11 {
        30
    } else {
        31
    }
}

/// The date one day later.
pub fn next_day(y: u16, m: u8, d: u8) -> (r: (u16, u8, u8))
    requires
        valid_date(y as int, m as int, d as int),
        y < 9999,
    ensures
        (r.0 as int, r.1 as int, r.2 as int) == next_day_spec(y as int, m as int, d as int),
        valid_date(r.0 as int, r.1 as int, r.2 as int),
{
    if d < days_in_month(y, m) {
        (y, m, d + 1)
    } else if m < 12 {
        (y, m + 1, 1)
    } else {
        (y + 1, 1, 1)
    }
}

/// The decimal digit character for `d` in `0 ..= 9`.
pub open spec fn digit_char(d: int) -> char {
    if d == 0 {
        '0'
    } else if d == 1 {
        '1'
    } else if d == 2 {
        '2'
    } else if d == 3 {
        '3'
    } else if d == 4 {
        '4'
    } else if d == 5 {
        '5'
    } else if d == 6 {
        '6'
    } else if d == 7 {
        '7'
    } else if d == 8 {
        '8'
    } else {
        '9'
    }
}

/// Two decimal digits, zero-padded, for `n` in `0 ..= 99`.
pub open spec fn two_digits(n: int) -> Seq<char> {
    seq![digit_char(n / 10), digit_char(n % 10)]
}

/// Four decimal digits, zero-padded, for `n` in `0 ..= 9999`.
pub open spec fn four_digits(n: int) -> Seq<char> {
    seq![
        digit_char(n / 1000),
        digit_char((n / 100) % 10),
        digit_char((n / 10) % 10),
        digit_char(n % 10),
    ]
}

/// The single decimal digit as a string slice.
fn digit_str(d: u8) -> (r: &'static str)
    requires
        d < 10,
    ensures
        r@ == seq![digit_char(d as int)],
{
    let r: &'static str = if d == 0 {
        "0"
    } else if d == 1 {
        "1"
    } else if d == 2 {
        "2"
    } else if d == 3 {
        "3"
    } else if d == 4 {
        "4"
    } else if d == 5 {
        "5"
    } else if d == 6 {
        "6"
    } else if d == 7 {
        "7"
    } else if d == 8 {
        "8"
    } else {
        "9"
    };
    proof {
        reveal_strlit("0");
        reveal_strlit("1");
        reveal_strlit("2");
        reveal_strlit("3");
        reveal_strlit("4");
        reveal_strlit("5");
        reveal_strlit("6");
        reveal_strlit("7");
        reveal_strlit("8");
        reveal_strlit("9");
        assert(r@ =~= seq![digit_char(d as int)]);
    }
    r
}

/// Append `n` as two zero-padded decimal digits.
fn push_two_digits(s: &mut String, n: u8)
    requires
        n < 100,
    ensures
        final(s)@ == old(s)@ + two_digits(n as int),
{
    s.append(digit_str(n / 10));
    s.append(digit_str(n % 10));
    proof {
        assert(final(s)@ =~= old(s)@ + two_digits(n as int));
    }
}

/// Append `n` as four zero-padded decimal digits.
fn push_four_digits(s: &mut String, n: u16)
    requires
        n < 10000,
    ensures
        final(s)@ == old(s)@ + four_digits(n as int),
{
    proof {
        lemma_div_is_ordered(n as int, 9999, 1000);
        assert(9999int / 1000 == 9);
        lemma_small_mod(((n as int) / 100 % 10) as nat, 10);
    }
    s.append(digit_str((n / 1000) as u8));
    s.append(digit_str((n / 100 % 10) as u8));
    s.append(digit_str((n / 10 % 10) as u8));
    s.append(digit_str((n % 10) as u8));
    proof {
        assert(final(s)@ =~= old(s)@ + four_digits(n as int));
    }
}

/// The URL of a day's curve at the price source:
/// `{api}{YYYY}/{MM}-{DD}_{area}.json`.
pub open spec fn day_url_spec(api: Seq<char>, area: Seq<char>, y: int, mo: int, d: int) -> Seq<
    char,
> {
    api + four_digits(y) + "/"@ + two_digits(mo) + "-"@ + two_digits(d) + "_"@ + area + ".json"@
}

/// The name of a day's local cache file: `{YYYY}-{MM}-{DD}_{area}.json`.
pub open spec fn day_file_spec(area: Seq<char>, y: int, mo: int, d: int) -> Seq<char> {
    four_digits(y) + "-"@ + two_digits(mo) + "-"@ + two_digits(d) + "_"@ + area + ".json"@
}

/// Make the [`Day`] for the given date: where its curve is downloaded from
/// and where it is cached, per the configured price source and bidding area.
pub fn make_today(config: &Config, year: u16, month: u8, day: u8) -> (r: Day)
    requires
        valid_date(year as int, month as int, day as int),
    ensures
        r.year == year && r.month == month && r.day == day,
        r.url@ == day_url_spec(config.api@, config.area@, year as int, month as int, day as int),
        r.file@ == day_file_spec(config.area@, year as int, month as int, day as int),
{
    let mut url = config.api.clone();
    push_four_digits(&mut url, year);
    url.append("/");
    push_two_digits(&mut url, month);
    url.append("-");
    push_two_digits(&mut url, day);
    url.append("_");
    url.append(config.area.as_str());
    url.append(".json");
    let mut file = String::new();
    push_four_digits(&mut file, year);
    file.append("-");
    push_two_digits(&mut file, month);
    file.append("-");
    push_two_digits(&mut file, day);
    file.append("_");
    file.append(config.area.as_str());
    file.append(".json");
    proof {
        assert(url@ =~= day_url_spec(
            config.api@,
            config.area@,
            year as int,
            month as int,
            day as int,
        ));
        assert(file@ =~= day_file_spec(config.area@, year as int, month as int, day as int));
    }
    Day { year, month, day, url, file }
}

/// Make the [`Day`] for the date one day after the given date.
pub fn make_tomorrow(config: &Config, year: u16, month: u8, day: u8) -> (r: Day)
    requires
        valid_date(year as int, month as int, day as int),
        year < 9999,
    ensures
        (r.year as int, r.month as int, r.day as int) == next_day_spec(
            year as int,
            month as int,
            day as int,
        ),
        r.url@ == day_url_spec(
            config.api@,
            config.area@,
            r.year as int,
            r.month as int,
            r.day as int,
        ),
        r.file@ == day_file_spec(config.area@, r.year as int, r.month as int, r.day as int),
{
    let (y, m, d) = next_day(year, month, day);
    make_today(config, y, m, d)
}

} // verus!
