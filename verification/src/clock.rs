use vstd::prelude::*;

use crate::text::{concat2, padded, padded_string};

verus! {

/// A reading of the local wall clock, as the operating system reports it.
#[derive(Clone, Copy, PartialEq, Eq, Debug, Structural)]
pub struct LocalTime {
    pub year: u16,
    pub month: u16,
    pub day: u16,
    pub hour: u16,
    pub minute: u16,
}

/// `YYYY-MM-DD` text of a date, the year padded to four digits.
pub open spec fn date_text(year: nat, month: nat, day: nat) -> Seq<char> {
    padded(year, 4) + "-"@ + padded(month, 2) + "-"@ + padded(day, 2)
}

/// `MM-DD hh:mm` text of a clock reading.
pub open spec fn stamp_text(t: LocalTime) -> Seq<char> {
    padded(t.month as nat, 2) + "-"@ + padded(t.day as nat, 2) + " "@ + padded(t.hour as nat, 2)
        + ":"@ + padded(t.minute as nat, 2)
}

/// The date of a clock reading, as history records store it.
pub fn today(t: &LocalTime) -> (r: String)
    ensures
        r@ == date_text(t.year as nat, t.month as nat, t.day as nat),
{
    let mut r = padded_string(t.year as u64, 4);
    r.append("-");
    r.append(padded_string(t.month as u64, 2).as_str());
    r.append("-");
    r.append(padded_string(t.day as u64, 2).as_str());
    r
}

/// The short time stamp of a clock reading, as history records store it.
pub fn stamp(t: &LocalTime) -> (r: String)
    ensures
        r@ == stamp_text(*t),
{
    let mut r = padded_string(t.month as u64, 2);
    r.append("-");
    r.append(padded_string(t.day as u64, 2).as_str());
    r.append(" ");
    r.append(padded_string(t.hour as u64, 2).as_str());
    r.append(":");
    r.append(padded_string(t.minute as u64, 2).as_str());
    r
}

/// The year and month of a clock reading.
pub fn year_month(t: &LocalTime) -> (r: (i32, u32))
    ensures
        r.0 == t.year,
        r.1 == t.month,
{
    (t.year as i32, t.month as u32)
}

/// Gregorian leap year rule.
pub open spec fn leap(year: int) -> bool {
    (year % 4 == 0 && year % 100 != 0) || year % 400 == 0
}

pub fn is_leap(year: i32) -> (r: bool)
    ensures
        r == leap(year as int),
{
    (year % 4 == 0 && year % 100 != 0) || year % 400 == 0
}

/// Length of a month; a month number outside 1 to 12 counts 30 days.
pub open spec fn month_days(year: int, month: int) -> int {
    if month == 1 || month == 3 || month == 5 || month == 7 || month == 8 || month == 10
        || month == 12 {
        31
    } else if month == 4 || month == 6 || month == 9 || month == 11 {
        30
    } else if month == 2 {
        if leap(year) { 29 } else { 28 }
    } else {
        30
    }
}

pub fn days_in_month(year: i32, month: u32) -> (r: u32)
    ensures
        r == month_days(year as int, month as int),
        28 <= r <= 31,
{
    match month {
        1 | 3 | 5 | 7 | 8 | 10 | 12 => 31,
        4 | 6 | 9 | 11 => 30,
        2 => {
            if is_leap(year) {
                29
            } else {
                28
            }
        },
        _ => 30,
    }
}

/// `YYYY-MM-DD` text of a date given by numbers; a negative year is written with its sign,
/// which counts towards the four places.
pub open spec fn date_string_text(year: int, month: nat, day: nat) -> Seq<char> {
    let y = if year >= 0 {
        padded(year as nat, 4)
    } else {
        "-"@ + padded((-year) as nat, 3)
    };
    y + "-"@ + padded(month, 2) + "-"@ + padded(day, 2)
}

pub fn date_string(year: i32, month: u32, day: u32) -> (r: String)
    ensures
        r@ == date_string_text(year as int, month as nat, day as nat),
{
    let mut r = if year >= 0 {
        padded_string(year as u64, 4)
    } else {
        let magnitude: i64 = -(year as i64);
        concat2("-", padded_string(magnitude as u64, 3).as_str())
    };
    r.append("-");
    r.append(padded_string(month as u64, 2).as_str());
    r.append("-");
    r.append(padded_string(day as u64, 2).as_str());
    r
}

/// Integer division as Rust's `/` does it: the quotient rounded towards zero.
pub open spec fn quot(a: int, b: int) -> int {
    if a >= 0 {
        a / b
    } else {
        -((-a) / b)
    }
}

/// The remainder that goes with `quot`, as Rust's `%` gives it: it has the sign of `a`.
pub open spec fn rem(a: int, b: int) -> int {
    a - b * quot(a, b)
}

/// The month number Zeller's congruence works with, as a 32-bit signed number: January and
/// February count as months 13 and 14 of the year before.
pub open spec fn month_word(month: u32) -> i32 {
    (if month < 3 { month + 12 } else { month as int }) as i32
}

/// Zeller's congruence for the first of a month: 0 is Saturday, 1 Sunday, and so on, for
/// years from 0 on (other inputs give what the same arithmetic gives).
#[verifier::opaque]
pub open spec fn zeller(year: int, month: u32) -> int {
    let y = if month < 3 { year - 1 } else { year };
    let k = rem(y, 100);
    let j = quot(y, 100);
    rem(1 + quot(13 * (month_word(month) + 1), 5) + k + quot(k, 4) + quot(j, 4) + 5 * j, 7)
}

/// The day of the week of the first of a month, 0 being Sunday (see `zeller`).
pub open spec fn weekday_code(year: int, month: u32) -> u32 {
    rem(zeller(year, month) + 6, 7) as u32
}

/// Which day of the week the first of a month falls on, 0 being Sunday.
pub fn first_weekday(year: i32, month: u32) -> (r: u32)
    requires
        month < 3 ==> year > i32::MIN,
        -165_191_049 <= month_word(month) + 1 <= 165_191_049,
    ensures
        r == weekday_code(year as int, month),
{
    let (y, m) = if month < 3 {
        (year - 1, month + 12)
    } else {
        (year, month)
    };
    proof {
        reveal(zeller);
    }
    let k = y % 100;
    let j = y / 100;
    let h = (1 + (13 * (m as i32 + 1)) / 5 + k + k / 4 + j / 4 + 5 * j) % 7;
    ((h + 6) % 7) as u32
}

/// The number of days in the month before `month` of `year`.
pub open spec fn prev_month_days(year: int, month: int) -> int {
    if month == 1 { month_days(year - 1, 12) } else { month_days(year, month - 1) }
}

/// What slot `slot` (0 to 41, row by row from Sunday) of the month grid of `month` in `year`
/// shows: the closing days of the month before, the days of the month, then the opening days of
/// the month after; the flag says whether the day belongs to the month shown.
pub open spec fn grid_cell(year: int, month: u32, slot: int) -> (int, bool) {
    let lead = weekday_code(year, month) as int;
    let days = month_days(year, month as int);
    if slot < lead {
        (prev_month_days(year, month as int) - lead + slot + 1, false)
    } else if slot - lead < days {
        (slot - lead + 1, true)
    } else {
        (slot - lead - days + 1, false)
    }
}

/// The day shown in slot `slot` of the month grid (see `grid_cell`).
pub fn calendar_cell(year: i32, month: u32, slot: u32) -> (r: (u32, bool))
    requires
        1 <= month,
        month < 3 ==> year > i32::MIN,
        -165_191_049 <= month_word(month) + 1 <= 165_191_049,
        weekday_code(year as int, month) < 7,
        slot < 42,
    ensures
        r.0 == grid_cell(year as int, month, slot as int).0,
        r.1 == grid_cell(year as int, month, slot as int).1,
{
    let days = days_in_month(year, month);
    let lead = first_weekday(year, month);
    let prev_days = if month == 1 {
        days_in_month(year - 1, 12)
    } else {
        days_in_month(year, month - 1)
    };
    if slot < lead {
        (prev_days - lead + slot + 1, false)
    } else if slot - lead < days {
        (slot - lead + 1, true)
    } else {
        (slot - lead - days + 1, false)
    }
}

/// Whether a day of the grid shows as picked: inside the range when it has both ends, the day
/// itself when only the start is picked.
pub open spec fn in_picked_range(date: Seq<char>, start: Option<Seq<char>>, end: Option<Seq<char>>) -> bool {
    match (start, end) {
        (Some(s), Some(e)) => !crate::text::seq_less(date, s) && !crate::text::seq_less(e, date),
        (Some(s), None) => date == s,
        _ => false,
    }
}

pub fn range_selected(date: &str, start: &Option<String>, end: &Option<String>) -> (r: bool)
    ensures
        r == in_picked_range(date@, crate::dispatch::opt_view(*start), crate::dispatch::opt_view(*end)),
{
    match (start, end) {
        (Some(s), Some(e)) => !crate::text::str_less(date, s.as_str()) && !crate::text::str_less(e.as_str(), date),
        (Some(s), None) => crate::text::str_eq(date, s.as_str()),
        _ => false,
    }
}

} // verus!
