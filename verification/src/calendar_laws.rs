use vstd::prelude::*;

use crate::action::Action;
use crate::app::App;
use crate::clock::{grid_cell, leap, month_days, weekday_code, zeller, LocalTime};
use crate::dispatch::{history_done, history_room, HostWork};
use crate::model::Effect;
use crate::runtime::Runtime;
use vstd::arithmetic::div_mod::{
    lemma_add_mod_noop, lemma_add_mod_noop_right, lemma_fundamental_div_mod, lemma_mod_multiples_vanish,
};

verus! {

/// Days from 1 January of year 1 to the first of `month` in `year`, in the Gregorian calendar
/// carried back to year 1.
pub open spec fn days_before(year: int, month: int) -> int
    decreases year, month when year >= 1 && 1 <= month <= 12
{
    if month > 1 {
        days_before(year, month - 1) + month_days(year, month - 1)
    } else if year > 1 {
        days_before(year - 1, 12) + 31
    } else {
        0
    }
}

/// The part of Zeller's congruence that depends on the year.
spec fn year_part(y: int) -> int {
    y % 100 + (y % 100) / 4 + (y / 100) / 4 + 5 * (y / 100)
}

/// From one year to the next the year part moves one weekday on, two when the new year is a
/// leap year.
proof fn lemma_year_part_step(y: int)
    requires
        y >= 0,
    ensures
        (year_part(y + 1) - year_part(y) - 1 - (if leap(y + 1) { 1int } else { 0int })) % 7 == 0,
{
    let j = y / 100;
    let k = y % 100;
    assert(y == 100 * j + k);
    if k == 99 {
        assert(y + 1 == 100 * (j + 1));
        assert((y + 1) / 100 == j + 1);
        assert((y + 1) % 100 == 0);
        assert((y + 1) % 4 == 0);
        assert(leap(y + 1) == ((j + 1) % 4 == 0)) by {
            assert((y + 1) % 400 == 100 * (j + 1) % 400);
        }
    } else {
        assert(y + 1 == 100 * j + (k + 1));
        assert((y + 1) / 100 == j);
        assert((y + 1) % 100 == k + 1);
        assert((y + 1) % 4 == (k + 1) % 4);
        assert((y + 1) % 100 != 0);
    }
}

/// Zeller's congruence for a year from 1 on, written with ordinary division.
proof fn lemma_zeller_plain(year: int, month: u32)
    requires
        year >= 1,
        1 <= month <= 12,
    ensures
        zeller(year, month) == (1 + (13 * ((if month < 3 { month + 12 } else { month as int }) + 1)) / 5
            + year_part(if month < 3 { year - 1 } else { year })) % 7,
        0 <= zeller(year, month) < 7,
{
    reveal(zeller);
}

/// One more month on the count: the weekday code moves on by the month's length.
proof fn lemma_weekday_chain(z0: int, z1: int, days: int, before: int)
    requires
        0 <= z0 < 7,
        z1 == (z0 + days) % 7,
        (z0 + 6) % 7 == (1 + before) % 7,
    ensures
        (z1 + 6) % 7 == (1 + before + days) % 7,
{
    lemma_add_mod_noop(z0 + days, 6, 7);
    lemma_add_mod_noop(z0 + 6, days, 7);
    lemma_add_mod_noop(1 + before, days, 7);
}

/// Two numbers that differ by `d` plus a multiple of 7 fall `d` weekdays apart.
proof fn lemma_mod7_shift(b0: int, b1: int, d: int)
    requires
        (b1 - b0 - d) % 7 == 0,
    ensures
        b1 % 7 == (b0 % 7 + d) % 7,
{
    let x = b1 - b0 - d;
    lemma_fundamental_div_mod(x, 7);
    let t = x / 7;
    assert(b1 == 7 * t + (b0 + d));
    lemma_mod_multiples_vanish(t, b0 + d, 7);
    lemma_add_mod_noop(b0, d, 7);
    lemma_add_mod_noop_right(b0 % 7, d, 7);
}

/// The first of the next month falls as many weekdays later as the month has days.
proof fn lemma_month_step(year: int, month: u32)
    requires
        year >= 1,
        1 <= month <= 11,
    ensures
        zeller(year, (month + 1) as u32) == (zeller(year, month) + month_days(year, month as int)) % 7,
{
    lemma_zeller_plain(year, month);
    lemma_zeller_plain(year, (month + 1) as u32);
    let y0 = year_part(year - 1);
    let y1 = year_part(year);
    if month == 1 {
        lemma_mod7_shift(37 + y0, 40 + y0, 31);
    } else if month == 2 {
        lemma_year_part_step(year - 1);
        let d = month_days(year, 2);
        assert(y1 - y0 - 29 - d == (y1 - y0 - 1 - (if leap(year) { 1int } else { 0int })) + 7 * (-8));
        lemma_mod_multiples_vanish(-8, y1 - y0 - 1 - (if leap(year) { 1int } else { 0int }), 7);
        lemma_mod7_shift(40 + y0, 11 + y1, d);
    } else if month == 3 {
        lemma_mod7_shift(11 + y1, 14 + y1, 31);
    } else if month == 4 {
        lemma_mod7_shift(14 + y1, 16 + y1, 30);
    } else if month == 5 {
        lemma_mod7_shift(16 + y1, 19 + y1, 31);
    } else if month == 6 {
        lemma_mod7_shift(19 + y1, 21 + y1, 30);
    } else if month == 7 {
        lemma_mod7_shift(21 + y1, 24 + y1, 31);
    } else if month == 8 {
        lemma_mod7_shift(24 + y1, 27 + y1, 31);
    } else if month == 9 {
        lemma_mod7_shift(27 + y1, 29 + y1, 30);
    } else if month == 10 {
        lemma_mod7_shift(29 + y1, 32 + y1, 31);
    } else {
        lemma_mod7_shift(32 + y1, 34 + y1, 30);
    }
}

/// From December to January of the next year.
proof fn lemma_year_step(year: int)
    requires
        year >= 1,
    ensures
        zeller(year + 1, 1) == (zeller(year, 12) + 31) % 7,
{
    lemma_zeller_plain(year, 12);
    lemma_zeller_plain(year + 1, 1);
    lemma_mod7_shift(34 + year_part(year), 37 + year_part(year), 31);
}

/// Law: the day of the week that `first_weekday` gives for the first of a month (0 being
/// Sunday) is the one reached by counting the days from 1 January of year 1, a Monday.
pub proof fn law_first_weekday_counts_days(year: int, month: u32)
    requires
        year >= 1,
        1 <= month <= 12,
    ensures
        weekday_code(year, month) == (1 + days_before(year, month as int)) % 7,
    decreases year, month,
{
    lemma_zeller_plain(year, month);
    if month > 1 {
        let prev = (month - 1) as u32;
        law_first_weekday_counts_days(year, prev);
        lemma_month_step(year, prev);
        lemma_zeller_plain(year, prev);
        lemma_weekday_chain(zeller(year, prev), zeller(year, month), month_days(year, prev as int),
            days_before(year, prev as int));
    } else if year > 1 {
        law_first_weekday_counts_days(year - 1, 12);
        lemma_year_step(year - 1);
        lemma_zeller_plain(year - 1, 12);
        lemma_weekday_chain(zeller(year - 1, 12), zeller(year, 1), 31, days_before(year - 1, 12));
    } else {
        reveal(zeller);
    }
}

} // verus!

verus! {

/// No text sorts both before and after another.
pub proof fn lemma_seq_less_asymmetric(a: Seq<char>, b: Seq<char>)
    ensures
        !(crate::text::seq_less(a, b) && crate::text::seq_less(b, a)),
    decreases a.len(),
{
    if a.len() > 0 && b.len() > 0 && a[0] == b[0] {
        lemma_seq_less_asymmetric(a.drop_first(), b.drop_first());
    }
}

/// Law: moving the calendar on a month and back again shows the month it showed before
/// (for a month number other than 0, which has no month before it).
pub proof fn law_calendar_next_then_prev(
    a0: App, r0: Runtime, fx: Seq<Effect>, clock: LocalTime,
    a1: App, r1: Runtime, w1: HostWork, a2: App, r2: Runtime, w2: HostWork,
)
    requires
        r0.calendar.month != 0,
        history_room(r0, Action::CalendarNext),
        history_done(a0, r0, fx, Action::CalendarNext, clock, a1, r1, fx, w1),
        history_done(a1, r1, fx, Action::CalendarPrev, clock, a2, r2, fx, w2),
    ensures
        a2 == a0,
        r2 == r0,
{
}

/// Law: moving the calendar back a month and on again shows the month it showed before, for a
/// month from 1 to 12.
pub proof fn law_calendar_prev_then_next(
    a0: App, r0: Runtime, fx: Seq<Effect>, clock: LocalTime,
    a1: App, r1: Runtime, w1: HostWork, a2: App, r2: Runtime, w2: HostWork,
)
    requires
        1 <= r0.calendar.month <= 12,
        history_room(r0, Action::CalendarPrev),
        history_done(a0, r0, fx, Action::CalendarPrev, clock, a1, r1, fx, w1),
        history_done(a1, r1, fx, Action::CalendarNext, clock, a2, r2, fx, w2),
    ensures
        a2 == a0,
        r2 == r0,
{
}

/// Law: the calendar's months stay from 1 to 12 as it moves back and on.
pub proof fn law_calendar_month_in_range(
    a0: App, r0: Runtime, fx: Seq<Effect>, clock: LocalTime, action: Action,
    a1: App, r1: Runtime, w: HostWork,
)
    requires
        1 <= r0.calendar.month <= 12,
        action == Action::CalendarPrev || action == Action::CalendarNext,
        history_room(r0, action),
        history_done(a0, r0, fx, action, clock, a1, r1, fx, w),
    ensures
        1 <= r1.calendar.month <= 12,
{
}

/// Law: after a day is picked the range has a start, and an end only on or after it.
pub proof fn law_picked_range_in_order(
    a0: App, r0: Runtime, fx: Seq<Effect>, clock: LocalTime, day: u32,
    a1: App, r1: Runtime, w: HostWork,
)
    requires
        history_done(a0, r0, fx, Action::CalendarPickDay(day), clock, a1, r1, fx, w),
    ensures
        r1.calendar.start is Some,
        r1.calendar.end matches Some(e) ==> !crate::text::seq_less(e@, r1.calendar.start->0@),
{
    let c = r0.calendar;
    let date = crate::clock::date_string_text(c.year as int, c.month as nat, day as nat);
    if let Some(s) = c.start {
        lemma_seq_less_asymmetric(date, s@);
    }
}

/// Law: in the month grid every day of the month shows once in the month's colours, in the
/// column of its day of the week (counted from 1 January of year 1, a Monday, with Sunday in the
/// first column).
pub proof fn law_grid_places_days(year: int, month: u32, d: int)
    requires
        year >= 1,
        1 <= month <= 12,
        1 <= d <= month_days(year, month as int),
    ensures
        weekday_code(year, month) + d - 1 < 42,
        grid_cell(year, month, weekday_code(year, month) + d - 1) == (d, true),
        (weekday_code(year, month) + d - 1) % 7 == (1 + days_before(year, month as int) + d - 1) % 7,
{
    law_first_weekday_counts_days(year, month);
    let w = weekday_code(year, month) as int;
    let b = 1 + days_before(year, month as int);
    assert(w == b % 7);
    lemma_add_mod_noop(b, d - 1, 7);
    lemma_add_mod_noop(w, d - 1, 7);
    assert(w % 7 == w);
}

} // verus!
