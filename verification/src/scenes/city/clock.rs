//! Wall-clock time for the megaboard: a Unix timestamp split into a UTC
//! civil date and time of day, and their `HH:MM:SS` / `MM/DD/YYYY` text.

use vstd::prelude::*;
use crate::text::{push_zero_padded, zero_padded};

verus! {

/// A UTC date and time of day.
#[derive(Clone, Copy, PartialEq, Eq, Debug, Structural)]
pub struct SimpleTime {
    pub hour: u32,
    pub minute: u32,
    pub second: u32,
    pub day: u32,
    pub month: u32,
    pub year: i64,
}

/// Gregorian leap year rule.
pub open spec fn is_leap_spec(y: int) -> bool {
    (y % 4 == 0 && y % 100 != 0) || y % 400 == 0
}

/// Days in year `y`.
pub open spec fn year_days(y: int) -> nat {
    if is_leap_spec(y) { 366 } else { 365 }
}

/// Days from 1970-01-01 to the first day of year `y`.
pub open spec fn days_before_year(y: int) -> nat
    decreases y - 1970,
{
    if y <= 1970 { 0 } else { days_before_year(y - 1) + year_days(y - 1) }
}

/// Days in month `m` (1 to 12) of year `y`.
pub open spec fn month_days(y: int, m: int) -> nat {
    if m == 2 {
        if is_leap_spec(y) { 29 } else { 28 }
    } else if m == 4 || m == 6 || m == 9 || m == 11 {
        30
    } else {
        31
    }
}

/// Days from the first of January of year `y` to the first day of month `m`.
pub open spec fn days_before_month(y: int, m: int) -> nat
    decreases m,
{
    if m <= 1 { 0 } else { days_before_month(y, m - 1) + month_days(y, m - 1) }
}

/// Whether `t` is a real date and time of day.
pub open spec fn valid_time(t: SimpleTime) -> bool {
    &&& t.year >= 1970
    &&& 1 <= t.month <= 12
    &&& 1 <= t.day <= month_days(t.year as int, t.month as int)
    &&& t.hour < 24
    &&& t.minute < 60
    &&& t.second < 60
}

/// Whether `t` is the UTC date and time `secs` seconds after the Unix epoch.
pub open spec fn time_of(t: SimpleTime, secs: nat) -> bool {
    &&& valid_time(t)
    &&& days_before_year(t.year as int) + days_before_month(t.year as int, t.month as int) + t.day - 1
        == secs / 86400
    &&& t.hour * 3600 + t.minute * 60 + t.second == secs % 86400
}

/// Gregorian leap year rule.
pub fn is_leap(y: i64) -> (r: bool)
    ensures
        r == is_leap_spec(y as int),
{
    (y % 4 == 0 && y % 100 != 0) || y % 400 == 0
}

/// The twelve months make up the year.
proof fn lemma_months_fill_year(y: int)
    ensures
        days_before_month(y, 13) == year_days(y),
{
    reveal_with_fuel(days_before_month, 13);
}

/// Later years start later: the days before year `b` include all of year
/// `a` when `a < b`.
proof fn lemma_year_starts_grow(a: int, b: int)
    requires
        1970 <= a < b,
    ensures
        days_before_year(a) + year_days(a) <= days_before_year(b),
    decreases b - a,
{
    if b > a + 1 {
        lemma_year_starts_grow(a, b - 1);
    }
}

/// Later months start later: the days before month `b` include all of month
/// `a` when `a < b`.
proof fn lemma_month_starts_grow(y: int, a: int, b: int)
    requires
        1 <= a < b,
    ensures
        days_before_month(y, a) + month_days(y, a) <= days_before_month(y, b),
    decreases b - a,
{
    if b > a + 1 {
        lemma_month_starts_grow(y, a, b - 1);
    }
}

/// The day of a valid date, counted from the first of January, lies inside
/// its year.
proof fn lemma_day_in_year(t: SimpleTime)
    requires
        valid_time(t),
    ensures
        days_before_month(t.year as int, t.month as int) + t.day - 1 < year_days(t.year as int),
{
    lemma_months_fill_year(t.year as int);
    if t.month < 12 {
        lemma_month_starts_grow(t.year as int, t.month as int, 13);
    }
}

/// A moment has one calendar reading: two valid dates and times that lie
/// the same number of seconds after the Unix epoch are the same.
pub proof fn lemma_time_of_unique(t1: SimpleTime, t2: SimpleTime, secs: nat)
    requires
        time_of(t1, secs),
        time_of(t2, secs),
    ensures
        t1 == t2,
{
    lemma_day_in_year(t1);
    lemma_day_in_year(t2);
    let y1 = t1.year as int;
    let y2 = t2.year as int;
    if y1 < y2 {
        lemma_year_starts_grow(y1, y2);
    } else if y2 < y1 {
        lemma_year_starts_grow(y2, y1);
    }
    assert(y1 == y2);
    let m1 = t1.month as int;
    let m2 = t2.month as int;
    if m1 < m2 {
        lemma_month_starts_grow(y1, m1, m2);
    } else if m2 < m1 {
        lemma_month_starts_grow(y1, m2, m1);
    }
    assert(m1 == m2);
    let (h1, n1, s1) = (t1.hour as int, t1.minute as int, t1.second as int);
    let (h2, n2, s2) = (t2.hour as int, t2.minute as int, t2.second as int);
    assert(h1 == h2 && n1 == n2 && s1 == s2) by (nonlinear_arith)
        requires
            0 <= h1 < 24,
            0 <= h2 < 24,
            0 <= n1 < 60,
            0 <= n2 < 60,
            0 <= s1 < 60,
            0 <= s2 < 60,
            h1 * 3600 + n1 * 60 + s1 == h2 * 3600 + n2 * 60 + s2,
    ;
}

/// Splits `secs` seconds after the Unix epoch into the UTC calendar date and
/// the time of day. The result is the one valid date and time that lies
/// exactly `secs` seconds after 1970-01-01 00:00:00.
pub fn time_from_unix_secs(secs: u64) -> (t: SimpleTime)
    ensures
        time_of(t, secs as nat),
{
    let total = secs / 86400;
    let mut days = total;
    let time_of_day = secs % 86400;
    let hour = time_of_day / 3600;
    let minute = (time_of_day % 3600) / 60;
    let second = time_of_day % 60;

    let mut y: i64 = 1970;
    loop
        invariant
            days <= total,
            total == secs / 86400,
            1970 <= y,
            y - 1970 <= total - days,
            days_before_year(y as int) + days == total,
        ensures
            1970 <= y,
            days_before_year(y as int) + days == total,
            days < year_days(y as int),
        decreases days,
    {
        let days_in_year: u64 = if is_leap(y) { 366 } else { 365 };
        if days < days_in_year {
            break;
        }
        days = days - days_in_year;
        y = y + 1;
    }
    let ghost year_start = days;
    proof {
        lemma_months_fill_year(y as int);
    }
    let leap = is_leap(y);
    let mut m: u32 = 1;
    loop
        invariant
            1 <= m <= 12,
            year_start < year_days(y as int),
            leap == is_leap_spec(y as int),
            days_before_month(y as int, m as int) + days == year_start,
            days_before_month(y as int, 13) == year_days(y as int),
        ensures
            1 <= m <= 12,
            days_before_month(y as int, m as int) + days == year_start,
            days < month_days(y as int, m as int),
        decreases 12 - m,
    {
        let md: u64 = if m == 2 {
            if leap { 29 } else { 28 }
        } else if m == 4 || m == 6 || m == 9 || m == 11 {
            30
        } else {
            31
        };
        if days < md {
            break;
        }
        days = days - md;
        m = m + 1;
        proof {
            if m == 13 {
                assert(days_before_month(y as int, 13) + days == year_start);
                assert(false);
            }
        }
    }
    SimpleTime {
        hour: hour as u32,
        minute: minute as u32,
        second: second as u32,
        day: days as u32 + 1,
        month: m,
        year: y,
    }
}

/// `HH:MM:SS`.
pub open spec fn time_text(t: SimpleTime) -> Seq<char> {
    zero_padded(t.hour as nat, 2) + seq![':'] + zero_padded(t.minute as nat, 2) + seq![':']
        + zero_padded(t.second as nat, 2)
}

/// `MM/DD/YYYY`.
pub open spec fn date_text(t: SimpleTime) -> Seq<char> {
    zero_padded(t.month as nat, 2) + seq!['/'] + zero_padded(t.day as nat, 2) + seq!['/']
        + zero_padded(t.year as nat, 4)
}

/// The time of day as `HH:MM:SS`.
pub fn format_time(t: &SimpleTime) -> (s: String)
    ensures
        s@ == time_text(*t),
{
    let mut s = String::new();
    push_zero_padded(&mut s, t.hour as u64, 2);
    s.append(":");
    push_zero_padded(&mut s, t.minute as u64, 2);
    s.append(":");
    push_zero_padded(&mut s, t.second as u64, 2);
    proof {
        reveal_strlit(":");
        assert(s@ =~= time_text(*t));
    }
    s
}

/// The date as `MM/DD/YYYY`.
pub fn format_date(t: &SimpleTime) -> (s: String)
    requires
        t.year >= 0,
    ensures
        s@ == date_text(*t),
{
    let mut s = String::new();
    push_zero_padded(&mut s, t.month as u64, 2);
    s.append("/");
    push_zero_padded(&mut s, t.day as u64, 2);
    s.append("/");
    push_zero_padded(&mut s, t.year as u64, 4);
    proof {
        reveal_strlit("/");
        assert(s@ =~= date_text(*t));
    }
    s
}

} // verus!
