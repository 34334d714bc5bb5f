use vstd::prelude::*;

verus! {

/// The smallest year a calendar date may have.
pub const MIN_YEAR: i32 = -262143;

/// The largest year a calendar date may have.
pub const MAX_YEAR: i32 = 262142;

/// The day number of 1970-01-01 counted from 0001-01-01, which is day 1.
pub const EPOCH_DAYS_FROM_CE: i32 = 719_163;

/// Whether `year` is a leap year of the proleptic Gregorian calendar.
pub open spec fn is_leap_year(year: int) -> bool {
    (year % 4 == 0 && year % 100 != 0) || year % 400 == 0
}

/// The number of days of `month` in `year`.
pub open spec fn days_in_month(year: int, month: int) -> int {
    if month == 2 {
        if is_leap_year(year) { 29 } else { 28 }
    } else if month == 4 || month == 6 || month == 9 || month == 11 {
        30
    } else {
        31
    }
}

/// Whether `year`-`month`-`day` names a day of the proleptic Gregorian calendar
/// within the supported years.
pub open spec fn is_valid_ymd(year: int, month: int, day: int) -> bool {
    &&& MIN_YEAR <= year <= MAX_YEAR
    &&& 1 <= month <= 12
    &&& 1 <= day <= days_in_month(year, month)
}

/// The number of days of `year` that come before the first of `month`.
pub open spec fn days_before_month(year: int, month: int) -> int {
    let common: int = if month == 1 {
        0
    } else if month == 2 {
        31
    } else if month == 3 {
        59
    } else if month == 4 {
        90
    } else if month == 5 {
        120
    } else if month == 6 {
        151
    } else if month == 7 {
        181
    } else if month == 8 {
        212
    } else if month == 9 {
        243
    } else if month == 10 {
        273
    } else if month == 11 {
        304
    } else {
        334
    };
    if month > 2 && is_leap_year(year) { common + 1 } else { common }
}

/// The day number of a date, 0001-01-01 being day 1.
pub open spec fn days_from_ce(year: int, month: int, day: int) -> int {
    let p = year - 1;
    365 * p + p / 4 - p / 100 + p / 400 + days_before_month(year, month) + day
}

/// The number of days from 1970-01-01 to a date.
pub open spec fn spec_uniform_date(year: int, month: int, day: int) -> int {
    days_from_ce(year, month, day) - EPOCH_DAYS_FROM_CE
}

/// A day of the proleptic Gregorian calendar.
#[derive(Debug, Clone, Copy, PartialEq, Eq, Structural)]
pub struct CalendarDate {
    pub year: i32,
    pub month: u32,
    pub day: u32,
}

impl CalendarDate {
    /// Whether the date names an existing day within the supported years.
    pub open spec fn spec_valid(self) -> bool {
        is_valid_ymd(self.year as int, self.month as int, self.day as int)
    }

    /// The date `year`-`month`-`day`, when it exists.
    pub fn from_ymd_opt(year: i32, month: u32, day: u32) -> (r: Option<CalendarDate>)
        ensures
            r is Some <==> is_valid_ymd(year as int, month as int, day as int),
            r matches Some(d) ==> d == (CalendarDate { year, month, day }),
    {
        if year < MIN_YEAR || year > MAX_YEAR || month < 1 || month > 12 || day < 1 {
            return None;
        }
        let dim = month_length(year, month);
        if day > dim {
            None
        } else {
            Some(CalendarDate { year, month, day })
        }
    }
}

/// Whether `year` is a leap year.
#[verifier::spinoff_prover]
pub fn leap_year(year: i32) -> (r: bool)
    ensures
        r == is_leap_year(year as int),
{
    let y: i64 = year as i64 + 400000;
    proof {
        vstd::arithmetic::div_mod::lemma_mod_multiples_vanish(100000, year as int, 4);
        vstd::arithmetic::div_mod::lemma_mod_multiples_vanish(4000, year as int, 100);
        vstd::arithmetic::div_mod::lemma_mod_multiples_vanish(1000, year as int, 400);
    }
    (y % 4 == 0 && y % 100 != 0) || y % 400 == 0
}

/// The number of days of `month` in `year`.
pub fn month_length(year: i32, month: u32) -> (r: u32)
    requires
        1 <= month <= 12,
    ensures
        r == days_in_month(year as int, month as int),
{
    if month == 2 {
        if leap_year(year) { 29 } else { 28 }
    } else if month == 4 || month == 6 || month == 9 || month == 11 {
        30
    } else {
        31
    }
}

/// The number of days of `year` before the first of `month`.
fn month_offset(year: i32, month: u32) -> (r: i64)
    requires
        1 <= month <= 12,
    ensures
        r == days_before_month(year as int, month as int),
{
    let common: i64 = if month == 1 {
        0
    } else if month == 2 {
        31
    } else if month == 3 {
        59
    } else if month == 4 {
        90
    } else if month == 5 {
        120
    } else if month == 6 {
        151
    } else if month == 7 {
        181
    } else if month == 8 {
        212
    } else if month == 9 {
        243
    } else if month == 10 {
        273
    } else if month == 11 {
        304
    } else {
        334
    };
    if month > 2 && leap_year(year) { common + 1 } else { common }
}

/// Shifting a count of years by whole 400-year cycles shifts the leap-day
/// corrections by the matching multiples.
proof fn lemma_shifted_quotients(p: int)
    ensures
        (p + 400000) / 4 == p / 4 + 100000,
        (p + 400000) / 100 == p / 100 + 4000,
        (p + 400000) / 400 == p / 400 + 1000,
{
    vstd::arithmetic::div_mod::lemma_hoist_over_denominator(p, 100000, 4);
    vstd::arithmetic::div_mod::lemma_hoist_over_denominator(p, 4000, 100);
    vstd::arithmetic::div_mod::lemma_hoist_over_denominator(p, 1000, 400);
}

/// The number of days from 1970-01-01 to `date`, negative before it.
pub fn uniform_date(date: CalendarDate) -> (r: i32)
    requires
        date.spec_valid(),
    ensures
        r == spec_uniform_date(date.year as int, date.month as int, date.day as int),
{
    let p: i64 = date.year as i64 - 1;
    let q: i64 = p + 400000;
    proof {
        lemma_shifted_quotients(p as int);
    }
    let leap_days: i64 = (q / 4 - 100000) - (q / 100 - 4000) + (q / 400 - 1000);
    let days: i64 = 365 * p + leap_days + month_offset(date.year, date.month) + date.day as i64;
    proof {
        assert(-262145 <= p <= 262142);
        assert(-70000 <= leap_days <= 70000) by (nonlinear_arith)
            requires
                leap_days == p / 4 - p / 100 + p / 400,
                -262145 <= p <= 262142,
        ;
    }
    (days - EPOCH_DAYS_FROM_CE as i64) as i32
}


/// Counting down one year removes exactly one multiple of `k` from the
/// multiples of `k` up to the year when, and only when, the year is one.
proof fn lemma_quotient_step(y: int, k: int)
    requires
        0 < k,
    ensures
        y / k - (y - 1) / k == (if y % k == 0 { 1int } else { 0int }),
{
    let q = y / k;
    let r = y % k;
    vstd::arithmetic::div_mod::lemma_fundamental_div_mod(y, k);
    assert(0 <= r < k) by {
        vstd::arithmetic::div_mod::lemma_mod_bound(y, k);
    }
    if r == 0 {
        assert(y - 1 == (q - 1) * k + (k - 1)) by (nonlinear_arith)
            requires
                y == k * q + r,
                r == 0,
        ;
        vstd::arithmetic::div_mod::lemma_fundamental_div_mod_converse_div(y - 1, k, q - 1, k - 1);
    } else {
        assert(y - 1 == q * k + (r - 1)) by (nonlinear_arith)
            requires
                y == k * q + r,
        ;
        vstd::arithmetic::div_mod::lemma_fundamental_div_mod_converse_div(y - 1, k, q, r - 1);
    }
}

/// Consecutive days have consecutive day numbers: the day after a date,
/// within its month, across the end of a month or across the end of a
/// year, is numbered one more.
pub proof fn law_uniform_date_next_day(year: int, month: int, day: int)
    requires
        is_valid_ymd(year, month, day),
    ensures
        day < days_in_month(year, month) ==> spec_uniform_date(year, month, day + 1)
            == spec_uniform_date(year, month, day) + 1,
        day == days_in_month(year, month) && month < 12 ==> spec_uniform_date(year, month + 1, 1)
            == spec_uniform_date(year, month, day) + 1,
        day == days_in_month(year, month) && month == 12 ==> spec_uniform_date(year + 1, 1, 1)
            == spec_uniform_date(year, month, day) + 1,
{
    lemma_quotient_step(year, 4);
    lemma_quotient_step(year, 100);
    lemma_quotient_step(year, 400);
}


/// Whether `month` and `day` name a day of `year`, whatever the year.
pub open spec fn is_calendar_day(year: int, month: int, day: int) -> bool {
    1 <= month <= 12 && 1 <= day <= days_in_month(year, month)
}

/// The day after `year`-`month`-`day`.
pub open spec fn next_date(year: int, month: int, day: int) -> (int, int, int) {
    if day < days_in_month(year, month) {
        (year, month, day + 1)
    } else if month < 12 {
        (year, month + 1, 1)
    } else {
        (year + 1, 1, 1)
    }
}

/// The day `k` days after `year`-`month`-`day`.
pub open spec fn date_after(year: int, month: int, day: int, k: nat) -> (int, int, int)
    decreases k,
{
    if k == 0 {
        (year, month, day)
    } else {
        let (y, m, d) = date_after(year, month, day, (k - 1) as nat);
        next_date(y, m, d)
    }
}

/// Whether `y1`-`m1`-`d1` comes before `y2`-`m2`-`d2`.
pub open spec fn date_before(y1: int, m1: int, d1: int, y2: int, m2: int, d2: int) -> bool {
    y1 < y2 || (y1 == y2 && (m1 < m2 || (m1 == m2 && d1 < d2)))
}

/// The number of days before the first of January of `year`, counted from
/// 0001-01-01.
pub open spec fn days_before_year(year: int) -> int {
    let p = year - 1;
    365 * p + p / 4 - p / 100 + p / 400
}

/// A year has 365 days, and one more when it is a leap year.
proof fn lemma_year_length(year: int)
    ensures
        days_before_year(year + 1) == days_before_year(year) + 365 + (if is_leap_year(year) {
            1int
        } else {
            0int
        }),
{
    lemma_quotient_step(year, 4);
    lemma_quotient_step(year, 100);
    lemma_quotient_step(year, 400);
}

/// Later years start at least 365 days later per year.
proof fn lemma_years_grow(a: int, b: int)
    requires
        a <= b,
    ensures
        days_before_year(a) + 365 * (b - a) <= days_before_year(b),
    decreases b - a,
{
    if a < b {
        lemma_years_grow(a, b - 1);
        lemma_year_length(b - 1);
    }
}

/// The days of a month follow those of the months before it.
proof fn lemma_months_grow(year: int, m1: int, m2: int)
    requires
        1 <= m1 < m2 <= 12,
    ensures
        days_before_month(year, m1) + days_in_month(year, m1) <= days_before_month(year, m2),
{
}

/// The day after a calendar day is a calendar day, numbered one more.
proof fn lemma_next_date_step(year: int, month: int, day: int)
    requires
        is_calendar_day(year, month, day),
    ensures
        is_calendar_day(next_date(year, month, day).0, next_date(year, month, day).1, next_date(year, month, day).2),
        spec_uniform_date(next_date(year, month, day).0, next_date(year, month, day).1, next_date(year, month, day).2)
            == spec_uniform_date(year, month, day) + 1,
{
    lemma_quotient_step(year, 4);
    lemma_quotient_step(year, 100);
    lemma_quotient_step(year, 400);
}

/// The day numbers of a date and of the date `k` days later differ by `k`.
pub proof fn law_uniform_date_counts_days(year: int, month: int, day: int, k: nat)
    requires
        is_calendar_day(year, month, day),
    ensures
        is_calendar_day(date_after(year, month, day, k).0, date_after(year, month, day, k).1, date_after(year, month, day, k).2),
        spec_uniform_date(date_after(year, month, day, k).0, date_after(year, month, day, k).1, date_after(year, month, day, k).2)
            == spec_uniform_date(year, month, day) + k,
    decreases k,
{
    if k > 0 {
        law_uniform_date_counts_days(year, month, day, (k - 1) as nat);
        let (y, m, d) = date_after(year, month, day, (k - 1) as nat);
        lemma_next_date_step(y, m, d);
    }
}

/// Day numbers grow strictly with the date.
pub proof fn law_uniform_date_increasing(y1: int, m1: int, d1: int, y2: int, m2: int, d2: int)
    requires
        is_calendar_day(y1, m1, d1),
        is_calendar_day(y2, m2, d2),
        date_before(y1, m1, d1, y2, m2, d2),
    ensures
        spec_uniform_date(y1, m1, d1) < spec_uniform_date(y2, m2, d2),
{
    if y1 < y2 {
        lemma_year_length(y1);
        lemma_years_grow(y1 + 1, y2);
        if m1 < 12 {
            lemma_months_grow(y1, m1, 12);
        }
    } else if m1 < m2 {
        lemma_months_grow(y1, m1, m2);
    }
}

/// The months have the lengths of the Gregorian calendar: January 31,
/// February 28 or, in a leap year, 29, March 31, April 30, May 31, June 30,
/// July 31, August 31, September 30, October 31, November 30, December 31;
/// and a year has 365 days, 366 in a leap year.
pub proof fn law_gregorian_month_lengths(year: int)
    ensures
        days_in_month(year, 1) == 31,
        days_in_month(year, 2) == (if is_leap_year(year) { 29int } else { 28int }),
        days_in_month(year, 3) == 31,
        days_in_month(year, 4) == 30,
        days_in_month(year, 5) == 31,
        days_in_month(year, 6) == 30,
        days_in_month(year, 7) == 31,
        days_in_month(year, 8) == 31,
        days_in_month(year, 9) == 30,
        days_in_month(year, 10) == 31,
        days_in_month(year, 11) == 30,
        days_in_month(year, 12) == 31,
        days_before_month(year, 1) == 0,
        forall|m: int|
            1 <= m < 12 ==> #[trigger] days_before_month(year, m + 1) == days_before_month(year, m)
                + days_in_month(year, m),
        days_before_month(year, 12) + days_in_month(year, 12) == (if is_leap_year(year) {
            366int
        } else {
            365int
        }),
{
}

/// Leap years are those divisible by 4, except those divisible by 100 but
/// not by 400.
pub proof fn law_gregorian_leap_years()
    ensures
        is_leap_year(2024),
        is_leap_year(2000),
        !is_leap_year(1900),
        !is_leap_year(2023),
        forall|y: int| #[trigger] is_leap_year(y) <==> (y % 400 == 0 || (y % 4 == 0 && y % 100 != 0)),
{
}

/// Day numbers count from 1970-01-01: that day is 0, and the day `k` days
/// after it is `k`; dates before it count down.
pub proof fn law_uniform_date_epoch(k: nat)
    ensures
        spec_uniform_date(1970, 1, 1) == 0,
        is_calendar_day(date_after(1970, 1, 1, k).0, date_after(1970, 1, 1, k).1, date_after(1970, 1, 1, k).2),
        spec_uniform_date(date_after(1970, 1, 1, k).0, date_after(1970, 1, 1, k).1, date_after(1970, 1, 1, k).2) == k,
{
    law_uniform_date_counts_days(1970, 1, 1, k);
}

/// The day numbers of some dates whose distance from 1970-01-01 is known.
pub proof fn law_uniform_date_known_days()
    ensures
        spec_uniform_date(2000, 1, 1) == 10957,
        spec_uniform_date(2023, 9, 30) == 19630,
        spec_uniform_date(2023, 10, 15) == 19645,
        spec_uniform_date(2023, 10, 31) == 19661,
        spec_uniform_date(2024, 2, 29) == 19782,
        spec_uniform_date(1969, 12, 31) == -1,
        is_valid_ymd(2023, 10, 31),
        !is_valid_ymd(2023, 9, 31),
        !is_valid_ymd(2023, 2, 29),
        is_valid_ymd(2024, 2, 29),
{
}

} // verus!
