//! Window sums over the daily series: today, trailing seven records,
//! calendar month, calendar year, and all time.
//!
//! Every window is a pure function of the series and the reference date;
//! no window computation can fail. Sums saturate at `u32::MAX` instead of
//! wrapping, which the contracts state exactly.

use vstd::prelude::*;

use crate::date::Date;
use crate::extract::{first_count_on, find_count, DailyRecord};

verus! {

/// Sum of every record's count, document order irrelevant.
pub open spec fn sum_counts(s: Seq<DailyRecord>) -> int
    decreases s.len(),
{
    if s.len() == 0 {
        0
    } else {
        sum_counts(s.drop_last()) + s.last().count
    }
}

/// Sum of the counts of records whose date lies in calendar year `y`.
pub open spec fn year_sum(s: Seq<DailyRecord>, y: u32) -> int
    decreases s.len(),
{
    if s.len() == 0 {
        0
    } else {
        year_sum(s.drop_last(), y) + if s.last().date.year == y {
            s.last().count as int
        } else {
            0
        }
    }
}

/// Sum of the counts of records whose date lies in month `m` of year `y`.
pub open spec fn month_sum(s: Seq<DailyRecord>, y: u32, m: u32) -> int
    decreases s.len(),
{
    if s.len() == 0 {
        0
    } else {
        month_sum(s.drop_last(), y, m) + if s.last().date.year == y
            && s.last().date.month == m {
            s.last().count as int
        } else {
            0
        }
    }
}

/// Where the trailing window of the last seven records begins.
pub open spec fn week_window_start(s: Seq<DailyRecord>) -> int {
    if s.len() >= 7 {
        s.len() - 7
    } else {
        0
    }
}

/// Sum of the counts of the last seven records in document order — a
/// positional window, not a calendar week. A shorter series sums whole.
pub open spec fn week_sum(s: Seq<DailyRecord>) -> int {
    sum_counts(s.skip(week_window_start(s)))
}

/// The count recorded for the reference date: the first record matching
/// it exactly, or zero when the date is absent.
pub open spec fn today_count(s: Seq<DailyRecord>, d: Date) -> u32 {
    match first_count_on(s, d) {
        Some(c) => c,
        None => 0,
    }
}

/// A sum clamped to what a `u32` can hold.
pub open spec fn sat32(n: int) -> u32
    recommends
        n >= 0,
{
    if n > u32::MAX {
        u32::MAX
    } else {
        n as u32
    }
}

pub proof fn lemma_sum_counts_nonneg(s: Seq<DailyRecord>)
    ensures
        sum_counts(s) >= 0,
    decreases s.len(),
{
    if s.len() > 0 {
        lemma_sum_counts_nonneg(s.drop_last());
    }
}

pub proof fn lemma_year_sum_nonneg(s: Seq<DailyRecord>, y: u32)
    ensures
        year_sum(s, y) >= 0,
    decreases s.len(),
{
    if s.len() > 0 {
        lemma_year_sum_nonneg(s.drop_last(), y);
    }
}

pub proof fn lemma_month_sum_nonneg(s: Seq<DailyRecord>, y: u32, m: u32)
    ensures
        month_sum(s, y, m) >= 0,
    decreases s.len(),
{
    if s.len() > 0 {
        lemma_month_sum_nonneg(s.drop_last(), y, m);
    }
}

proof fn lemma_sat32_add(n: int, c: u32)
    requires
        n >= 0,
    ensures
        sat32(n + c) == sat32(sat32(n) as int + c),
{
}

/// Adds without wrapping: the sum, clamped to `u32::MAX`.
fn sat_add(a: u32, b: u32) -> (r: u32)
    ensures
        r == sat32(a as int + b as int),
{
    if a <= u32::MAX - b {
        a + b
    } else {
        u32::MAX
    }
}

/// Sums the counts of `series[start..]`, clamped to `u32::MAX`.
fn sum_from(series: &Vec<DailyRecord>, start: usize) -> (r: u32)
    requires
        start <= series@.len(),
    ensures
        r == sat32(sum_counts(series@.skip(start as int))),
{
    let mut acc: u32 = 0;
    let mut i: usize = start;
    while i < series.len()
        invariant
            start <= i <= series@.len(),
            acc == sat32(sum_counts(series@.subrange(start as int, i as int))),
        decreases series@.len() - i,
    {
        proof {
            let t = series@.subrange(start as int, i as int + 1);
            assert(t.drop_last() =~= series@.subrange(start as int, i as int));
            assert(t.last() == series@[i as int]);
            lemma_sum_counts_nonneg(series@.subrange(start as int, i as int));
            lemma_sat32_add(
                sum_counts(series@.subrange(start as int, i as int)),
                series@[i as int].count,
            );
        }
        acc = sat_add(acc, series[i].count);
        i = i + 1;
    }
    proof {
        assert(series@.subrange(start as int, i as int) =~= series@.skip(start as int));
    }
    acc
}

/// The all-time window: every record's count.
pub fn all_time_sum(series: &Vec<DailyRecord>) -> (r: u32)
    ensures
        r == sat32(sum_counts(series@)),
{
    proof {
        assert(series@.skip(0) =~= series@);
    }
    sum_from(series, 0)
}

/// The trailing window: the last seven records, or the whole series when
/// it is shorter.
pub fn trailing_week_sum(series: &Vec<DailyRecord>) -> (r: u32)
    ensures
        r == sat32(week_sum(series@)),
{
    let start = if series.len() >= 7 {
        series.len() - 7
    } else {
        0
    };
    sum_from(series, start)
}

/// The calendar-year window for year `y`.
pub fn year_window_sum(series: &Vec<DailyRecord>, y: u32) -> (r: u32)
    ensures
        r == sat32(year_sum(series@, y)),
{
    let mut acc: u32 = 0;
    let mut i: usize = 0;
    while i < series.len()
        invariant
            i <= series@.len(),
            acc == sat32(year_sum(series@.take(i as int), y)),
        decreases series@.len() - i,
    {
        proof {
            let t = series@.take(i as int + 1);
            assert(t.drop_last() =~= series@.take(i as int));
            assert(t.last() == series@[i as int]);
            lemma_year_sum_nonneg(series@.take(i as int), y);
            lemma_sat32_add(year_sum(series@.take(i as int), y), series@[i as int].count);
        }
        let rec = &series[i];
        if rec.date.year == y {
            acc = sat_add(acc, rec.count);
        }
        i = i + 1;
    }
    proof {
        assert(series@.take(i as int) =~= series@);
    }
    acc
}

/// The calendar-month window for month `m` of year `y`.
pub fn month_window_sum(series: &Vec<DailyRecord>, y: u32, m: u32) -> (r: u32)
    ensures
        r == sat32(month_sum(series@, y, m)),
{
    let mut acc: u32 = 0;
    let mut i: usize = 0;
    while i < series.len()
        invariant
            i <= series@.len(),
            acc == sat32(month_sum(series@.take(i as int), y, m)),
        decreases series@.len() - i,
    {
        proof {
            let t = series@.take(i as int + 1);
            assert(t.drop_last() =~= series@.take(i as int));
            assert(t.last() == series@[i as int]);
            lemma_month_sum_nonneg(series@.take(i as int), y, m);
            lemma_sat32_add(
                month_sum(series@.take(i as int), y, m),
                series@[i as int].count,
            );
        }
        let rec = &series[i];
        if rec.date.year == y && rec.date.month == m {
            acc = sat_add(acc, rec.count);
        }
        i = i + 1;
    }
    proof {
        assert(series@.take(i as int) =~= series@);
    }
    acc
}

/// The today window: the reference date's own count, zero when absent.
pub fn today_window_count(series: &Vec<DailyRecord>, date: Date) -> (r: u32)
    ensures
        r == today_count(series@, date),
{
    match find_count(series, date) {
        Some(c) => c,
        None => 0,
    }
}

/// The five window sums of one aggregation pass.
#[derive(Clone, Copy, PartialEq, Eq, Structural, Debug)]
pub struct WindowSums {
    pub today: u32,
    pub week: u32,
    pub month: u32,
    pub year: u32,
    pub all_time: u32,
}

/// What aggregation yields: each window stated over the series model.
pub open spec fn spec_aggregate(s: Seq<DailyRecord>, d: Date) -> WindowSums {
    WindowSums {
        today: today_count(s, d),
        week: sat32(week_sum(s)),
        month: sat32(month_sum(s, d.year, d.month)),
        year: sat32(year_sum(s, d.year)),
        all_time: sat32(sum_counts(s)),
    }
}

/// Computes the five window sums. Total: every edge case — empty series,
/// short series, absent reference date — resolves to zero, never an
/// error.
pub fn aggregate(series: &Vec<DailyRecord>, date: Date) -> (r: WindowSums)
    ensures
        r == spec_aggregate(series@, date),
{
    WindowSums {
        today: today_window_count(series, date),
        week: trailing_week_sum(series),
        month: month_window_sum(series, date.year, date.month),
        year: year_window_sum(series, date.year),
        all_time: all_time_sum(series),
    }
}

} // verus!
