//! The assembled result: five window sums and three derived averages for
//! one document and one reference date.

use vstd::prelude::*;

use crate::aggregate::{
    aggregate, all_time_sum, month_window_sum, month_sum, sat32, spec_aggregate,
    sum_counts, today_count, today_window_count, trailing_week_sum, week_sum,
    year_sum, year_window_sum,
};
use crate::date::Date;
use crate::extract::{
    day_nodes_of, extract, missing_count, records_of, ContriError, DailyRecord,
};

verus! {

/// One immutable aggregation result. Created once per document and
/// reference date; the averages use truncating integer division.
#[derive(Clone, Copy, PartialEq, Eq, Structural, Debug)]
pub struct ContriView {
    pub today_contributions: u32,
    pub week_contributions: u32,
    pub month_contributions: u32,
    pub year_contributions: u32,
    pub week_ave: u32,
    pub month_ave: u32,
    pub sum_ave: u32,
    pub sum_contributions: u32,
}

impl ContriView {
    /// The all-zero view: the canonical result when nothing matches.
    pub open spec fn spec_default() -> ContriView {
        ContriView {
            today_contributions: 0,
            week_contributions: 0,
            month_contributions: 0,
            year_contributions: 0,
            week_ave: 0,
            month_ave: 0,
            sum_ave: 0,
            sum_contributions: 0,
        }
    }

    /// The view owed for a series and a reference date: the five window
    /// sums, the week sum divided by seven, the month sum divided by the
    /// reference day-of-month, and the all-time sum divided by 365 — all
    /// divisions truncating.
    pub open spec fn spec_view(s: Seq<DailyRecord>, d: Date) -> ContriView {
        let w = spec_aggregate(s, d);
        ContriView {
            today_contributions: w.today,
            week_contributions: w.week,
            month_contributions: w.month,
            year_contributions: w.year,
            week_ave: w.week / 7,
            month_ave: w.month / d.day,
            sum_ave: w.all_time / 365,
            sum_contributions: w.all_time,
        }
    }

    /// Builds the full view from a document and a reference date. Fails
    /// if and only if some located per-day node carries no count
    /// attribute; every other anomaly resolves to a zero-valued field.
    pub fn from_html(html: &str, date: Date) -> (r: Result<ContriView, ContriError>)
        requires
            date.wf(),
        ensures
            ({
                let nodes = day_nodes_of(html@);
                match r {
                    Ok(v) => !missing_count(nodes) && v == Self::spec_view(
                        records_of(nodes),
                        date,
                    ),
                    Err(e) => missing_count(nodes) && e
                        == ContriError::MissingRequiredField,
                }
            }),
    {
        match extract(html) {
            Err(e) => Err(e),
            Ok(series) => {
                let w = aggregate(&series, date);
                Ok(
                    ContriView {
                        today_contributions: w.today,
                        week_contributions: w.week,
                        month_contributions: w.month,
                        year_contributions: w.year,
                        week_ave: w.week / 7,
                        month_ave: w.month / date.day,
                        sum_ave: w.all_time / 365,
                        sum_contributions: w.all_time,
                    },
                )
            },
        }
    }

    /// The all-time sum of a document's counts.
    pub fn sum_contributions_from_html(html: &str) -> (r: Result<u32, ContriError>)
        ensures
            ({
                let nodes = day_nodes_of(html@);
                match r {
                    Ok(c) => !missing_count(nodes) && c == sat32(
                        sum_counts(records_of(nodes)),
                    ),
                    Err(e) => missing_count(nodes) && e
                        == ContriError::MissingRequiredField,
                }
            }),
    {
        match extract(html) {
            Err(e) => Err(e),
            Ok(series) => Ok(all_time_sum(&series)),
        }
    }

    /// The sum of the last seven records of a document.
    pub fn week_contributions_from_html(html: &str) -> (r: Result<u32, ContriError>)
        ensures
            ({
                let nodes = day_nodes_of(html@);
                match r {
                    Ok(c) => !missing_count(nodes) && c == sat32(
                        week_sum(records_of(nodes)),
                    ),
                    Err(e) => missing_count(nodes) && e
                        == ContriError::MissingRequiredField,
                }
            }),
    {
        match extract(html) {
            Err(e) => Err(e),
            Ok(series) => Ok(trailing_week_sum(&series)),
        }
    }

    /// The sum over the reference date's calendar month.
    pub fn month_contributions_from_html(html: &str, date: Date) -> (r: Result<
        u32,
        ContriError,
    >)
        ensures
            ({
                let nodes = day_nodes_of(html@);
                match r {
                    Ok(c) => !missing_count(nodes) && c == sat32(
                        month_sum(records_of(nodes), date.year, date.month),
                    ),
                    Err(e) => missing_count(nodes) && e
                        == ContriError::MissingRequiredField,
                }
            }),
    {
        match extract(html) {
            Err(e) => Err(e),
            Ok(series) => Ok(month_window_sum(&series, date.year, date.month)),
        }
    }

    /// The sum over the reference date's calendar year.
    pub fn year_contributions_from_html(html: &str, date: Date) -> (r: Result<
        u32,
        ContriError,
    >)
        ensures
            ({
                let nodes = day_nodes_of(html@);
                match r {
                    Ok(c) => !missing_count(nodes) && c == sat32(
                        year_sum(records_of(nodes), date.year),
                    ),
                    Err(e) => missing_count(nodes) && e
                        == ContriError::MissingRequiredField,
                }
            }),
    {
        match extract(html) {
            Err(e) => Err(e),
            Ok(series) => Ok(year_window_sum(&series, date.year)),
        }
    }

    /// The reference date's own count, zero when the date is absent.
    pub fn today_contributions_from_html(html: &str, date: Date) -> (r: Result<
        u32,
        ContriError,
    >)
        ensures
            ({
                let nodes = day_nodes_of(html@);
                match r {
                    Ok(c) => !missing_count(nodes) && c == today_count(
                        records_of(nodes),
                        date,
                    ),
                    Err(e) => missing_count(nodes) && e
                        == ContriError::MissingRequiredField,
                }
            }),
    {
        match extract(html) {
            Err(e) => Err(e),
            Ok(series) => Ok(today_window_count(&series, date)),
        }
    }
}

impl Default for ContriView {
    /// The canonical all-zero view.
    fn default() -> (r: ContriView)
        ensures
            r == ContriView::spec_default(),
    {
        ContriView {
            today_contributions: 0,
            week_contributions: 0,
            month_contributions: 0,
            year_contributions: 0,
            week_ave: 0,
            month_ave: 0,
            sum_ave: 0,
            sum_contributions: 0,
        }
    }
}

} // verus!
