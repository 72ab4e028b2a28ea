//! Calendar dates as plain year, month and day numbers, and the reading of
//! a date from its ISO-8601 textual form `YYYY-MM-DD`.

use vstd::prelude::*;

use crate::digits::{
    all_digits, digits_val, lemma_digits_val_bound, lemma_pow10_small, parse_digits,
};

verus! {

/// A calendar date. The engine never reads wall-clock time: every date is
/// supplied by the caller or read from the document.
#[derive(Clone, Copy, PartialEq, Eq, Structural, Debug)]
pub struct Date {
    pub year: u32,
    pub month: u32,
    pub day: u32,
}

impl Date {
    /// A well-formed date: a four-digit year and month and day within
    /// calendar range.
    pub open spec fn wf(self) -> bool {
        self.year <= 9999 && 1 <= self.month <= 12 && 1 <= self.day <= 31
    }

    /// Builds a date, rejecting out-of-range fields.
    pub fn new(year: u32, month: u32, day: u32) -> (r: Option<Date>)
        ensures
            match r {
                Some(d) => d == (Date { year, month, day }) && d.wf(),
                None => !(Date { year, month, day }).wf(),
            },
    {
        if year <= 9999 && 1 <= month && month <= 12 && 1 <= day && day <= 31 {
            Some(Date { year, month, day })
        } else {
            None
        }
    }
}

/// The string has the shape `YYYY-MM-DD`: ten bytes, dashes at positions
/// four and seven, digits elsewhere.
pub open spec fn iso_date_format(s: Seq<u8>) -> bool {
    &&& s.len() == 10
    &&& s[4] == 45
    &&& s[7] == 45
    &&& all_digits(s.subrange(0, 4))
    &&& all_digits(s.subrange(5, 7))
    &&& all_digits(s.subrange(8, 10))
}

/// The date an `YYYY-MM-DD` string denotes, read field by field.
pub open spec fn iso_date_value(s: Seq<u8>) -> Date {
    Date {
        year: digits_val(s.subrange(0, 4)) as u32,
        month: digits_val(s.subrange(5, 7)) as u32,
        day: digits_val(s.subrange(8, 10)) as u32,
    }
}

/// What reading a date attribute yields: the denoted date when the string
/// is `YYYY-MM-DD` with month and day in calendar range, nothing otherwise.
pub open spec fn spec_parse_iso_date(s: Seq<u8>) -> Option<Date> {
    if iso_date_format(s) && iso_date_value(s).wf() {
        Some(iso_date_value(s))
    } else {
        None
    }
}

/// Reads a date from its `YYYY-MM-DD` form.
pub fn parse_iso_date(v: &Vec<u8>) -> (r: Option<Date>)
    ensures
        r == spec_parse_iso_date(v@),
{
    if v.len() != 10 {
        return None;
    }
    if v[4] != 45 || v[7] != 45 {
        return None;
    }
    let year = parse_digits(v, 0, 4);
    let month = parse_digits(v, 5, 7);
    let day = parse_digits(v, 8, 10);
    proof {
        lemma_pow10_small();
        if iso_date_format(v@) {
            lemma_digits_val_bound(v@.subrange(0, 4));
            lemma_digits_val_bound(v@.subrange(5, 7));
            lemma_digits_val_bound(v@.subrange(8, 10));
        }
    }
    match (year, month, day) {
        (Some(y), Some(m), Some(d)) => {
            if 1 <= m && m <= 12 && 1 <= d && d <= 31 {
                Some(Date { year: y, month: m, day: d })
            } else {
                None
            }
        },
        _ => None,
    }
}

} // verus!
