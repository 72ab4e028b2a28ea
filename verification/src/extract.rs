//! Locating the per-day records of a document and building the ordered
//! daily series.
//!
//! The markup query itself — parsing the document and walking it for
//! `rect[data-date]` elements — is the one trusted step of the library:
//! the `scraper` crate performs it behind [`day_nodes`], whose result is
//! named by the uninterpreted function [`day_nodes_of`]. Everything after
//! that point is verified: reading each node's count, reading its date,
//! and assembling the series.

use vstd::prelude::*;

use crate::date::{spec_parse_iso_date, parse_iso_date, Date};
use crate::digits::{all_digits, digits_val, parse_digits};

verus! {

/// The single failure of the engine: a located per-day node carries no
/// count attribute at all. An unparsable count, by contrast, merely
/// defaults to zero.
#[derive(Clone, Copy, PartialEq, Eq, Structural, Debug)]
pub enum ContriError {
    MissingRequiredField,
}

/// One day's measured activity, as read from one per-day node.
#[derive(Clone, Copy, PartialEq, Eq, Structural, Debug)]
pub struct DailyRecord {
    pub date: Date,
    pub count: u32,
}

/// The per-day nodes of a document, in document order: for each
/// `rect[data-date]` element, the bytes of its `data-date` attribute and
/// the bytes of its `data-count` attribute where that attribute exists.
/// What this sequence is for a given document only the markup parser
/// knows; the library's contracts are stated relative to it.
pub uninterp spec fn day_nodes_of(doc: Seq<char>) -> Seq<(Seq<u8>, Option<Seq<u8>>)>;

/// Relies on scraper (`Selector::parse`, `Html::parse_document`,
/// `Html::select`, `ElementRef::attr`): parses the document and yields,
/// in document order, the `data-date` and optional `data-count`
/// attributes of every element matching `rect[data-date]`.
#[verifier::external_body]
fn day_nodes(html: &str) -> (r: Vec<(Vec<u8>, Option<Vec<u8>>)>)
    ensures
        r.deep_view() == day_nodes_of(html@),
{
    let sel = scraper::Selector::parse("rect[data-date]").unwrap();
    let doc = scraper::Html::parse_document(html);
    doc.select(&sel)
        .map(|el| {
            (
                el.attr("data-date").unwrap_or("").as_bytes().to_vec(),
                el.attr("data-count").map(|c| c.as_bytes().to_vec()),
            )
        })
        .collect()
}

/// What a count attribute denotes: its value when it is a run of digits
/// that fits in a `u32`, and zero otherwise — a malformed count reads as
/// "no activity", never as an error.
pub open spec fn count_val(s: Seq<u8>) -> u32 {
    if s.len() > 0 && all_digits(s) && digits_val(s) <= u32::MAX {
        digits_val(s) as u32
    } else {
        0
    }
}

/// Reads a count attribute, defaulting malformed text to zero.
pub fn parse_count(v: &Vec<u8>) -> (r: u32)
    ensures
        r == count_val(v@),
{
    proof {
        assert(v@.subrange(0, v@.len() as int) =~= v@);
    }
    match parse_digits(v, 0, v.len()) {
        Some(n) => n,
        None => 0,
    }
}

/// Some located node carries no count attribute: the one hard error.
pub open spec fn missing_count(nodes: Seq<(Seq<u8>, Option<Seq<u8>>)>) -> bool {
    exists|i: int| 0 <= i < nodes.len() && (#[trigger] nodes[i]).1 is None
}

/// The count a node contributes once its presence has been checked.
pub open spec fn record_count(c: Option<Seq<u8>>) -> u32 {
    match c {
        Some(s) => count_val(s),
        None => 0,
    }
}

/// The daily series a list of per-day nodes denotes, in document order:
/// one record per node whose date attribute is a well-formed calendar
/// date. A node whose date does not parse is not a per-day record and is
/// passed over.
pub open spec fn records_of(nodes: Seq<(Seq<u8>, Option<Seq<u8>>)>) -> Seq<DailyRecord>
    decreases nodes.len(),
{
    if nodes.len() == 0 {
        Seq::empty()
    } else {
        let prefix = records_of(nodes.drop_last());
        match spec_parse_iso_date(nodes.last().0) {
            Some(d) => prefix.push(
                DailyRecord { date: d, count: record_count(nodes.last().1) },
            ),
            None => prefix,
        }
    }
}

/// Extracts the ordered daily series of a document. Fails if and only if
/// some located per-day node has no count attribute at all.
pub fn extract(html: &str) -> (r: Result<Vec<DailyRecord>, ContriError>)
    ensures
        ({
            let nodes = day_nodes_of(html@);
            match r {
                Ok(series) => !missing_count(nodes) && series@ == records_of(nodes),
                Err(e) => missing_count(nodes) && e == ContriError::MissingRequiredField,
            }
        }),
{
    let nodes = day_nodes(html);
    let ghost nseq = day_nodes_of(html@);
    let mut out: Vec<DailyRecord> = Vec::new();
    let mut i: usize = 0;
    while i < nodes.len()
        invariant
            i <= nodes@.len(),
            nodes.deep_view() == nseq,
            nseq == day_nodes_of(html@),
            !missing_count(nseq.take(i as int)),
            out@ == records_of(nseq.take(i as int)),
        decreases nodes@.len() - i,
    {
        proof {
            assert(nseq[i as int] == nodes@[i as int].deep_view());
        }
        let pair = &nodes[i];
        match &pair.1 {
            None => {
                proof {
                    assert(nseq[i as int].1 is None);
                }
                return Err(ContriError::MissingRequiredField);
            },
            Some(c) => {
                proof {
                    assert(nseq[i as int].0 =~= nodes@[i as int].0@);
                    assert(nseq[i as int].1->0 =~= c@);
                }
                let count = parse_count(c);
                match parse_iso_date(&pair.0) {
                    Some(d) => out.push(DailyRecord { date: d, count }),
                    None => {},
                }
            },
        }
        proof {
            let t = nseq.take(i as int + 1);
            assert(t.drop_last() =~= nseq.take(i as int));
            assert(t.last() == nseq[i as int]);
        }
        i = i + 1;
    }
    proof {
        assert(nseq.take(i as int) =~= nseq);
    }
    Ok(out)
}

/// The count of the first record carrying the given date, if any.
pub open spec fn first_count_on(s: Seq<DailyRecord>, d: Date) -> Option<u32>
    decreases s.len(),
{
    if s.len() == 0 {
        None
    } else if s[0].date == d {
        Some(s[0].count)
    } else {
        first_count_on(s.drop_first(), d)
    }
}

/// Looks one date up in a series, front to back.
pub fn find_count(series: &Vec<DailyRecord>, date: Date) -> (r: Option<u32>)
    ensures
        r == first_count_on(series@, date),
{
    let mut i: usize = 0;
    proof {
        assert(series@.skip(0) =~= series@);
    }
    while i < series.len()
        invariant
            i <= series@.len(),
            first_count_on(series@, date) == first_count_on(series@.skip(i as int), date),
        decreases series@.len() - i,
    {
        proof {
            let sk = series@.skip(i as int);
            assert(sk[0] == series@[i as int]);
            assert(sk.drop_first() =~= series@.skip(i as int + 1));
        }
        let rec = &series[i];
        if rec.date.year == date.year && rec.date.month == date.month
            && rec.date.day == date.day {
            return Some(rec.count);
        }
        i = i + 1;
    }
    proof {
        assert(series@.skip(i as int) =~= Seq::<DailyRecord>::empty());
    }
    None
}

/// The date-scoped lookup: the count recorded for one date, `None` when
/// the date is absent from the document — an absent date is a valid
/// outcome, not an error.
pub fn extract_one(html: &str, date: Date) -> (r: Result<Option<u32>, ContriError>)
    ensures
        ({
            let nodes = day_nodes_of(html@);
            match r {
                Ok(c) => !missing_count(nodes) && c == first_count_on(
                    records_of(nodes),
                    date,
                ),
                Err(e) => missing_count(nodes) && e == ContriError::MissingRequiredField,
            }
        }),
{
    match extract(html) {
        Ok(series) => Ok(find_count(&series, date)),
        Err(e) => Err(e),
    }
}

} // verus!
