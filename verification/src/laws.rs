//! The general laws of the aggregation engine, stated and proved over the
//! series model that the contracts use.

use vstd::prelude::*;

use crate::aggregate::{
    spec_aggregate, sum_counts, today_count, week_sum, week_window_start, year_sum,
    WindowSums,
};
use crate::contriview::ContriView;
use crate::date::Date;
use crate::extract::{day_nodes_of, first_count_on, missing_count, records_of, DailyRecord};

verus! {

/// An empty series aggregates to all-zero window sums.
pub proof fn lemma_empty_series_zero_sums(d: Date)
    ensures
        spec_aggregate(Seq::empty(), d) == (WindowSums {
            today: 0,
            week: 0,
            month: 0,
            year: 0,
            all_time: 0,
        }),
{
    let s = Seq::<DailyRecord>::empty();
    assert(s.skip(week_window_start(s)) =~= s);
}

/// No two listed years coincide.
pub open spec fn distinct_u32(ys: Seq<u32>) -> bool {
    forall|i: int, j: int| 0 <= i < j < ys.len() ==> ys[i] != ys[j]
}

/// The year sums of a series, added up over a list of years.
pub open spec fn years_total(s: Seq<DailyRecord>, ys: Seq<u32>) -> int
    decreases ys.len(),
{
    if ys.len() == 0 {
        0
    } else {
        years_total(s, ys.drop_last()) + year_sum(s, ys.last())
    }
}

proof fn lemma_years_total_empty(ys: Seq<u32>)
    ensures
        years_total(Seq::empty(), ys) == 0,
    decreases ys.len(),
{
    if ys.len() > 0 {
        lemma_years_total_empty(ys.drop_last());
    }
}

proof fn lemma_contains_split(ys: Seq<u32>, y: u32)
    requires
        ys.len() > 0,
    ensures
        ys.contains(y) <==> (ys.drop_last().contains(y) || ys.last() == y),
{
    if ys.contains(y) {
        let i = choose|i: int| 0 <= i < ys.len() && ys[i] == y;
        if i < ys.len() - 1 {
            assert(ys.drop_last()[i] == y);
        }
    }
    if ys.drop_last().contains(y) {
        let i = choose|i: int| 0 <= i < ys.drop_last().len() && ys.drop_last()[i] == y;
        assert(ys[i] == y);
    }
}

proof fn lemma_year_sum_push(s: Seq<DailyRecord>, r: DailyRecord, y: u32)
    ensures
        year_sum(s.push(r), y) == year_sum(s, y) + if r.date.year == y {
            r.count as int
        } else {
            0
        },
{
    assert(s.push(r).drop_last() =~= s);
    assert(s.push(r).last() == r);
}

proof fn lemma_years_total_push(s: Seq<DailyRecord>, r: DailyRecord, ys: Seq<u32>)
    requires
        distinct_u32(ys),
    ensures
        years_total(s.push(r), ys) == years_total(s, ys) + if ys.contains(r.date.year) {
            r.count as int
        } else {
            0
        },
    decreases ys.len(),
{
    if ys.len() == 0 {
        assert(!ys.contains(r.date.year));
    } else {
        let butlast = ys.drop_last();
        assert(distinct_u32(butlast)) by {
            assert(forall|i: int, j: int|
                0 <= i < j < butlast.len() ==> butlast[i] == ys[i] && butlast[j] == ys[j]);
        }
        lemma_years_total_push(s, r, butlast);
        lemma_year_sum_push(s, r, ys.last());
        lemma_contains_split(ys, r.date.year);
        if ys.last() == r.date.year {
            assert(!butlast.contains(r.date.year)) by {
                if butlast.contains(r.date.year) {
                    let i = choose|i: int|
                        0 <= i < butlast.len() && butlast[i] == r.date.year;
                    assert(ys[i] == ys[ys.len() - 1]);
                }
            }
        }
    }
}

/// Partition by year: the all-time sum equals the year sums added up over
/// any duplicate-free list of years that covers every year present in the
/// series — in particular over the distinct years present.
pub proof fn lemma_all_time_partitions_by_year(s: Seq<DailyRecord>, ys: Seq<u32>)
    requires
        distinct_u32(ys),
        forall|i: int| 0 <= i < s.len() ==> ys.contains((#[trigger] s[i]).date.year),
    ensures
        sum_counts(s) == years_total(s, ys),
    decreases s.len(),
{
    if s.len() == 0 {
        assert(s =~= Seq::<DailyRecord>::empty());
        lemma_years_total_empty(ys);
    } else {
        let butlast = s.drop_last();
        lemma_all_time_partitions_by_year(butlast, ys);
        assert(s =~= butlast.push(s.last()));
        assert(ys.contains(s.last().date.year));
        lemma_years_total_push(butlast, s.last(), ys);
    }
}

/// The trailing-week sum depends only on the last seven records:
/// prepending earlier records never changes it once seven exist.
pub proof fn lemma_week_sum_prepend(prefix: Seq<DailyRecord>, s: Seq<DailyRecord>)
    requires
        s.len() >= 7,
    ensures
        week_sum(prefix + s) == week_sum(s),
{
    let t = prefix + s;
    assert(t.skip(week_window_start(t)) =~= s.skip(week_window_start(s)));
}

proof fn lemma_sum_counts_cons(s: Seq<DailyRecord>)
    requires
        s.len() > 0,
    ensures
        sum_counts(s) == s[0].count + sum_counts(s.drop_first()),
    decreases s.len(),
{
    if s.len() == 1 {
        assert(s.drop_first() =~= Seq::<DailyRecord>::empty());
        assert(s.drop_last() =~= Seq::<DailyRecord>::empty());
    } else {
        lemma_sum_counts_cons(s.drop_last());
        assert(s.drop_last().drop_first() =~= s.drop_first().drop_last());
        assert(s.drop_first().last() == s.last());
        assert(s.drop_last()[0] == s[0]);
    }
}

/// Appending one record to a series of at least seven shifts the trailing
/// window: the new sum drops the oldest of the previous seven and adds
/// the new record's count.
pub proof fn lemma_week_sum_append(s: Seq<DailyRecord>, r: DailyRecord)
    requires
        s.len() >= 7,
    ensures
        week_sum(s.push(r)) == week_sum(s) - s[s.len() - 7].count + r.count,
{
    let n = s.len() as int;
    let w = s.skip(n - 7);
    let w2 = s.push(r).skip(n - 6);
    assert(week_window_start(s.push(r)) == n - 6);
    assert(w2 =~= w.drop_first().push(r));
    assert(w2.drop_last() =~= w.drop_first());
    assert(w2.last() == r);
    lemma_sum_counts_cons(w);
    assert(w[0] == s[n - 7]);
}

/// A reference date absent from the series always reads as zero — an
/// absent date is a valid outcome, never an error.
pub proof fn lemma_today_absent(s: Seq<DailyRecord>, d: Date)
    requires
        forall|i: int| 0 <= i < s.len() ==> (#[trigger] s[i]).date != d,
    ensures
        today_count(s, d) == 0,
    decreases s.len(),
{
    if s.len() > 0 {
        assert(s[0].date != d);
        assert(forall|i: int|
            0 <= i < s.drop_first().len() ==> (#[trigger] s.drop_first()[i]).date != d);
        lemma_today_absent(s.drop_first(), d);
        assert(first_count_on(s, d) == first_count_on(s.drop_first(), d));
    }
}

/// A document with zero per-day nodes is no error: it builds into the
/// all-zero view.
pub proof fn lemma_empty_document_default_view(
    nodes: Seq<(Seq<u8>, Option<Seq<u8>>)>,
    d: Date,
)
    requires
        nodes.len() == 0,
        d.wf(),
    ensures
        !missing_count(nodes),
        ContriView::spec_view(records_of(nodes), d) == ContriView::spec_default(),
{
    assert(records_of(nodes) =~= Seq::<DailyRecord>::empty());
    lemma_empty_series_zero_sums(d);
}

/// Building is a pure function of the document and the reference date:
/// two views owed for the same inputs are identical.
pub proof fn lemma_build_deterministic(doc: Seq<char>, d: Date, v1: ContriView, v2: ContriView)
    requires
        v1 == ContriView::spec_view(records_of(day_nodes_of(doc)), d),
        v2 == ContriView::spec_view(records_of(day_nodes_of(doc)), d),
    ensures
        v1 == v2,
{
}

} // verus!
