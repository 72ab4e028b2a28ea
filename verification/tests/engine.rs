use contributions::aggregate::{aggregate, all_time_sum, year_window_sum, WindowSums};
use contributions::contriview::ContriView;
use contributions::date::Date;
use contributions::extract::{extract, extract_one, parse_count, ContriError, DailyRecord};

fn rect(date: &str, count: &str) -> String {
    format!(
        "<rect class=\"day\" data-count=\"{}\" data-date=\"{}\"/>",
        count, date
    )
}

fn doc(rects: &str) -> String {
    format!("<svg>{}</svg>", rects)
}

#[test]
fn test_empty_document_builds_default() {
    let date = Date::new(2019, 1, 26).unwrap();
    let html = "<html><body><p>nothing here</p></body></html>";
    assert_eq!(ContriView::from_html(html, date), Ok(ContriView::default()));
    assert_eq!(extract(html), Ok(vec![]));
}

#[test]
fn test_all_time_partitions_by_year() {
    let html = doc(&format!(
        "{}{}{}{}",
        rect("2018-05-01", "1"),
        rect("2018-05-02", "2"),
        rect("2019-01-01", "3"),
        rect("2019-01-02", "4"),
    ));
    let series = extract(&html).unwrap();
    let total = all_time_sum(&series);
    let y2018 = year_window_sum(&series, 2018);
    let y2019 = year_window_sum(&series, 2019);
    assert_eq!(total, 10);
    assert_eq!(y2018 + y2019, total);
}

#[test]
fn test_week_depends_on_last_seven() {
    let base: String = (1..=8)
        .map(|i| rect(&format!("2019-01-0{}", i), &i.to_string()))
        .collect();
    let week = ContriView::week_contributions_from_html(&doc(&base)).unwrap();
    assert_eq!(week, 2 + 3 + 4 + 5 + 6 + 7 + 8);

    // Prepending an earlier record leaves the trailing window unchanged.
    let prepended = format!("{}{}", rect("2018-12-31", "100"), base);
    assert_eq!(
        ContriView::week_contributions_from_html(&doc(&prepended)).unwrap(),
        week
    );

    // Appending one record drops the oldest of the previous seven.
    let appended = format!("{}{}", base, rect("2019-01-09", "9"));
    assert_eq!(
        ContriView::week_contributions_from_html(&doc(&appended)).unwrap(),
        week - 2 + 9
    );
}

#[test]
fn test_week_short_series_sums_whole() {
    let html = doc(&format!(
        "{}{}{}",
        rect("2019-01-01", "1"),
        rect("2019-01-02", "2"),
        rect("2019-01-03", "3"),
    ));
    assert_eq!(
        ContriView::week_contributions_from_html(&html).unwrap(),
        6
    );
}

#[test]
fn test_today_absent_is_zero() {
    let html = doc(&rect("2019-01-26", "3"));
    let absent = Date::new(2019, 3, 1).unwrap();
    assert_eq!(
        ContriView::today_contributions_from_html(&html, absent),
        Ok(0)
    );
    assert_eq!(extract_one(&html, absent), Ok(None));
}

#[test]
fn test_extract_one_present() {
    let html = doc(&format!(
        "{}{}",
        rect("2019-01-25", "4"),
        rect("2019-01-26", "17"),
    ));
    let date = Date::new(2019, 1, 26).unwrap();
    assert_eq!(extract_one(&html, date), Ok(Some(17)));
}

#[test]
fn test_build_idempotent() {
    let html = doc(&format!(
        "{}{}",
        rect("2019-01-25", "4"),
        rect("2019-01-26", "17"),
    ));
    let date = Date::new(2019, 1, 26).unwrap();
    let first = ContriView::from_html(&html, date);
    let second = ContriView::from_html(&html, date);
    assert_eq!(first, second);
}

#[test]
fn test_sum_ave_truncates() {
    let html = doc(&format!(
        "{}{}",
        rect("2019-01-01", "182"),
        rect("2019-01-02", "182"),
    ));
    let date = Date::new(2019, 1, 26).unwrap();
    let view = ContriView::from_html(&html, date).unwrap();
    assert_eq!(view.sum_contributions, 364);
    assert_eq!(view.sum_ave, 0);
}

#[test]
fn test_missing_count_is_error() {
    let html = doc(&format!(
        "{}{}",
        rect("2019-01-01", "5"),
        "<rect class=\"day\" data-date=\"2019-01-02\"/>",
    ));
    let date = Date::new(2019, 1, 26).unwrap();
    assert_eq!(
        ContriView::from_html(&html, date),
        Err(ContriError::MissingRequiredField)
    );
    assert_eq!(
        ContriView::sum_contributions_from_html(&html),
        Err(ContriError::MissingRequiredField)
    );
}

#[test]
fn test_malformed_count_reads_zero() {
    let html = doc(&format!(
        "{}{}{}",
        rect("2019-01-01", "5"),
        rect("2019-01-02", "abc"),
        rect("2019-01-03", "-1"),
    ));
    assert_eq!(ContriView::sum_contributions_from_html(&html), Ok(5));
}

#[test]
fn test_count_overflow_reads_zero() {
    assert_eq!(parse_count(&Vec::from("4294967295".as_bytes())), u32::MAX);
    assert_eq!(parse_count(&Vec::from("4294967296".as_bytes())), 0);
    let html = doc(&format!(
        "{}{}",
        rect("2019-01-01", "4294967296"),
        rect("2019-01-02", "7"),
    ));
    assert_eq!(ContriView::sum_contributions_from_html(&html), Ok(7));
}

#[test]
fn test_sum_saturates() {
    let html = doc(&format!(
        "{}{}",
        rect("2019-01-01", "4294967295"),
        rect("2019-01-02", "5"),
    ));
    assert_eq!(
        ContriView::sum_contributions_from_html(&html),
        Ok(u32::MAX)
    );
}

#[test]
fn test_malformed_date_is_not_a_record() {
    let html = doc(&format!(
        "{}{}{}",
        rect("2019-1-5", "7"),
        rect("2019-13-09", "9"),
        rect("2019-01-05", "2"),
    ));
    let series = extract(&html).unwrap();
    assert_eq!(series.len(), 1);
    assert_eq!(ContriView::sum_contributions_from_html(&html), Ok(2));
}

#[test]
fn test_extract_order_and_values() {
    let html = doc(&format!(
        "{}{}",
        rect("2018-11-02", "25"),
        rect("2018-11-03", "6"),
    ));
    let series = extract(&html).unwrap();
    assert_eq!(
        series,
        vec![
            DailyRecord { date: Date::new(2018, 11, 2).unwrap(), count: 25 },
            DailyRecord { date: Date::new(2018, 11, 3).unwrap(), count: 6 },
        ]
    );
}

#[test]
fn test_aggregate_windows() {
    let d = Date::new(2019, 1, 26).unwrap();
    let series = vec![
        DailyRecord { date: Date::new(2018, 12, 31).unwrap(), count: 2 },
        DailyRecord { date: Date::new(2019, 1, 26).unwrap(), count: 3 },
        DailyRecord { date: Date::new(2019, 1, 26).unwrap(), count: 9 },
    ];
    let sums = aggregate(&series, d);
    assert_eq!(
        sums,
        WindowSums { today: 3, week: 14, month: 12, year: 12, all_time: 14 }
    );
}

#[test]
fn test_date_new_rejects_out_of_range() {
    assert_eq!(Date::new(2019, 13, 1), None);
    assert_eq!(Date::new(2019, 0, 1), None);
    assert_eq!(Date::new(2019, 1, 32), None);
    assert_eq!(Date::new(10000, 1, 1), None);
    assert!(Date::new(2019, 12, 31).is_some());
}

#[test]
fn test_render_exact_text() {
    let view = ContriView {
        sum_contributions: 3532,
        month_contributions: 260,
        year_contributions: 260,
        week_contributions: 51,
        today_contributions: 3,
        week_ave: 7,
        month_ave: 10,
        sum_ave: 9,
    };
    let expected = "today_contributions: 3\n\
                    week_contributions: 51\n\
                    month_contributions: 260\n\
                    year_contributions: 260\n\
                    sum_contributions: 3532\n\
                    week_ave: 7\n\
                    month_ave: 10\n\
                    sum_ave: 9";
    assert_eq!(view.render(), expected);
}
