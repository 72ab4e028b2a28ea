//! Extraction and aggregation of per-day activity counts from a calendar
//! heatmap document.
//!
//! The library locates the per-day records embedded in a markup document,
//! builds the ordered daily series, and aggregates the counts into five
//! windows relative to a caller-supplied reference date (today, trailing
//! seven records, calendar month, calendar year, all time), together with
//! three derived truncating averages. Every computation over the extracted
//! series is verified; the markup query itself is delegated to the
//! `scraper` crate behind a small trusted boundary.

pub mod aggregate;
pub mod contriview;
pub mod date;
pub mod digits;
pub mod extract;
pub mod laws;
pub mod render;
