//! Tests of the pipeline's components one by one: the extractor, the
//! fragment parsers behind `resolve`, and the per-instant conversion.

use tzconvert::civil::{month_number, parse_day, parse_time, Meridiem};
use tzconvert::extract::extract;
use tzconvert::zone::{convert, resolve, source_zone};
use tzconvert::ConvertError;

#[test]
fn extractor_captures_the_three_fragments() {
    let f = extract("Wed Jun 11, 5:00am-8:30am PDT").unwrap();
    assert_eq!(f.date_fragment, "Wed Jun 11");
    assert_eq!(f.start_fragment, "5:00am");
    assert_eq!(f.end_fragment, "8:30am");
}

#[test]
fn extractor_takes_the_leftmost_match() {
    let f = extract("maybe Thu Oct 2, 9:15am-9:45am CT or later").unwrap();
    assert_eq!(f.date_fragment, "Thu Oct 2");
    assert_eq!(f.start_fragment, "9:15am");
    assert_eq!(f.end_fragment, "9:45am");
}

#[test]
fn extractor_rejects_lines_without_a_time_range() {
    assert!(extract("Wed Jun 11").is_none());
    assert!(extract("").is_none());
    assert!(extract("Wed Jun 11, 5:00-8:30 PDT").is_none());
    assert!(extract("Wed Jun 11, 5:00am-8:30am").is_none());
}

#[test]
fn month_lookup_is_case_insensitive() {
    assert_eq!(month_number("jan"), Some(1));
    assert_eq!(month_number("JUN"), Some(6));
    assert_eq!(month_number("Dec"), Some(12));
    assert_eq!(month_number("Xyz"), None);
    assert_eq!(month_number("June"), None);
}

#[test]
fn day_parser_takes_digits_only() {
    assert_eq!(parse_day("11"), Some(11));
    assert_eq!(parse_day("007"), Some(7));
    assert_eq!(parse_day(""), None);
    assert_eq!(parse_day("1a"), None);
    assert_eq!(parse_day("99999999999999999999"), None);
}

#[test]
fn time_parser_reads_the_twelve_hour_clock() {
    assert_eq!(parse_time("5:00am"), Some((5, 0, Meridiem::Am)));
    assert_eq!(parse_time("12:30PM"), Some((12, 30, Meridiem::Pm)));
    assert_eq!(parse_time("13:00am"), None);
    assert_eq!(parse_time("0:30am"), None);
    assert_eq!(parse_time("9:61am"), None);
    assert_eq!(parse_time("9:00"), None);
}

#[test]
fn resolve_reports_the_failing_fragment() {
    assert_eq!(
        resolve(2025, "Xyz", "11", "9:00am").unwrap_err(),
        ConvertError::InvalidMonth
    );
    assert_eq!(
        resolve(2025, "Jun", "abc", "9:00am").unwrap_err(),
        ConvertError::InvalidDay
    );
    assert_eq!(
        resolve(2025, "Jun", "11", "25:00am").unwrap_err(),
        ConvertError::InvalidTime
    );
    assert_eq!(
        resolve(2025, "Mar", "9", "2:30am").unwrap_err(),
        ConvertError::AmbiguousOrInvalidLocalTime
    );
}

#[test]
fn resolved_instant_round_trips_through_the_source_zone() {
    let zi = resolve(2025, "Jun", "11", "5:00am").unwrap();
    let back = convert(&zi, source_zone()).unwrap();
    assert_eq!(back.time, "5:00am");
    assert_eq!(back.abbrev, "PDT");
}

#[test]
fn resolution_changes_the_wall_clock_across_zones() {
    let zi = resolve(2025, "Dec", "11", "10:00am").unwrap();
    let there = convert(&zi, "America/New_York").unwrap();
    assert_eq!(there.time, "1:00pm");
    assert_eq!(there.abbrev, "EST");
}
