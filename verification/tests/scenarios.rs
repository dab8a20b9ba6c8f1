//! Concrete conversion scenarios with the calendar year pinned, so that
//! the expected outputs are exact strings.

use tzconvert::convert_time_in_year;
use tzconvert::ConvertError;

const NEW_YORK: &str = "America/New_York";

#[test]
fn summer_line_converts_to_edt() {
    let r = convert_time_in_year("Wed Jun 11, 5:00am-8:30am PDT", NEW_YORK, 2025);
    assert_eq!(
        r.unwrap(),
        "Wed Jun 11, 5:00am-8:30am PDT (8:00am-11:30am EDT)"
    );
}

#[test]
fn winter_line_converts_to_est() {
    let r = convert_time_in_year("Wed Dec 11, 10:00am-2:30pm PST", NEW_YORK, 2025);
    assert_eq!(
        r.unwrap(),
        "Wed Dec 11, 10:00am-2:30pm PST (1:00pm-5:30pm EST)"
    );
}

#[test]
fn two_letter_zone_token_still_parses() {
    let r = convert_time_in_year("Mon Jun 16, 1:00pm-2:30pm PT", NEW_YORK, 2025);
    assert_eq!(
        r.unwrap(),
        "Mon Jun 16, 1:00pm-2:30pm PT (4:00pm-5:30pm EDT)"
    );
}

#[test]
fn missing_comma_still_parses() {
    let r = convert_time_in_year("Tue Sep 17 10:00am-11:30am PST", NEW_YORK, 2025);
    assert_eq!(
        r.unwrap(),
        "Tue Sep 17 10:00am-11:30am PST (1:00pm-2:30pm EDT)"
    );
}

#[test]
fn noon_and_midnight_render_as_twelve() {
    let r = convert_time_in_year("Wed Jun 11, 12:00am-12:30pm PDT", NEW_YORK, 2025);
    assert_eq!(
        r.unwrap(),
        "Wed Jun 11, 12:00am-12:30pm PDT (3:00am-3:30pm EDT)"
    );
}

#[test]
fn upper_case_markers_render_lowercase() {
    let r = convert_time_in_year("wed JUN 11, 5:00AM-8:30AM PDT", NEW_YORK, 2025);
    assert_eq!(
        r.unwrap(),
        "wed JUN 11, 5:00AM-8:30AM PDT (8:00am-11:30am EDT)"
    );
}

#[test]
fn match_may_start_and_end_inside_the_line() {
    let r = convert_time_in_year("Lunch slot Wed Jun 11, 5:00am-8:30am PDT if that works", NEW_YORK, 2025);
    assert_eq!(
        r.unwrap(),
        "Lunch slot Wed Jun 11, 5:00am-8:30am PDT if that works (8:00am-11:30am EDT)"
    );
}

#[test]
fn converting_back_to_source_zone_restores_times() {
    let r = convert_time_in_year("Wed Jun 11, 5:00am-8:30am PDT", "America/Los_Angeles", 2025);
    assert_eq!(
        r.unwrap(),
        "Wed Jun 11, 5:00am-8:30am PDT (5:00am-8:30am PDT)"
    );
}

#[test]
fn rendering_twice_gives_identical_strings() {
    let a = convert_time_in_year("Wed Jun 11, 5:00am-8:30am PDT", NEW_YORK, 2025).unwrap();
    let b = convert_time_in_year("Wed Jun 11, 5:00am-8:30am PDT", NEW_YORK, 2025).unwrap();
    assert_eq!(a, b);
}

#[test]
fn non_time_line_is_a_format_error() {
    let r = convert_time_in_year("not a time string", NEW_YORK, 2025);
    assert_eq!(r.unwrap_err(), ConvertError::FormatError);
}

#[test]
fn unknown_month_is_an_invalid_month_error() {
    let r = convert_time_in_year("Wed Xyz 11, 9:00am-10:30am PST", NEW_YORK, 2025);
    assert_eq!(r.unwrap_err(), ConvertError::InvalidMonth);
}

#[test]
fn hour_beyond_twelve_is_an_invalid_time_error() {
    let r = convert_time_in_year("Wed Jun 11, 15:00am-8:30am PST", NEW_YORK, 2025);
    assert_eq!(r.unwrap_err(), ConvertError::InvalidTime);
}

#[test]
fn dst_gap_is_rejected_not_shifted() {
    // In 2025 the source zone springs forward on Mar 9: 2:30am never occurs.
    let r = convert_time_in_year("Sun Mar 9, 2:30am-3:30am PST", NEW_YORK, 2025);
    assert_eq!(r.unwrap_err(), ConvertError::AmbiguousOrInvalidLocalTime);
}

#[test]
fn dst_fold_is_rejected_not_disambiguated() {
    // In 2025 the source zone falls back on Nov 2: 1:30am occurs twice.
    let r = convert_time_in_year("Sun Nov 2, 1:30am-1:45am PST", NEW_YORK, 2025);
    assert_eq!(r.unwrap_err(), ConvertError::AmbiguousOrInvalidLocalTime);
}

#[test]
fn impossible_date_is_rejected_at_resolution() {
    let r = convert_time_in_year("Sat Feb 31, 9:00am-10:00am PST", NEW_YORK, 2025);
    assert_eq!(r.unwrap_err(), ConvertError::AmbiguousOrInvalidLocalTime);
}

#[test]
fn unknown_target_zone_is_reported() {
    let r = convert_time_in_year("Wed Jun 11, 5:00am-8:30am PDT", "Nowhere/Special", 2025);
    assert_eq!(r.unwrap_err(), ConvertError::TargetZoneError);
}

#[test]
fn error_messages_name_the_failure() {
    assert_eq!(ConvertError::FormatError.message(), "Invalid format");
    assert_eq!(ConvertError::InvalidMonth.message(), "Invalid month");
    assert_eq!(ConvertError::InvalidDay.message(), "Invalid day");
    assert_eq!(ConvertError::InvalidTime.message(), "Invalid time");
    assert_eq!(
        ConvertError::AmbiguousOrInvalidLocalTime.message(),
        "Ambiguous or invalid datetime"
    );
    assert_eq!(ConvertError::TargetZoneError.message(), "Unknown target timezone");
}
