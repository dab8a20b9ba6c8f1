//! Converts human-written meeting-time strings such as
//! `"Wed Jun 11, 9:00am-10:30am PST"` from a fixed source civil timezone
//! (US Pacific) into an equivalent string in a target timezone, preserving
//! the original text and appending the converted range in parentheses.
//!
//! One line is handled by `convert_time` (or `convert_time_in_year`, which
//! pins the calendar year instead of reading the clock): the extractor
//! pulls the date and the two time fragments out of the line, the zoned
//! converter resolves each fragment against the source zone and
//! re-expresses it in the target zone, and the result is appended to the
//! original line.

pub mod civil;
pub mod extract;
pub mod render;
pub mod scan;
pub mod zone;

use vstd::prelude::*;
use crate::extract::extract_spec;
use crate::extract::extract_line;
use crate::render::{ConvertedRange, output_of};
use crate::zone::{rendered_of, resolve, resolve_spec, convert, current_year};

verus! {

/// Why the conversion of one line failed. Every failure is recoverable at
/// the per-line granularity: the caller reports it and goes on to the
/// next line.
#[derive(Clone, Copy, PartialEq, Eq, Structural, Debug)]
pub enum ConvertError {
    /// The line does not match the expected grammar.
    FormatError,
    /// The month token is not one of the twelve known abbreviations.
    InvalidMonth,
    /// The day token does not parse as an unsigned number.
    InvalidDay,
    /// A time fragment is malformed or out of range for a 12-hour clock.
    InvalidTime,
    /// The civil time does not map to exactly one instant in the source
    /// zone: it falls in a DST fold or gap, or is no valid date at all.
    AmbiguousOrInvalidLocalTime,
    /// The target zone name is unknown to the zone database, or the
    /// instant is outside the range it can express.
    TargetZoneError,
}

impl ConvertError {
    pub open spec fn message_spec(self) -> Seq<char> {
        match self {
            ConvertError::FormatError => "Invalid format"@,
            ConvertError::InvalidMonth => "Invalid month"@,
            ConvertError::InvalidDay => "Invalid day"@,
            ConvertError::InvalidTime => "Invalid time"@,
            ConvertError::AmbiguousOrInvalidLocalTime => "Ambiguous or invalid datetime"@,
            ConvertError::TargetZoneError => "Unknown target timezone"@,
        }
    }

    /// A human-readable reason, for per-line diagnostics.
    pub fn message(&self) -> (r: &'static str)
        ensures
            r@ == self.message_spec(),
    {
        match self {
            ConvertError::FormatError => "Invalid format",
            ConvertError::InvalidMonth => "Invalid month",
            ConvertError::InvalidDay => "Invalid day",
            ConvertError::InvalidTime => "Invalid time",
            ConvertError::AmbiguousOrInvalidLocalTime => "Ambiguous or invalid datetime",
            ConvertError::TargetZoneError => "Unknown target timezone",
        }
    }
}

/// What converting one line for a given year yields: the output line, or
/// the first failing stage's error. The start fragment is resolved before
/// the end fragment; the abbreviation shown is the target zone's at the
/// start instant.
pub open spec fn convert_result(line: Seq<char>, zone: Seq<char>, year: int) -> Result<
    Seq<char>,
    ConvertError,
> {
    match extract_spec(line) {
        None => Err(ConvertError::FormatError),
        Some(c) => match resolve_spec(year, c.month, c.day, c.start) {
            Err(e) => Err(e),
            Ok(ts1) => match resolve_spec(year, c.month, c.day, c.end) {
                Err(e) => Err(e),
                Ok(ts2) => match rendered_of(ts1, zone) {
                    None => Err(ConvertError::TargetZoneError),
                    Some(r1) => match rendered_of(ts2, zone) {
                        None => Err(ConvertError::TargetZoneError),
                        Some(r2) => Ok(output_of(line, r1.0, r2.0, r1.1)),
                    },
                },
            },
        },
    }
}

/// The returned value is the specified one: equal errors, or an output
/// string whose characters are the specified sequence.
pub open spec fn result_matches(r: Result<String, ConvertError>, s: Result<
    Seq<char>,
    ConvertError,
>) -> bool {
    match r {
        Ok(out) => s matches Ok(o) && out@ == o,
        Err(e) => s == Err::<Seq<char>, ConvertError>(e),
    }
}

/// Converts one line for a given calendar year: extracts the date and the
/// two time fragments, resolves both endpoints against the fixed source
/// zone, re-expresses them in the target zone, and returns the original
/// line with the converted range appended in parentheses.
pub fn convert_time_in_year(line: &str, target_zone: &str, year: i32) -> (r: Result<
    String,
    ConvertError,
>)
    ensures
        result_matches(r, convert_result(line@, target_zone@, year as int)),
{
    let ml = match extract_line(line) {
        Some(m) => m,
        None => {
            return Err(ConvertError::FormatError);
        },
    };
    let start_zi = match resolve(
        year,
        ml.month.as_str(),
        ml.day.as_str(),
        ml.fields.start_fragment.as_str(),
    ) {
        Ok(z) => z,
        Err(e) => {
            return Err(e);
        },
    };
    let end_zi = match resolve(
        year,
        ml.month.as_str(),
        ml.day.as_str(),
        ml.fields.end_fragment.as_str(),
    ) {
        Ok(z) => z,
        Err(e) => {
            return Err(e);
        },
    };
    let r1 = match convert(&start_zi, target_zone) {
        Ok(r) => r,
        Err(e) => {
            return Err(e);
        },
    };
    let r2 = match convert(&end_zi, target_zone) {
        Ok(r) => r,
        Err(e) => {
            return Err(e);
        },
    };
    let range = ConvertedRange {
        original_line: line.to_owned(),
        start_in_target: r1.time,
        end_in_target: r2.time,
        target_tz_abbreviation: r1.abbrev,
    };
    Ok(range.render())
}

/// Converts one line using the current calendar year, read once from the
/// system clock (the input format carries no year). The outcome is the
/// specified conversion for whatever year the clock showed.
pub fn convert_time(line: &str, target_zone: &str) -> (r: Result<String, ConvertError>)
    ensures
        exists|y: int| result_matches(r, convert_result(line@, target_zone@, y)),
{
    let year = current_year();
    let r = convert_time_in_year(line, target_zone, year);
    proof {
        assert(result_matches(r, convert_result(line@, target_zone@, year as int)));
    }
    r
}

/// Every successful conversion returns the verbatim original line,
/// followed by a space and a parenthesized suffix: nothing of the input
/// is rewritten or dropped.
pub proof fn lemma_output_preserves_line(line: Seq<char>, zone: Seq<char>, year: int)
    requires
        convert_result(line, zone, year) is Ok,
    ensures
        convert_result(line, zone, year) matches Ok(out) && out.len() > line.len() + 2
            && out.subrange(0, line.len() as int) == line && out[line.len() as int] == ' '
            && out[line.len() as int + 1] == '(' && out[out.len() - 1] == ')',
{
    let out = convert_result(line, zone, year)->Ok_0;
    let c = extract_spec(line)->Some_0;
    let ts1 = resolve_spec(year, c.month, c.day, c.start)->Ok_0;
    let ts2 = resolve_spec(year, c.month, c.day, c.end)->Ok_0;
    let r1 = rendered_of(ts1, zone)->Some_0;
    let r2 = rendered_of(ts2, zone)->Some_0;
    assert(out == output_of(line, r1.0, r2.0, r1.1));
    assert(out.subrange(0, line.len() as int) =~= line);
}

/// A line on which the grammar matches nowhere converts to a format
/// failure — for every target zone and every year: no best-effort output
/// is ever produced for it.
pub proof fn lemma_malformed_line_fails(line: Seq<char>)
    requires
        extract_spec(line) is None,
    ensures
        forall|zone: Seq<char>, year: int|
            convert_result(line, zone, year) == Err::<Seq<char>, ConvertError>(
                ConvertError::FormatError,
            ),
{
}

} // verus!
