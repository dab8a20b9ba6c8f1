//! Resolution of civil wall-clock values against the fixed source zone
//! (US Pacific, `America/Los_Angeles`) and re-expression of the resulting
//! instant in a target zone.
//!
//! The timezone rule database itself is chrono-tz's embedded IANA data;
//! what it assigns to a given wall clock or instant is named by the
//! uninterpreted functions below rather than restated, and the trusted
//! wrappers tie the chrono calls to those names.

use vstd::prelude::*;
use crate::civil::{CivilDateTime, Meridiem, day_of, hour24_of, month_of, parse_day, parse_time,
    time_of, to_hour24, month_number};
use crate::render::{RenderedTime, format_time, time_string_of};
use crate::ConvertError;

verus! {

/// The instant (whole seconds since the Unix epoch) that the source
/// zone's rules assign to a civil wall-clock tuple, or `None` when the
/// wall clock is ambiguous there (DST fold), skipped (DST gap), or not a
/// valid date-time at all.
pub uninterp spec fn pacific_instant_of(
    year: int,
    month: int,
    day: int,
    hour24: int,
    minute: int,
) -> Option<int>;

/// The wall clock (24-hour hour, minute) and zone abbreviation that the
/// named zone's rules assign to an instant, or `None` when the name is
/// not an identifier of the zone database or the instant is out of its
/// range.
pub uninterp spec fn wall_in_zone(ts: int, zone: Seq<char>) -> Option<(int, int, Seq<char>)>;

/// The IANA name of the fixed source civil timezone.
pub open spec fn source_zone_name() -> Seq<char> {
    "America/Los_Angeles"@
}

/// The fixed source civil timezone, as its IANA name.
pub fn source_zone() -> (r: &'static str)
    ensures
        r@ == source_zone_name(),
{
    "America/Los_Angeles"
}

/// Relies on chrono's `NaiveDate::from_ymd_opt`/`and_hms_opt` and
/// `TimeZone::from_local_datetime` on chrono-tz's `America::Los_Angeles`:
/// the result is determined by the arguments and the embedded zone
/// database alone; `single()` yields an instant exactly when the civil
/// time resolves uniquely; and, by construction of the resolved
/// `DateTime`, re-expressing that instant in the same zone shows the same
/// wall clock again.
#[verifier::external_body]
fn resolve_in_source(year: i32, month: u32, day: u32, hour24: u32, minute: u32) -> (r: Option<
    i64,
>)
    ensures
        r is Some <==> pacific_instant_of(
            year as int,
            month as int,
            day as int,
            hour24 as int,
            minute as int,
        ) is Some,
        r matches Some(ts) ==> pacific_instant_of(
            year as int,
            month as int,
            day as int,
            hour24 as int,
            minute as int,
        ) == Some(ts as int) && (wall_in_zone(ts as int, source_zone_name()) matches Some(w)
            && w.0 == hour24 as int && w.1 == minute as int),
{
    let date = chrono::NaiveDate::from_ymd_opt(year, month, day)?;
    let naive = date.and_hms_opt(hour24, minute, 0)?;
    let dt = chrono::TimeZone::from_local_datetime(&chrono_tz::America::Los_Angeles, &naive)
        .single()?;
    Some(dt.timestamp())
}

/// Relies on chrono-tz's `Tz::from_str` and chrono's
/// `TimeZone::timestamp_opt`, `Timelike::hour`/`minute` and `%Z`
/// formatting: the wall clock and abbreviation of an instant in a named
/// zone are determined by the instant, the name and the embedded zone
/// database alone; `hour` is 0..=23 and `minute` 0..=59.
#[verifier::external_body]
fn wall_clock_in_zone(ts: i64, zone: &str) -> (r: Option<(u32, u32, String)>)
    ensures
        r is Some <==> wall_in_zone(ts as int, zone@) is Some,
        r matches Some(t) ==> (wall_in_zone(ts as int, zone@) matches Some(w) && t.0 as int == w.0
            && t.1 as int == w.1 && t.2@ == w.2 && t.0 < 24 && t.1 < 60),
{
    let tz: chrono_tz::Tz = zone.parse().ok()?;
    let dt = chrono::TimeZone::timestamp_opt(&tz, ts, 0).single()?;
    Some((chrono::Timelike::hour(&dt), chrono::Timelike::minute(&dt), dt.format("%Z").to_string()))
}

/// Relies on `chrono::Utc::now` and `Datelike::year`: the current
/// calendar year at the moment of the call. Nothing is promised of the
/// result; the system clock decides it.
#[verifier::external_body]
pub(crate) fn current_year() -> i32 {
    chrono::Datelike::year(&chrono::Utc::now())
}

/// A civil wall-clock value resolved against the source zone into a
/// unique point in time (whole seconds since the Unix epoch).
#[derive(Clone, Copy, Debug)]
pub struct ZonedInstant {
    pub civil: CivilDateTime,
    pub timestamp: i64,
}

impl ZonedInstant {
    /// The civil fields are in range, the source zone resolves them
    /// uniquely to `timestamp`, and the instant's wall clock in the
    /// source zone is the civil time itself.
    pub open spec fn wf(self) -> bool {
        &&& self.civil.wf()
        &&& pacific_instant_of(
            self.civil.year as int,
            self.civil.month as int,
            self.civil.day as int,
            self.civil.hour24(),
            self.civil.minute as int,
        ) == Some(self.timestamp as int)
        &&& (wall_in_zone(self.timestamp as int, source_zone_name()) matches Some(w) && w.0
            == self.civil.hour24() && w.1 == self.civil.minute as int)
    }
}

/// What resolving a (month, day, time) fragment triple for a year against
/// the source zone yields: the instant, or the first failing stage's
/// error.
pub open spec fn resolve_spec(
    year: int,
    month: Seq<char>,
    day: Seq<char>,
    time: Seq<char>,
) -> Result<int, ConvertError> {
    match month_of(month) {
        None => Err(ConvertError::InvalidMonth),
        Some(mo) => match day_of(day) {
            None => Err(ConvertError::InvalidDay),
            Some(dd) => match time_of(time) {
                None => Err(ConvertError::InvalidTime),
                Some(t) => match pacific_instant_of(year, mo, dd, hour24_of(t.0, t.2), t.1) {
                    None => Err(ConvertError::AmbiguousOrInvalidLocalTime),
                    Some(ts) => Ok(ts),
                },
            },
        },
    }
}

/// Resolves a month-abbreviation, day and time fragment for `year`
/// against the fixed source zone into a unique instant.
///
/// Fails with `InvalidMonth`, `InvalidDay` or `InvalidTime` when the
/// respective fragment is malformed, and with
/// `AmbiguousOrInvalidLocalTime` when the civil time is ambiguous (DST
/// fold), skipped (DST gap) or not a valid date: such a wall clock is
/// rejected, never silently disambiguated.
pub fn resolve(year: i32, month: &str, day: &str, time: &str) -> (r: Result<
    ZonedInstant,
    ConvertError,
>)
    ensures
        r matches Err(e) ==> resolve_spec(year as int, month@, day@, time@) == Err::<
            int,
            ConvertError,
        >(e),
        r matches Ok(zi) ==> resolve_spec(year as int, month@, day@, time@) == Ok::<
            int,
            ConvertError,
        >(zi.timestamp as int) && zi.wf() && zi.civil.year == year && Some(zi.civil.month as int)
            == month_of(month@) && Some(zi.civil.day as int) == day_of(day@) && time_of(time@)
            == Some((zi.civil.hour12 as int, zi.civil.minute as int, zi.civil.meridiem is Pm)),
{
    let mo = match month_number(month) {
        Some(m) => m,
        None => {
            return Err(ConvertError::InvalidMonth);
        },
    };
    let dd = match parse_day(day) {
        Some(d) => d,
        None => {
            return Err(ConvertError::InvalidDay);
        },
    };
    let (h12, mi, mer) = match parse_time(time) {
        Some(t) => t,
        None => {
            return Err(ConvertError::InvalidTime);
        },
    };
    let civil = CivilDateTime { year, month: mo, day: dd, hour12: h12, minute: mi, meridiem: mer };
    let h24 = to_hour24(h12, mer);
    match resolve_in_source(year, mo, dd, h24, mi) {
        Some(ts) => Ok(ZonedInstant { civil, timestamp: ts }),
        None => Err(ConvertError::AmbiguousOrInvalidLocalTime),
    }
}

/// What re-expressing an instant in a named zone renders: the `h:mma`
/// string and the zone's abbreviation at that instant.
pub open spec fn rendered_of(ts: int, zone: Seq<char>) -> Option<(Seq<char>, Seq<char>)> {
    match wall_in_zone(ts, zone) {
        None => None,
        Some(w) => Some((time_string_of(w.0, w.1), w.2)),
    }
}

/// Re-expresses the resolved instant in the target zone and renders it in
/// the input's convention, together with the target zone's abbreviation
/// at that instant. Fails with `TargetZoneError` when the target zone
/// name is unknown to the zone database or the instant is out of its
/// range.
pub fn convert(zi: &ZonedInstant, target_zone: &str) -> (r: Result<RenderedTime, ConvertError>)
    ensures
        r is Ok <==> rendered_of(zi.timestamp as int, target_zone@) is Some,
        r matches Ok(rt) ==> rendered_of(zi.timestamp as int, target_zone@) == Some(
            (rt.time@, rt.abbrev@),
        ),
        r matches Err(e) ==> e == ConvertError::TargetZoneError,
{
    match wall_clock_in_zone(zi.timestamp, target_zone) {
        Some((h, m, a)) => Ok(RenderedTime { time: format_time(h, m), abbrev: a }),
        None => Err(ConvertError::TargetZoneError),
    }
}

/// Round trip: a resolved instant, re-expressed in the very source zone
/// it was resolved against, shows the original civil hour and minute
/// again. (Across a DST gap or fold resolution itself fails with
/// `AmbiguousOrInvalidLocalTime` — see `resolve` — so no silently shifted
/// instant ever exists to round-trip.)
pub proof fn lemma_round_trip(zi: ZonedInstant)
    requires
        zi.wf(),
    ensures
        wall_in_zone(zi.timestamp as int, source_zone_name()) matches Some(w) && w.0
            == hour24_of(zi.civil.hour12 as int, zi.civil.meridiem is Pm) && w.1
            == zi.civil.minute as int,
{
}

/// Rendering is a function of the instant and the zone alone: two
/// renderings of the same zoned instant in the same zone are identical.
pub proof fn lemma_render_deterministic(
    ts: int,
    zone: Seq<char>,
    a: RenderedTime,
    b: RenderedTime,
)
    requires
        rendered_of(ts, zone) == Some((a.time@, a.abbrev@)),
        rendered_of(ts, zone) == Some((b.time@, b.abbrev@)),
    ensures
        a.time@ == b.time@,
        a.abbrev@ == b.abbrev@,
{
}

} // verus!
