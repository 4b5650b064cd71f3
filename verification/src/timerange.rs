//! From a dashboard's time range to the two instants that bound its data.
//!
//! A relative range is a period that ends now: a whole number and a unit
//! letter, `m` for minutes, `h` for hours, `d` for days, `w` for weeks. Any
//! other letter counts blocks of thirty days, whatever the calendar says. An
//! absolute range is its two bounds.

use crate::decimal::{decimal, lemma_parse_decimal_of_decimal, parse_i64, parse_i64_spec};
use crate::report::{ReportTimerange, ReportTimerangeType, TimeRange};
use vstd::prelude::*;

verus! {

/// Why a time range has no bounds.
#[derive(Clone, Copy, Debug, PartialEq, Eq, Structural)]
pub enum TimeRangeError {
    /// The period is empty, or what stands before its unit letter is no whole
    /// number of 64 bits.
    InvalidPeriod,
    /// The period is longer than 64 bits of microseconds hold, or it starts
    /// before the earliest instant that they can name.
    OutOfRange,
}

/// The bounds of a dashboard's data, in microseconds since the epoch.
#[derive(Clone, Copy, Debug, PartialEq, Eq, Structural)]
pub struct Window {
    pub start: i64,
    pub end: i64,
}

/// The length of one unit in microseconds, by its letter.
pub open spec fn unit_micros(unit: char) -> int {
    if unit == 'm' {
        60_000_000
    } else if unit == 'h' {
        3_600_000_000
    } else if unit == 'd' {
        86_400_000_000
    } else if unit == 'w' {
        604_800_000_000
    } else {
        2_592_000_000_000
    }
}

/// `v` as a 64-bit number, where it is one.
pub open spec fn fit_i64(v: int) -> Option<i64> {
    if i64::MIN <= v <= i64::MAX {
        Some(v as i64)
    } else {
        None
    }
}

/// The whole number in front of a period's unit letter.
pub open spec fn period_magnitude(period: Seq<char>) -> Option<i64> {
    if period.len() == 0 {
        None
    } else {
        parse_i64_spec(period.drop_last())
    }
}

/// The length of a period in microseconds.
pub open spec fn period_micros(period: Seq<char>) -> Option<int> {
    match period_magnitude(period) {
        Some(n) => Some(n * unit_micros(period.last())),
        None => None,
    }
}

/// The bounds of `range` at the instant `now`.
pub open spec fn resolved(range: TimeRange, now: int) -> Result<(int, int), TimeRangeError> {
    match range {
        TimeRange::Absolute { from, to } => Ok((from, to)),
        TimeRange::Relative { period } => match period_micros(period) {
            None => Err(TimeRangeError::InvalidPeriod),
            Some(span) => if fit_i64(span) is Some && fit_i64(now - span) is Some {
                Ok((now - span, now))
            } else {
                Err(TimeRangeError::OutOfRange)
            },
        },
    }
}

/// `chrono::Duration::try_minutes`, then `num_microseconds` of the duration:
/// sixty million times `n`, and `None` where that is no 64-bit number.
#[verifier::external_body]
fn minutes_in_micros(n: i64) -> (r: Option<i64>)
    ensures
        r == fit_i64(n * 60_000_000),
{
    match chrono::Duration::try_minutes(n) {
        Some(d) => d.num_microseconds(),
        None => None,
    }
}

/// `chrono::Duration::try_hours`, then `num_microseconds` of the duration:
/// the microseconds of `n` hours, and `None` where they are no 64-bit number.
#[verifier::external_body]
fn hours_in_micros(n: i64) -> (r: Option<i64>)
    ensures
        r == fit_i64(n * 3_600_000_000),
{
    match chrono::Duration::try_hours(n) {
        Some(d) => d.num_microseconds(),
        None => None,
    }
}

/// `chrono::Duration::try_days`, then `num_microseconds` of the duration:
/// the microseconds of `n` days, and `None` where they are no 64-bit number.
#[verifier::external_body]
fn days_in_micros(n: i64) -> (r: Option<i64>)
    ensures
        r == fit_i64(n * 86_400_000_000),
{
    match chrono::Duration::try_days(n) {
        Some(d) => d.num_microseconds(),
        None => None,
    }
}

/// `chrono::Duration::try_weeks`, then `num_microseconds` of the duration:
/// the microseconds of `n` weeks, and `None` where they are no 64-bit number.
#[verifier::external_body]
fn weeks_in_micros(n: i64) -> (r: Option<i64>)
    ensures
        r == fit_i64(n * 604_800_000_000),
{
    match chrono::Duration::try_weeks(n) {
        Some(d) => d.num_microseconds(),
        None => None,
    }
}

/// The microseconds of `n` units of the letter `unit`, where 64 bits hold them.
pub fn span_micros(n: i64, unit: char) -> (r: Option<i64>)
    ensures
        r == fit_i64(n * unit_micros(unit)),
{
    if unit == 'm' {
        minutes_in_micros(n)
    } else if unit == 'h' {
        hours_in_micros(n)
    } else if unit == 'd' {
        days_in_micros(n)
    } else if unit == 'w' {
        weeks_in_micros(n)
    } else {
        match n.checked_mul(30) {
            Some(days) => days_in_micros(days),
            None => None,
        }
    }
}

/// The bounds of `range` at the instant `now`, in microseconds since the
/// epoch. A period ends at `now` and starts its length before; fixed bounds
/// are returned as they are.
pub fn resolve(range: &ReportTimerange, now: i64) -> (r: Result<Window, TimeRangeError>)
    ensures
        match resolved(range@, now as int) {
            Ok((start, end)) => r is Ok && r->Ok_0.start == start && r->Ok_0.end == end,
            Err(e) => r == Err::<Window, TimeRangeError>(e),
        },
{
    match range.range_type {
        ReportTimerangeType::Absolute => Ok(Window { start: range.from, end: range.to }),
        ReportTimerangeType::Relative => {
            let period = range.period.as_str();
            let len = period.unicode_len();
            if len == 0 {
                return Err(TimeRangeError::InvalidPeriod);
            }
            let unit = period.get_char(len - 1);
            let magnitude = period.substring_char(0, len - 1);
            let n = match parse_i64(magnitude) {
                Some(n) => n,
                None => {
                    return Err(TimeRangeError::InvalidPeriod);
                },
            };
            let span = match span_micros(n, unit) {
                Some(span) => span,
                None => {
                    return Err(TimeRangeError::OutOfRange);
                },
            };
            match now.checked_sub(span) {
                Some(start) => Ok(Window { start, end: now }),
                None => Err(TimeRangeError::OutOfRange),
            }
        },
    }
}

/// A period of `n` minutes, hours, days or weeks spans exactly `n` of that
/// unit in microseconds and ends now; it has no bounds only where 64 bits of
/// microseconds cannot hold its length or its start.
pub proof fn lemma_named_unit_span(magnitude: Seq<char>, n: i64, unit: char, now: i64)
    requires
        parse_i64_spec(magnitude) == Some(n),
        unit == 'm' || unit == 'h' || unit == 'd' || unit == 'w',
    ensures
        match resolved(TimeRange::Relative { period: magnitude.push(unit) }, now as int) {
            Ok((start, end)) => {
                &&& end == now
                &&& unit == 'm' ==> end - start == n * 60 * 1_000_000
                &&& unit == 'h' ==> end - start == n * 60 * 60 * 1_000_000
                &&& unit == 'd' ==> end - start == n * 24 * 60 * 60 * 1_000_000
                &&& unit == 'w' ==> end - start == n * 7 * 24 * 60 * 60 * 1_000_000
            },
            Err(e) => {
                &&& e == TimeRangeError::OutOfRange
                &&& fit_i64(n * unit_micros(unit)) is None || fit_i64(now - n * unit_micros(unit))
                    is None
            },
        },
{
    let period = magnitude.push(unit);
    assert(period.drop_last() =~= magnitude);
}

/// A period whose unit letter is none of `m`, `h`, `d`, `w` spans `n` times
/// thirty days in microseconds and ends now; it has no bounds only where 64
/// bits of microseconds cannot hold its length or its start.
pub proof fn lemma_other_unit_span(magnitude: Seq<char>, n: i64, unit: char, now: i64)
    requires
        parse_i64_spec(magnitude) == Some(n),
        unit != 'm' && unit != 'h' && unit != 'd' && unit != 'w',
    ensures
        match resolved(TimeRange::Relative { period: magnitude.push(unit) }, now as int) {
            Ok((start, end)) => end == now && end - start == n * 30 * 86_400_000_000,
            Err(e) => {
                &&& e == TimeRangeError::OutOfRange
                &&& fit_i64(n * unit_micros(unit)) is None || fit_i64(now - n * unit_micros(unit))
                    is None
            },
        },
{
    let period = magnitude.push(unit);
    assert(period.drop_last() =~= magnitude);
}

/// The decimal text of any 64-bit number, followed by a unit letter, is a
/// period of that many units.
pub proof fn lemma_written_period(n: i64, unit: char)
    ensures
        period_micros(decimal(n as int).push(unit)) == Some(n * unit_micros(unit)),
{
    lemma_parse_decimal_of_decimal(n as int);
    let period = decimal(n as int).push(unit);
    assert(period.drop_last() =~= decimal(n as int));
}

/// Fixed bounds are their own resolution, whatever the instant.
pub proof fn lemma_absolute_bounds_verbatim(from: i64, to: i64, now: i64)
    ensures
        resolved(TimeRange::Absolute { from: from as int, to: to as int }, now as int) == Ok::<
            (int, int),
            TimeRangeError,
        >((from as int, to as int)),
{
}

} // verus!
