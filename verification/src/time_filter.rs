//! Turning the optional `from`, `to` and `past_days` of a request into a
//! concrete range of instants.

use vstd::prelude::*;
use crate::error::AppError;
use crate::instant::{Instant, parsed_timestamp, in_range, MIN_NANOS, MAX_NANOS, MAX_SPAN_DAYS};

verus! {

/// A range of instants, half-open: it holds the instants from `from` on and
/// before `to`. Nothing asks that `from` lie before `to`: a reversed range is
/// passed on and matches no stored point.
#[derive(Clone, Copy, Debug)]
pub struct TimeRange {
    pub from: Instant,
    pub to: Instant,
}

/// The instant that one bound of a request stands for: the default where the
/// bound is absent, else what the text parses to; `None` where it does not
/// parse.
pub open spec fn bound_of(text: Option<String>, default: int) -> Option<int> {
    match text {
        None => Some(default),
        Some(text) => parsed_timestamp(text@),
    }
}

/// Reads one bound of a request.
pub fn parse_bound(text: &Option<String>, default: Instant) -> (r: Result<Instant, AppError>)
    ensures
        match r {
            Ok(t) => bound_of(*text, default@) == Some(t@),
            Err(e) => e is DateInputError && bound_of(*text, default@) is None,
        },
{
    match text {
        None => Ok(default),
        Some(text) => match Instant::parse(text.as_str()) {
            Ok(t) => Ok(t),
            Err(e) => Err(AppError::DateInputError(e)),
        },
    }
}

/// Whether `range` is what the filter of a request resolves to. For a
/// relative window the clock decides, and only the validity of the two
/// instants is known.
pub open spec fn is_resolved(
    range: TimeRange,
    from: Option<String>,
    to: Option<String>,
    past_days: Option<u32>,
) -> bool {
    match past_days {
        None => {
            &&& bound_of(from, MIN_NANOS as int) == Some(range.from@)
            &&& bound_of(to, MAX_NANOS as int) == Some(range.to@)
        },
        Some(days) => days <= MAX_SPAN_DAYS && in_range(range.from@) && in_range(range.to@),
    }
}

/// Whether `error` is a failure that the filter of a request can end in: a
/// bound that does not parse, which is the client's fault, or, for a relative
/// window, a failure of the clock or the calendar.
pub open spec fn is_rejected(
    error: AppError,
    from: Option<String>,
    to: Option<String>,
    past_days: Option<u32>,
) -> bool {
    match past_days {
        None => {
            &&& error is DateInputError
            &&& bound_of(from, MIN_NANOS as int) is None || bound_of(to, MAX_NANOS as int) is None
        },
        Some(_) => error is DateError,
    }
}

/// The range that `from` and `to` spell out: an absent bound defaults to the
/// earliest or the latest supported instant, and a bound that does not parse
/// fails the request as the client's fault.
pub fn explicit_range(from: &Option<String>, to: &Option<String>) -> (r: Result<
    TimeRange,
    AppError,
>)
    ensures
        match r {
            Ok(range) => is_resolved(range, *from, *to, None),
            Err(e) => is_rejected(e, *from, *to, None),
        },
{
    let from = match parse_bound(from, Instant::earliest()) {
        Ok(t) => t,
        Err(e) => {
            return Err(e);
        },
    };
    let to = match parse_bound(to, Instant::latest()) {
        Ok(t) => t,
        Err(e) => {
            return Err(e);
        },
    };
    Ok(TimeRange { from, to })
}

/// The range of a relative window, from what the clock and the calendar
/// gave: it ends at `now` and starts at `earlier`. A failure of either is the
/// server's fault; that of the clock is reported first.
pub fn relative_range(now: Result<Instant, jiff::Error>, earlier: Result<Instant, jiff::Error>) -> (r:
    Result<TimeRange, AppError>)
    ensures
        r == match (now, earlier) {
            (Ok(now), Ok(earlier)) => Ok(TimeRange { from: earlier, to: now }),
            (Err(e), _) => Err(AppError::DateError(e)),
            (Ok(_), Err(e)) => Err::<TimeRange, AppError>(AppError::DateError(e)),
        },
{
    match now {
        Err(e) => Err(AppError::DateError(e)),
        Ok(now) => match earlier {
            Err(e) => Err(AppError::DateError(e)),
            Ok(earlier) => Ok(TimeRange { from: earlier, to: now }),
        },
    }
}

/// Resolves the time filter of a request.
///
/// With `past_days`, the range runs from that many calendar days before now,
/// in the system's time zone, up to now, and `from` and `to` are not looked
/// at. Without it, the range is the one that `from` and `to` spell out.
pub fn resolve_range(from: &Option<String>, to: &Option<String>, past_days: Option<u32>) -> (r:
    Result<TimeRange, AppError>)
    ensures
        match r {
            Ok(range) => is_resolved(range, *from, *to, past_days),
            Err(e) => is_rejected(e, *from, *to, past_days),
        },
{
    match past_days {
        None => explicit_range(from, to),
        Some(days) => {
            let now = Instant::now();
            let earlier = Instant::days_before_now(days);
            relative_range(now, earlier)
        },
    }
}

} // verus!
