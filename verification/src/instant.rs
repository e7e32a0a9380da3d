//! Absolute instants, at nanosecond precision, over the range that `jiff`
//! supports, together with the few calls into `jiff` that the library makes.

use vstd::prelude::*;

verus! {

/// Nanoseconds since the Unix epoch of the earliest supported instant.
pub const MIN_NANOS: i128 = -377_705_023_201_000_000_000;

/// Nanoseconds since the Unix epoch of the latest supported instant.
pub const MAX_NANOS: i128 = 253_402_207_200_999_999_999;

/// Length of a 24-hour day in nanoseconds.
pub const NANOS_PER_DAY: i128 = 86_400_000_000_000;

/// Largest number of days that a `jiff::Span` holds.
pub const MAX_SPAN_DAYS: u32 = 7_304_484;

/// `jiff::Error`, carried through as it comes; nothing is known of what it
/// holds.
#[verifier::external_type_specification]
#[verifier::external_body]
pub struct ExJiffError(jiff::Error);

/// The instant that `jiff` reads from a text, as nanoseconds since the Unix
/// epoch, or `None` where `jiff` rejects the text.
pub uninterp spec fn parsed_timestamp(text: Seq<char>) -> Option<int>;

/// The text that `jiff` prints for the instant `nanos` nanoseconds after the
/// Unix epoch.
pub uninterp spec fn timestamp_text(nanos: int) -> Seq<char>;

/// Whether `nanos` lies in the supported range.
pub open spec fn in_range(nanos: int) -> bool {
    MIN_NANOS <= nanos <= MAX_NANOS
}

/// Whether `text` is the canonical text of the instant `nanos`: the one text
/// that is printed for it, which reads back to it.
pub open spec fn canonical(nanos: Option<int>, text: Seq<char>) -> bool {
    &&& nanos matches Some(n)
    &&& text == timestamp_text(n)
    &&& parsed_timestamp(text) == Some(n)
}

/// Whether `text` is the canonical text of some instant: it reads as an
/// instant and is that instant's canonical text.
pub open spec fn is_canonical(text: Seq<char>) -> bool {
    canonical(parsed_timestamp(text), text)
}

/// Calls `<jiff::Timestamp as FromStr>::from_str` and, on success,
/// `jiff::Timestamp::as_nanosecond`.
///
/// Trusted: the outcome is a function of the text alone (the parser reads the
/// date, the time and the offset from the text and consults nothing else),
/// and every timestamp lies between `Timestamp::MIN` and `Timestamp::MAX`.
#[verifier::external_body]
fn jiff_parse(text: &str) -> (r: Result<i128, jiff::Error>)
    ensures
        match r {
            Ok(nanos) => in_range(nanos as int) && parsed_timestamp(text@) == Some(nanos as int),
            Err(_) => parsed_timestamp(text@) is None,
        },
{
    match text.parse::<jiff::Timestamp>() {
        Ok(timestamp) => Ok(timestamp.as_nanosecond()),
        Err(error) => Err(error),
    }
}

/// Calls `jiff::Timestamp::from_nanosecond` and the `Display` impl of
/// `jiff::Timestamp`.
///
/// Trusted: `from_nanosecond` accepts every instant of the supported range;
/// the text is a function of the instant alone; and it is the RFC 3339 form
/// in UTC, with the fraction of the second down to its last digit that is not
/// zero and a closing `Z`, which `from_str` reads back to the same instant
/// (`jiff` itself serializes a `Timestamp` by printing it so and reading it
/// with that parser).
#[verifier::external_body]
fn jiff_print(nanos: i128) -> (text: String)
    requires
        in_range(nanos as int),
    ensures
        text@ == timestamp_text(nanos as int),
        parsed_timestamp(text@) == Some(nanos as int),
{
    jiff::Timestamp::from_nanosecond(nanos).unwrap().to_string()
}

/// Calls `std::time::SystemTime::now` and
/// `<jiff::Timestamp as TryFrom<SystemTime>>::try_from`.
///
/// Trusted: a timestamp that comes back lies in the supported range. Nothing
/// is promised about which instant it is, nor that the clock can be read.
#[verifier::external_body]
fn jiff_now() -> (r: Result<i128, jiff::Error>)
    ensures
        r matches Ok(nanos) ==> in_range(nanos as int),
{
    match jiff::Timestamp::try_from(std::time::SystemTime::now()) {
        Ok(timestamp) => Ok(timestamp.as_nanosecond()),
        Err(error) => Err(error),
    }
}

/// Calls `jiff::Span::try_days`, `<jiff::Zoned as TryFrom<SystemTime>>::try_from`
/// on the current system time and `jiff::Zoned::checked_sub`: the instant that
/// lies `days` calendar days before now in the system's time zone.
///
/// Trusted: a timestamp that comes back lies in the supported range, and a
/// span of more than 7,304,484 days is refused. The result depends on the
/// clock and on the time zone of the machine, so nothing more is promised.
#[verifier::external_body]
fn jiff_days_before_now(days: u32) -> (r: Result<i128, jiff::Error>)
    ensures
        r matches Ok(nanos) ==> in_range(nanos as int),
        days > MAX_SPAN_DAYS ==> r is Err,
{
    let span = jiff::Span::new().try_days(days)?;
    let now = jiff::Zoned::try_from(std::time::SystemTime::now())?;
    Ok(now.checked_sub(span)?.timestamp().as_nanosecond())
}

/// An absolute point in time: nanoseconds since the Unix epoch, within
/// `MIN_NANOS ..= MAX_NANOS`.
#[derive(Clone, Copy, Debug)]
pub struct Instant {
    nanos: i128,
}

impl View for Instant {
    type V = int;

    closed spec fn view(&self) -> int {
        self.nanos as int
    }
}

impl Instant {
    #[verifier::type_invariant]
    spec fn well_formed(self) -> bool {
        in_range(self.nanos as int)
    }

    /// The earliest supported instant.
    pub fn earliest() -> (r: Instant)
        ensures
            r@ == MIN_NANOS,
    {
        Instant { nanos: MIN_NANOS }
    }

    /// The latest supported instant.
    pub fn latest() -> (r: Instant)
        ensures
            r@ == MAX_NANOS,
    {
        Instant { nanos: MAX_NANOS }
    }

    /// The instant `nanos` nanoseconds after the Unix epoch, if supported.
    pub fn from_nanos(nanos: i128) -> (r: Option<Instant>)
        ensures
            r is Some <==> in_range(nanos as int),
            r matches Some(t) ==> t@ == nanos,
    {
        if MIN_NANOS <= nanos && nanos <= MAX_NANOS {
            Some(Instant { nanos })
        } else {
            None
        }
    }

    /// Nanoseconds since the Unix epoch.
    pub fn nanos(&self) -> (r: i128)
        ensures
            r == self@,
            in_range(r as int),
    {
        proof {
            use_type_invariant(self);
        }
        self.nanos
    }

    /// Nanoseconds from `earlier` to `self`; negative where `earlier` is later.
    pub fn nanos_since(&self, earlier: &Instant) -> (r: i128)
        ensures
            r == self@ - earlier@,
    {
        proof {
            use_type_invariant(self);
            use_type_invariant(earlier);
        }
        self.nanos - earlier.nanos
    }

    /// Reads an instant from an ISO 8601 / RFC 3339 text with an offset.
    pub fn parse(text: &str) -> (r: Result<Instant, jiff::Error>)
        ensures
            match r {
                Ok(t) => parsed_timestamp(text@) == Some(t@) && in_range(t@),
                Err(_) => parsed_timestamp(text@) is None,
            },
    {
        match jiff_parse(text) {
            Ok(nanos) => Ok(Instant { nanos }),
            Err(error) => Err(error),
        }
    }

    /// The canonical text of the instant, which `parse` reads back.
    pub fn to_text(&self) -> (text: String)
        ensures
            canonical(Some(self@), text@),
    {
        proof {
            use_type_invariant(self);
        }
        jiff_print(self.nanos)
    }

    /// The current instant by the system clock.
    pub fn now() -> (r: Result<Instant, jiff::Error>)
        ensures
            r matches Ok(t) ==> in_range(t@),
    {
        match jiff_now() {
            Ok(nanos) => Ok(Instant { nanos }),
            Err(error) => Err(error),
        }
    }

    /// The instant `days` calendar days before now in the system's time zone.
    pub fn days_before_now(days: u32) -> (r: Result<Instant, jiff::Error>)
        ensures
            r matches Ok(t) ==> in_range(t@),
            days > MAX_SPAN_DAYS ==> r is Err,
    {
        match jiff_days_before_now(days) {
            Ok(nanos) => Ok(Instant { nanos }),
            Err(error) => Err(error),
        }
    }
}

} // verus!
