//! UTC instants within the years 0000 to 9999, and their RFC 3339 text.
use vstd::prelude::*;

verus! {

/// Seconds of 0000-01-01T00:00:00Z, counted from the Unix epoch.
pub const MIN_SECS: i64 = -62167219200;

/// Seconds of 9999-12-31T23:59:59Z, counted from the Unix epoch.
pub const MAX_SECS: i64 = 253402300799;

pub const NANOS_PER_SEC: u32 = 1000000000;

/// The RFC 3339 text (UTC, `Z` suffix, fraction only where needed) of an instant.
pub uninterp spec fn rfc3339_text(secs: i64, nanos: u32) -> Seq<char>;

/// The UTC instant, as seconds and sub-second nanoseconds, that an RFC 3339 text denotes.
pub uninterp spec fn rfc3339_reading(text: Seq<char>) -> Option<(i64, u32)>;

/// An instant in UTC: seconds since the Unix epoch and nanoseconds within that second.
#[derive(Clone, Copy, Debug, PartialEq, Eq, Structural)]
pub struct Timestamp {
    pub secs: i64,
    pub nanos: u32,
}

pub open spec fn in_range(secs: int, nanos: int) -> bool {
    MIN_SECS <= secs <= MAX_SECS && 0 <= nanos < NANOS_PER_SEC
}

/// The instant that a text denotes, when it is RFC 3339 and lies in the supported years.
pub open spec fn timestamp_of_text(text: Seq<char>) -> Option<Timestamp> {
    match rfc3339_reading(text) {
        Some(p) => if in_range(p.0 as int, p.1 as int) {
            Some(Timestamp { secs: p.0, nanos: p.1 })
        } else {
            None
        },
        None => None,
    }
}

/// Relies on chrono's `Utc::now`: it panics on a clock before the Unix epoch, so
/// the seconds are not negative, and the nanoseconds stay below one second.
#[verifier::external_body]
fn clock_now() -> (r: (i64, u32))
    ensures
        r.0 >= 0,
        r.1 < NANOS_PER_SEC,
{
    let now = chrono::Utc::now();
    (now.timestamp(), now.timestamp_subsec_nanos())
}

/// Relies on chrono's `DateTime::from_timestamp` and `to_rfc3339_opts(AutoSi, true)`:
/// between the years 0000 and 9999 the instant exists and is written as four-digit
/// RFC 3339 text, which `DateTime::parse_from_rfc3339` reads back as the same instant.
#[verifier::external_body]
fn format_rfc3339(secs: i64, nanos: u32) -> (r: String)
    requires
        in_range(secs as int, nanos as int),
    ensures
        r@ == rfc3339_text(secs, nanos),
        rfc3339_reading(r@) == Some((secs, nanos)),
{
    chrono::DateTime::from_timestamp(secs, nanos).unwrap_or_default().to_rfc3339_opts(
        chrono::SecondsFormat::AutoSi,
        true,
    )
}

/// Relies on chrono's `DateTime::parse_from_rfc3339`, taken as a UTC instant.
#[verifier::external_body]
fn parse_rfc3339(text: &str) -> (r: Option<(i64, u32)>)
    ensures
        r == rfc3339_reading(text@),
{
    chrono::DateTime::parse_from_rfc3339(text).ok().map(
        |dt| (dt.timestamp(), dt.timestamp_subsec_nanos()),
    )
}

impl Timestamp {
    pub open spec fn wf(self) -> bool {
        in_range(self.secs as int, self.nanos as int)
    }

    /// The instant with these parts, when it lies in the supported years.
    pub fn from_parts(secs: i64, nanos: u32) -> (r: Option<Timestamp>)
        ensures
            r == (if in_range(secs as int, nanos as int) {
                Some(Timestamp { secs, nanos })
            } else {
                None
            }),
    {
        if MIN_SECS <= secs && secs <= MAX_SECS && nanos < NANOS_PER_SEC {
            Some(Timestamp { secs, nanos })
        } else {
            None
        }
    }

    /// The instant of a clock reading; one past the year 9999 reads as its last second.
    pub fn from_clock(secs: i64, nanos: u32) -> (r: Timestamp)
        requires
            secs >= 0,
            nanos < NANOS_PER_SEC,
        ensures
            r == (if secs <= MAX_SECS {
                Timestamp { secs, nanos }
            } else {
                Timestamp { secs: MAX_SECS, nanos }
            }),
            r.wf(),
    {
        if secs <= MAX_SECS {
            Timestamp { secs, nanos }
        } else {
            Timestamp { secs: MAX_SECS, nanos }
        }
    }

    /// The current instant, as `from_clock` reads the system clock.
    pub fn now() -> (r: Timestamp)
        ensures
            r.wf(),
            r.secs >= 0,
    {
        let (secs, nanos) = clock_now();
        Timestamp::from_clock(secs, nanos)
    }

    /// The RFC 3339 text of this instant, which reads back as the same instant.
    pub fn to_rfc3339(&self) -> (r: String)
        requires
            self.wf(),
        ensures
            r@ == rfc3339_text(self.secs, self.nanos),
            timestamp_of_text(r@) == Some(*self),
    {
        format_rfc3339(self.secs, self.nanos)
    }

    /// Reads RFC 3339 text; `None` where it is not RFC 3339 or lies outside the supported years.
    pub fn parse_rfc3339(text: &str) -> (r: Option<Timestamp>)
        ensures
            r == timestamp_of_text(text@),
    {
        match parse_rfc3339(text) {
            Some((secs, nanos)) => Timestamp::from_parts(secs, nanos),
            None => None,
        }
    }
}

} // verus!
