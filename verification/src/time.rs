//! Points in time as plain integers, and the reading of time text.
//!
//! The calendar arithmetic and the grammars of time text are chrono's. This
//! module holds what comes out of them as integers that can be compared and
//! carried through the library.

use vstd::prelude::*;

verus! {

/// A point on the time line: whole seconds since 1970-01-01T00:00:00Z and
/// the nanoseconds that have passed within that second. A leap second is
/// held as chrono holds it: as the second before it, with a billion
/// nanoseconds or more.
#[derive(Clone, Copy, Debug, PartialEq, Eq, Structural)]
pub struct Instant {
    pub secs: i64,
    pub nanos: u32,
}

/// A calendar date and time of day with no time zone attached, counted as
/// seconds and nanoseconds since 1970-01-01 00:00:00 on the same clock.
#[derive(Clone, Copy, Debug, PartialEq, Eq, Structural)]
pub struct WallTime {
    pub secs: i64,
    pub nanos: u32,
}

impl WallTime {
    /// Whether `self` is an earlier date and time than `other`.
    pub open spec fn before(self, other: WallTime) -> bool {
        self.secs < other.secs || (self.secs == other.secs && self.nanos < other.nanos)
    }

    /// Tells whether `self` is an earlier date and time than `other`.
    pub fn is_before(&self, other: &WallTime) -> (r: bool)
        ensures
            r == self.before(*other),
    {
        self.secs < other.secs || (self.secs == other.secs && self.nanos < other.nanos)
    }
}

/// The format of the two bounds of an extraction window, in chrono's
/// notation: `YYYY-MM-DD HH:MM:SS`.
pub const WINDOW_FORMAT: &'static str = "%Y-%m-%d %H:%M:%S";

/// The instant that chrono reads from date-and-time text with an offset from
/// UTC (its relaxed form of RFC 3339), or `None` where chrono rejects the
/// text.
pub uninterp spec fn instant_of(text: Seq<char>) -> Option<Instant>;

/// The date and time that chrono reads from text in a format given in its
/// notation, or `None` where chrono rejects the text.
pub uninterp spec fn wall_time_of(text: Seq<char>, format: Seq<char>) -> Option<WallTime>;

/// Reads an instant from text with chrono's `FromStr` for
/// `DateTime<FixedOffset>`, the parser that chrono's serde support applies to
/// a date-and-time string, and takes the result apart with
/// `DateTime::timestamp` and `DateTime::timestamp_subsec_nanos`.
///
/// Trusted: the result is a function of the text alone, and is `None` exactly
/// where the parser returns an error.
#[verifier::external_body]
pub(crate) fn parse_instant(text: &str) -> (r: Option<Instant>)
    ensures
        r == instant_of(text@),
{
    match text.parse::<chrono::DateTime<chrono::FixedOffset>>() {
        Ok(t) => Some(Instant { secs: t.timestamp(), nanos: t.timestamp_subsec_nanos() }),
        Err(_) => None,
    }
}

/// Reads a date and time from text with chrono's
/// `NaiveDateTime::parse_from_str`, and takes the result apart with
/// `NaiveDateTime::and_utc`, `DateTime::timestamp` and
/// `DateTime::timestamp_subsec_nanos`. The format is held to
/// [`WINDOW_FORMAT`], for which the parser is known to return on every text.
///
/// Trusted: the result is a function of the text and the format alone, and
/// is `None` exactly where the parser returns an error.
#[verifier::external_body]
pub(crate) fn parse_wall_time(text: &str, format: &str) -> (r: Option<WallTime>)
    requires
        format@ == WINDOW_FORMAT@,
    ensures
        r == wall_time_of(text@, format@),
{
    match chrono::NaiveDateTime::parse_from_str(text, format) {
        Ok(t) => Some(
            WallTime { secs: t.and_utc().timestamp(), nanos: t.and_utc().timestamp_subsec_nanos() },
        ),
        Err(_) => None,
    }
}

} // verus!
