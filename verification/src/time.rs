//! Publication times: an instant on the UTC time line together with the
//! offset of the zone it was written in.

use vstd::prelude::*;

use crate::text::text_of;

verus! {

/// A point in time, held as plain numbers.
///
/// `seconds` and `nanos` count from 1970-01-01T00:00:00Z and fix the instant;
/// `nanos` may exceed 999,999,999 inside a leap second. `offset` is the
/// zone's distance east of UTC in seconds: it changes how the time is
/// written, never which instant it is.
#[derive(Debug, Clone, Copy, PartialEq, Eq, Structural)]
pub struct Timestamp {
    pub seconds: i64,
    pub nanos: u32,
    pub offset: i32,
}

/// What `chrono::DateTime::parse_from_rfc3339` makes of `text`: the seconds,
/// the nanoseconds and the offset of the time it reads, or `None` where it
/// reports an error.
pub uninterp spec fn rfc3339_reading(text: Seq<char>) -> Option<(i64, u32, i32)>;

/// The text that `chrono::DateTime::to_rfc3339` writes for the instant
/// `seconds`, `nanos` in the zone `offset` seconds east of UTC, or `None`
/// where chrono has no such offset or no such instant.
pub uninterp spec fn rfc3339_writing(seconds: i64, nanos: u32, offset: i32) -> Option<Seq<char>>;

/// Calls `chrono::DateTime::parse_from_rfc3339` and takes the parsed time
/// apart with `timestamp`, `timestamp_subsec_nanos` and
/// `offset().local_minus_utc()`. The contract only gives the result its name.
#[verifier::external_body]
fn chrono_read_rfc3339(text: &str) -> (parts: Option<(i64, u32, i32)>)
    ensures
        parts == rfc3339_reading(text@),
{
    match chrono::DateTime::parse_from_rfc3339(text) {
        Ok(time) => Some(
            (time.timestamp(), time.timestamp_subsec_nanos(), time.offset().local_minus_utc()),
        ),
        Err(_) => None,
    }
}

/// Builds the time with `chrono::FixedOffset::east_opt`,
/// `chrono::DateTime::from_timestamp` and `with_timezone`, and writes it with
/// `chrono::DateTime::to_rfc3339`. The contract only gives the result its
/// name; `None` comes back where one of the two constructors refuses.
#[verifier::external_body]
fn chrono_write_rfc3339(seconds: i64, nanos: u32, offset: i32) -> (text: Option<String>)
    ensures
        text_of(text) == rfc3339_writing(seconds, nanos, offset),
{
    let zone = chrono::FixedOffset::east_opt(offset)?;
    let instant = chrono::DateTime::from_timestamp(seconds, nanos)?;
    Some(instant.with_timezone(&zone).to_rfc3339())
}

impl Timestamp {
    /// Whether `self` is a strictly later instant than `other`. Offsets play
    /// no part.
    pub open spec fn later_than(self, other: Timestamp) -> bool {
        self.seconds > other.seconds || (self.seconds == other.seconds && self.nanos
            > other.nanos)
    }

    /// Whether `self` and `other` are the same instant, in whatever zones.
    pub open spec fn same_instant(self, other: Timestamp) -> bool {
        self.seconds == other.seconds && self.nanos == other.nanos
    }

    /// Where the instant lies on the time line, as one number: a timestamp is
    /// later than another exactly if its position is greater.
    pub open spec fn position(self) -> int {
        self.seconds * 0x1_0000_0000 + self.nanos
    }

    /// The RFC 3339 text of the timestamp, if it has one.
    pub open spec fn written(self) -> Option<Seq<char>> {
        rfc3339_writing(self.seconds, self.nanos, self.offset)
    }

    /// The timestamp that `text` writes in RFC 3339, if it writes one.
    pub open spec fn read(text: Seq<char>) -> Option<Timestamp> {
        Timestamp::of_parts(rfc3339_reading(text))
    }

    /// The timestamp that parsed parts stand for.
    pub open spec fn of_parts(parts: Option<(i64, u32, i32)>) -> Option<Timestamp> {
        match parts {
            Some((seconds, nanos, offset)) => Some(Timestamp { seconds, nanos, offset }),
            None => None,
        }
    }

    /// Compares two instants.
    pub fn is_after(&self, other: &Timestamp) -> (after: bool)
        ensures
            after == self.later_than(*other),
    {
        self.seconds > other.seconds || (self.seconds == other.seconds && self.nanos
            > other.nanos)
    }

    /// Puts parsed parts together.
    pub fn from_parts(parts: Option<(i64, u32, i32)>) -> (time: Option<Timestamp>)
        ensures
            time == Timestamp::of_parts(parts),
    {
        match parts {
            Some((seconds, nanos, offset)) => Some(Timestamp { seconds, nanos, offset }),
            None => None,
        }
    }

    /// Reads an RFC 3339 date and time. Text that is none gives `None`.
    pub fn parse_rfc3339(text: &str) -> (time: Option<Timestamp>)
        ensures
            time == Timestamp::read(text@),
    {
        Timestamp::from_parts(chrono_read_rfc3339(text))
    }

    /// Writes the time as RFC 3339 text, in its own zone. A timestamp outside
    /// the range of dates that can be written gives `None`.
    pub fn to_rfc3339(&self) -> (text: Option<String>)
        ensures
            text_of(text) == self.written(),
    {
        chrono_write_rfc3339(self.seconds, self.nanos, self.offset)
    }
}

/// Positions order timestamps as `later_than` does, and tell instants apart
/// as `same_instant` does.
pub proof fn lemma_position_orders(a: Timestamp, b: Timestamp)
    ensures
        a.later_than(b) <==> a.position() > b.position(),
        a.same_instant(b) <==> a.position() == b.position(),
{
}

} // verus!
