//! Timestamps as the mail service writes them.

use crate::error::ReplyError;
use vstd::prelude::*;

verus! {

/// How the mail service writes a point in time: `YYYY-MM-DD HH:MM:SS`, in UTC.
pub const FORMAT: &'static str = "%Y-%m-%d %H:%M:%S";

/// `chrono`'s error for a text that is no timestamp, which nothing here looks into.
#[verifier::external_type_specification]
#[verifier::external_body]
pub struct ExTimeParseError(chrono::ParseError);

/// A point in time: whole seconds since 1970-01-01 00:00:00 UTC, with leap
/// seconds left out of the count, and the nanoseconds into that second.
///
/// A second that is written with the number 60 is a leap second. It is kept as
/// the second before it, with a thousand million nanoseconds or more.
#[derive(Debug, Clone, Copy, PartialEq, Eq, Structural)]
pub struct Timestamp {
    pub seconds: i64,
    pub nanos: u32,
}

/// Seconds in a day.
pub const SECONDS_PER_DAY: i64 = 86_400;

/// Nanoseconds in a second.
pub const NANOS_PER_SECOND: i128 = 1_000_000_000;

impl Timestamp {
    /// The seconds since midnight.
    pub open spec fn second_of_day(self) -> int {
        (self.seconds as int) % (SECONDS_PER_DAY as int)
    }

    /// Whether the point lies in a leap second.
    pub open spec fn in_leap_second(self) -> bool {
        self.nanos >= NANOS_PER_SECOND
    }
}

/// The nanoseconds from `now` to `end`, negative where `end` comes first.
///
/// A leap second is counted where one of the two points lies in it and the
/// other at another time of day on its far side: then the leap second itself
/// has passed between the two, and the difference of the clock readings is
/// off by one second.
pub open spec fn nanos_between(now: Timestamp, end: Timestamp) -> int {
    let leap = if end.second_of_day() > now.second_of_day() && now.in_leap_second() {
        1int
    } else if end.second_of_day() < now.second_of_day() && end.in_leap_second() {
        -1int
    } else {
        0int
    };
    (end.seconds - now.seconds + leap) * NANOS_PER_SECOND + (end.nanos - now.nanos)
}

/// The whole seconds in a number of nanoseconds, rounded towards zero.
pub open spec fn whole_seconds(nanos: int) -> int {
    if nanos >= 0 {
        nanos / (NANOS_PER_SECOND as int)
    } else {
        -((-nanos) / (NANOS_PER_SECOND as int))
    }
}

/// The point in time that `chrono` reads from `text` by `format`, taken as
/// UTC: its seconds since the Unix epoch and the nanoseconds into the second,
/// or `None` where `chrono` does not accept `text`.
pub uninterp spec fn timestamp_of(text: Seq<char>, format: Seq<char>) -> Option<(i64, u32)>;

/// Calls `chrono::NaiveDateTime::parse_from_str` and takes the result as UTC,
/// by `NaiveDateTime::and_utc`, `DateTime::timestamp` and
/// `DateTime::timestamp_subsec_nanos`.
///
/// The contract only names the outcome: the numbers that come back are those
/// that [`timestamp_of`] speaks of, and an error comes back exactly where
/// [`timestamp_of`] is `None`.
#[verifier::external_body]
fn parse_timestamp(text: &str, format: &str) -> (r: Result<(i64, u32), chrono::ParseError>)
    ensures
        r matches Ok(read) ==> timestamp_of(text@, format@) == Some(read),
        r is Err ==> timestamp_of(text@, format@) is None,
{
    chrono::NaiveDateTime::parse_from_str(text, format).map(
        |time| (time.and_utc().timestamp(), time.and_utc().timestamp_subsec_nanos()),
    )
}

/// What reading `text` as a timestamp of the mail service gives.
pub open spec fn timestamp_read(text: Seq<char>) -> Result<Timestamp, ReplyError> {
    match timestamp_of(text, FORMAT@) {
        Some(read) => Ok(Timestamp { seconds: read.0, nanos: read.1 }),
        None => Err(ReplyError::Timestamp),
    }
}

/// Reads a timestamp of the mail service.
pub fn deserialize(text: &str) -> (r: Result<Timestamp, ReplyError>)
    ensures
        r == timestamp_read(text@),
{
    match parse_timestamp(text, FORMAT) {
        Ok(read) => Ok(Timestamp { seconds: read.0, nanos: read.1 }),
        Err(_) => Err(ReplyError::Timestamp),
    }
}

/// Computes the whole seconds from `now` to `end`, rounded towards zero.
pub fn seconds_between(now: &Timestamp, end: &Timestamp) -> (seconds: i128)
    ensures
        seconds == whole_seconds(nanos_between(*now, *end)),
{
    let now_of_day: i64 = now.seconds.checked_rem_euclid(SECONDS_PER_DAY).unwrap();
    let end_of_day: i64 = end.seconds.checked_rem_euclid(SECONDS_PER_DAY).unwrap();
    let leap: i128 = if end_of_day > now_of_day && now.nanos as i128 >= NANOS_PER_SECOND {
        1
    } else if end_of_day < now_of_day && end.nanos as i128 >= NANOS_PER_SECOND {
        -1
    } else {
        0
    };
    let seconds: i128 = end.seconds as i128 - now.seconds as i128 + leap;
    let nanos: i128 = seconds * NANOS_PER_SECOND + (end.nanos as i128 - now.nanos as i128);
    if nanos >= 0 {
        nanos / NANOS_PER_SECOND
    } else {
        -((-nanos) / NANOS_PER_SECOND)
    }
}

} // verus!
