//! Points in time, read and written by the calendar of the `chrono` crate.

use vstd::prelude::*;
use vstd::string::*;

verus! {

/// A point in time with the offset from UTC at which it is told.
#[derive(Clone, Copy, Debug, PartialEq, Eq, Structural)]
pub struct Timestamp {
    pub unix_seconds: i64,
    pub nanos: u32,
    pub offset_seconds: i32,
}

/// The first second that the calendar has: the start of the year -262143.
pub const CALENDAR_START: i64 = -8_334_601_228_800;

/// The last second that the calendar has: the end of the year 262142.
pub const CALENDAR_END: i64 = 8_210_266_876_799;

/// The time that an RFC 3339 text tells: seconds since the epoch, nanoseconds of the second, and
/// the offset from UTC in seconds.
pub uninterp spec fn rfc3339_time(text: Seq<char>) -> Option<(i64, u32, i32)>;

/// `chrono::DateTime::parse_from_rfc3339`: the time that a text tells, or nothing where it is no
/// RFC 3339 text.
#[verifier::external_body]
pub(crate) fn parse_rfc3339(text: &str) -> (time: Option<Timestamp>)
    ensures
        time is Some <==> rfc3339_time(text@) is Some,
        time matches Some(t) ==> rfc3339_time(text@) == Some(
            (t.unix_seconds, t.nanos, t.offset_seconds),
        ),
{
    chrono::DateTime::parse_from_rfc3339(text).ok().map(
        |t|
            Timestamp {
                unix_seconds: t.timestamp(),
                nanos: t.timestamp_subsec_nanos(),
                offset_seconds: t.offset().local_minus_utc(),
            },
    )
}

/// The RFC 3339 text of a time in UTC with three digits of the second and `Z` at its end, where the
/// calendar has that time.
pub uninterp spec fn utc_millis(unix_seconds: i64, nanos: u32) -> Option<Seq<char>>;

/// `chrono::DateTime::to_rfc3339_opts` in UTC with milliseconds: nothing where the calendar does
/// not reach that time.
#[verifier::external_body]
pub(crate) fn write_utc_millis(unix_seconds: i64, nanos: u32) -> (text: Option<String>)
    ensures
        text is Some <==> utc_millis(unix_seconds, nanos) is Some,
        text matches Some(t) ==> utc_millis(unix_seconds, nanos) == Some(t@),
{
    chrono::DateTime::from_timestamp(unix_seconds, nanos).map(
        |t| t.to_rfc3339_opts(chrono::SecondsFormat::Millis, true),
    )
}

impl Timestamp {
    /// The calendar reaches this time, in UTC and at its offset. A leap second is told as more than
    /// a second's nanoseconds in the last second of a minute.
    pub open spec fn in_calendar(&self) -> bool {
        &&& CALENDAR_START <= self.unix_seconds <= CALENDAR_END
        &&& CALENDAR_START <= self.unix_seconds + self.offset_seconds <= CALENDAR_END
        &&& self.nanos < 1_000_000_000 || (self.nanos < 2_000_000_000 && self.unix_seconds as int
            % 60 == 59)
        &&& -86_400 < self.offset_seconds < 86_400
    }
}

/// The text of a time at its offset under a pattern of `chrono`.
pub uninterp spec fn formatted_time(
    unix_seconds: i64,
    nanos: u32,
    offset_seconds: i32,
    pattern: Seq<char>,
) -> Seq<char>;

/// `chrono::DateTime::format` written out. The calendar has the time and both patterns are made of
/// specifiers that `chrono` knows, so the fallback of the body is not reached.
#[verifier::external_body]
pub(crate) fn format_time(time: Timestamp, pattern: &str) -> (text: String)
    requires
        time.in_calendar(),
        pattern@ == "%Y-%m-%d"@ || pattern@ == "%Y%m%d-%H%M%S-%3f"@,
    ensures
        text@ == formatted_time(time.unix_seconds, time.nanos, time.offset_seconds, pattern@),
{
    chrono::FixedOffset::east_opt(time.offset_seconds).zip(
        chrono::DateTime::from_timestamp(time.unix_seconds, time.nanos),
    ).map(|(o, t)| t.with_timezone(&o).format(pattern).to_string()).unwrap_or_default()
}

/// The RFC 3339 text of a time at its offset, with a numeric offset also for UTC.
pub uninterp spec fn rfc3339_text(unix_seconds: i64, nanos: u32, offset_seconds: i32) -> Seq<char>;

/// `chrono::DateTime::to_rfc3339`. The calendar has the time, so the fallback of the body is not
/// reached.
#[verifier::external_body]
pub(crate) fn write_rfc3339(time: Timestamp) -> (text: String)
    requires
        time.in_calendar(),
    ensures
        text@ == rfc3339_text(time.unix_seconds, time.nanos, time.offset_seconds),
{
    chrono::FixedOffset::east_opt(time.offset_seconds).zip(
        chrono::DateTime::from_timestamp(time.unix_seconds, time.nanos),
    ).map(|(o, t)| t.with_timezone(&o).to_rfc3339()).unwrap_or_default()
}

/// The JSON literal for a time at its offset.
pub uninterp spec fn json_time(unix_seconds: i64, nanos: u32, offset_seconds: i32) -> Seq<char>;

/// `serde_json::to_string` of a `chrono::DateTime`. The calendar has the time and writing into
/// memory does not fail, so the fallback of the body is not reached.
#[verifier::external_body]
pub(crate) fn write_json_time(time: Timestamp) -> (literal: String)
    requires
        time.in_calendar(),
    ensures
        literal@ == json_time(time.unix_seconds, time.nanos, time.offset_seconds),
{
    chrono::FixedOffset::east_opt(time.offset_seconds).zip(
        chrono::DateTime::from_timestamp(time.unix_seconds, time.nanos),
    ).and_then(|(o, t)| serde_json::to_string(&t.with_timezone(&o)).ok()).unwrap_or_default()
}

} // verus!
