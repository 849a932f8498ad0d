//! RFC 3339 timestamps, read and written with the `time` crate.
use vstd::prelude::*;
use crate::error::AgentOsError;

verus! {

/// The instant an RFC 3339 timestamp denotes, as nanoseconds since the Unix
/// epoch, with the timestamp's UTC offset in seconds; `None` when the text is
/// not a valid RFC 3339 timestamp.
pub uninterp spec fn rfc3339_parsed(text: Seq<char>) -> Option<(i128, i32)>;

/// The RFC 3339 text of an instant (nanoseconds since the Unix epoch) shown
/// in a UTC offset (seconds); `None` when the instant or offset is outside
/// the supported range.
pub uninterp spec fn rfc3339_formatted(unix_nanos: i128, offset_seconds: i32) -> Option<Seq<char>>;

/// Parses an RFC 3339 timestamp with `time::OffsetDateTime::parse` and the
/// `Rfc3339` description, and reads back its Unix time in nanoseconds and its
/// offset. Claimed: the result is `rfc3339_parsed` of the text.
#[verifier::external_body]
pub(crate) fn parse_rfc3339(text: &str) -> (r: Option<(i128, i32)>)
    ensures
        r == rfc3339_parsed(text@),
{
    match time::OffsetDateTime::parse(text, &time::format_description::well_known::Rfc3339) {
        Ok(instant) => Some((instant.unix_timestamp_nanos(), instant.offset().whole_seconds())),
        Err(_) => None,
    }
}

/// Formats an instant in an offset with `time::OffsetDateTime::format` and
/// the `Rfc3339` description, building the date-time from its Unix time and
/// offset. Claimed: the text is `rfc3339_formatted` of the arguments.
#[verifier::external_body]
pub(crate) fn format_rfc3339(unix_nanos: i128, offset_seconds: i32) -> (r: Option<String>)
    ensures
        r.is_some() == rfc3339_formatted(unix_nanos, offset_seconds).is_some(),
        r matches Some(s) ==> rfc3339_formatted(unix_nanos, offset_seconds) == Some(s@),
{
    let offset = time::UtcOffset::from_whole_seconds(offset_seconds).ok()?;
    let instant = time::OffsetDateTime::from_unix_timestamp_nanos(unix_nanos).ok()?.checked_to_offset(offset)?;
    instant.format(&time::format_description::well_known::Rfc3339).ok()
}

/// Whether the timestamp lies before `now_unix_nanos`. A text that is not
/// RFC 3339 is refused with `Validation`.
pub fn rfc3339_is_past(timestamp: &str, now_unix_nanos: i128) -> (r: Result<bool, AgentOsError>)
    ensures
        r.is_err() <==> rfc3339_parsed(timestamp@) is None,
        r matches Ok(b) ==> b == (rfc3339_parsed(timestamp@).unwrap().0 < now_unix_nanos),
        r.is_err() ==> r == Err::<bool, AgentOsError>(AgentOsError::Validation("invalid RFC 3339 timestamp")),
{
    match parse_rfc3339(timestamp) {
        None => Err(AgentOsError::Validation("invalid RFC 3339 timestamp")),
        Some((instant, _)) => Ok(instant < now_unix_nanos),
    }
}

/// The RFC 3339 text `interval_seconds` after the timestamp `scheduled_for`.
pub open spec fn next_interval_text(scheduled_for: Seq<char>, interval_seconds: u64) -> Option<Seq<char>> {
    if interval_seconds > i64::MAX {
        None
    } else {
        match rfc3339_parsed(scheduled_for) {
            None => None,
            Some((nanos, offset)) => {
                let next = nanos + interval_seconds * 1_000_000_000;
                if next > i128::MAX || next < i128::MIN {
                    None
                } else {
                    rfc3339_formatted(next as i128, offset)
                }
            },
        }
    }
}

/// Why no timestamp follows: an interval beyond the signed 64-bit range,
/// a `scheduled_for` that is not RFC 3339, or a result that cannot be
/// written.
pub open spec fn next_interval_error(scheduled_for: Seq<char>, interval_seconds: u64) -> AgentOsError {
    if interval_seconds > i64::MAX {
        AgentOsError::Validation("automation interval_seconds exceeds supported range")
    } else if rfc3339_parsed(scheduled_for) is None {
        AgentOsError::Validation("invalid automation scheduled_for")
    } else {
        AgentOsError::Validation("invalid automation next_run_at")
    }
}

/// The timestamp `interval_seconds` after `scheduled_for`, in the same UTC
/// offset. Refused with `Validation` when the interval exceeds the signed
/// 64-bit range, when `scheduled_for` is not RFC 3339, or when the result
/// cannot be written.
pub fn next_interval_timestamp(scheduled_for: &str, interval_seconds: u64) -> (r: Result<String, AgentOsError>)
    ensures
        r.is_err() <==> next_interval_text(scheduled_for@, interval_seconds) is None,
        r matches Ok(s) ==> Some(s@) == next_interval_text(scheduled_for@, interval_seconds),
        r.is_err() ==> r == Err::<String, AgentOsError>(next_interval_error(scheduled_for@, interval_seconds)),
{
    if interval_seconds > 9_223_372_036_854_775_807u64 {
        return Err(AgentOsError::Validation("automation interval_seconds exceeds supported range"));
    }
    let (nanos, offset) = match parse_rfc3339(scheduled_for) {
        None => return Err(AgentOsError::Validation("invalid automation scheduled_for")),
        Some(p) => p,
    };
    let delta: i128 = (interval_seconds as i128) * 1_000_000_000i128;
    let next = match nanos.checked_add(delta) {
        None => return Err(AgentOsError::Validation("invalid automation next_run_at")),
        Some(n) => n,
    };
    match format_rfc3339(next, offset) {
        None => Err(AgentOsError::Validation("invalid automation next_run_at")),
        Some(text) => Ok(text),
    }
}

} // verus!
