//! The calls into outside crates that the verified logic makes. Each item here is
//! trusted: its contract states what the outside crate's source shows of the call.

use vstd::prelude::*;
use crate::sql::Timestamp;

verus! {

/// What `"…".parse::<chrono::DateTime<chrono::Utc>>()` yields for a text: the instant
/// it denotes, as (seconds since the epoch, nanoseconds within the second), or `None`
/// where chrono rejects the text. chrono's RFC 3339 reader is its own grammar, so the
/// result is named rather than spelled out.
pub uninterp spec fn parsed_utc_timestamp(text: Seq<char>) -> Option<Timestamp>;

/// chrono's `DateTime<Utc>: FromStr`. The contract names the result after the text;
/// it promises nothing about which texts are accepted.
#[verifier::external_body]
pub(crate) fn parse_utc_timestamp(text: &str) -> (r: Option<Timestamp>)
    ensures
        r == parsed_utc_timestamp(text@),
{
    match text.parse::<chrono::DateTime<chrono::Utc>>() {
        Ok(at) => Some(Timestamp { secs: at.timestamp(), nanos: at.timestamp_subsec_nanos() }),
        Err(_) => None,
    }
}

/// What chrono gives for "this instant plus one day":
/// `DateTime::from_timestamp(secs, nanos)` followed by `checked_add_signed(TimeDelta::days(1))`.
pub uninterp spec fn utc_next_day(at: Timestamp) -> Option<Timestamp>;

/// chrono's one-day addition on a UTC instant. `None` where chrono cannot represent the
/// instant or its successor. Where the instant is not a leap second (nanos below one
/// billion) chrono's source adds exactly 86 400 seconds and keeps the nanoseconds, and its
/// calendar runs from -262143-01-01T00:00:00 (second -8 334 601 228 800) to
/// +262142-12-31T23:59:59 (second 8 210 266 876 799), so a next day exists exactly when the
/// instant and its successor both lie in that span. The contract states both; the name is
/// left to carry only leap seconds (nanos from one billion on).
#[verifier::external_body]
pub(crate) fn next_utc_day(at: Timestamp) -> (r: Option<Timestamp>)
    ensures
        r == utc_next_day(at),
        at.nanos < 1_000_000_000 ==> (r matches Some(n) ==> n.secs == at.secs + 86400
            && n.nanos == at.nanos),
        at.nanos < 1_000_000_000 ==> (r is Some <==> (-8_334_601_228_800 <= at.secs
            && at.secs + 86400 <= 8_210_266_876_799)),
{
    match chrono::DateTime::from_timestamp(at.secs, at.nanos) {
        Some(start) => match start.checked_add_signed(chrono::TimeDelta::days(1)) {
            Some(next) => Some(
                Timestamp { secs: next.timestamp(), nanos: next.timestamp_subsec_nanos() },
            ),
            None => None,
        },
        None => None,
    }
}

/// What `uuid::Uuid::parse_str` yields for a text: the 128-bit value of a UUID written in
/// one of the forms the uuid crate accepts (simple, hyphenated, braced, URN), or `None`.
pub uninterp spec fn parsed_uuid(text: Seq<char>) -> Option<u128>;

/// `uuid::Uuid::parse_str`, with the UUID taken as its 128-bit value (`Uuid::as_u128`).
#[verifier::external_body]
pub(crate) fn parse_uuid(text: &str) -> (r: Option<u128>)
    ensures
        r == parsed_uuid(text@),
{
    match uuid::Uuid::parse_str(text) {
        Ok(id) => Some(id.as_u128()),
        Err(_) => None,
    }
}

} // verus!
