use vstd::prelude::*;

verus! {

/// The Unix timestamp an RFC 3339 string denotes, or `None` where the
/// string is not a valid RFC 3339 date-time. A function of the string alone.
pub uninterp spec fn rfc3339_secs(s: Seq<char>) -> Option<i64>;

/// Earliest instant an RFC 3339 string can denote: `0000-01-01T00:00:00`
/// at the largest positive offset the grammar admits.
pub const RFC3339_MIN_SECS: i64 = -62167305540;

/// Latest instant an RFC 3339 string can denote: the end of year 9999 at
/// the largest negative offset the grammar admits.
pub const RFC3339_MAX_SECS: i64 = 253402387140;

/// Relies on time::OffsetDateTime::parse with the well-known Rfc3339 format,
/// and on OffsetDateTime::unix_timestamp: the UTC seconds of the parsed
/// date-time. RFC 3339 has four-digit years, so the result lies between the
/// named bounds.
#[verifier::external_body]
pub fn parse_rfc3339_epoch(s: &str) -> (r: Option<i64>)
    ensures
        r == rfc3339_secs(s@),
        r matches Some(t) ==> RFC3339_MIN_SECS <= t <= RFC3339_MAX_SECS,
{
    match time::OffsetDateTime::parse(s, &time::format_description::well_known::Rfc3339) {
        Ok(dt) => Some(dt.unix_timestamp()),
        Err(_) => None,
    }
}

/// Earliest instant the clock type can represent: the start of year -9999.
pub const EPOCH_MIN_SECS: i64 = -377705116800;

/// Latest instant the clock type can represent: the end of year 9999.
pub const EPOCH_MAX_SECS: i64 = 253402300799;

/// Relies on time::OffsetDateTime::now_utc and unix_timestamp: the machine
/// clock as Unix seconds. Nothing is assumed of its value beyond the range
/// of the OffsetDateTime type, whose years span -9999 to 9999.
#[verifier::external_body]
pub fn now_epoch() -> (r: i64)
    ensures
        EPOCH_MIN_SECS <= r <= EPOCH_MAX_SECS,
{
    time::OffsetDateTime::now_utc().unix_timestamp()
}

} // verus!
