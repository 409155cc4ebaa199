//! Wall-clock time (UTC) through `chrono`: the current instant as whole
//! seconds and nanoseconds since the Unix epoch, and its RFC 3339 text.

use vstd::prelude::*;

verus! {

/// What `chrono` writes, by `DateTime::to_rfc3339`, for the instant `secs`
/// seconds and `nanos` nanoseconds after the Unix epoch; nothing where
/// `DateTime::from_timestamp` refuses the pair.
pub uninterp spec fn rfc3339_of(secs: i64, nanos: u32) -> Option<Seq<char>>;

/// Reads the system clock through `chrono::Utc::now` and splits the instant
/// with `DateTime::timestamp` and `DateTime::timestamp_subsec_nanos`.
/// `Utc::now` panics on a clock set before the Unix epoch and otherwise
/// builds an instant that `chrono` represents, with no leap second.
///
/// Beyond that the clock is outside the library: nothing is promised of the
/// value, not even that two reads are ordered.
#[verifier::external_body]
pub(crate) fn utc_now_parts() -> (parts: (i64, u32))
    ensures
        parts.0 >= 0,
        parts.1 < 1_000_000_000,
        rfc3339_of(parts.0, parts.1) is Some,
{
    let now = chrono::Utc::now();
    (now.timestamp(), now.timestamp_subsec_nanos())
}

/// Writes an instant in RFC 3339 form through `DateTime::from_timestamp`
/// and `DateTime::to_rfc3339`.
#[verifier::external_body]
pub(crate) fn instant_to_rfc3339(secs: i64, nanos: u32) -> (r: Option<String>)
    ensures
        r matches Some(s) ==> rfc3339_of(secs, nanos) == Some(s@),
        r is None ==> rfc3339_of(secs, nanos) is None,
{
    match chrono::DateTime::from_timestamp(secs, nanos) {
        Some(d) => Some(d.to_rfc3339()),
        None => None,
    }
}

} // verus!
