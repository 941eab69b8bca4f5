//! Instants of UTC time and the two textual forms the library gives them.

use chrono::{DateTime, Utc};
use vstd::prelude::*;

verus! {

/// An instant, as whole seconds since 1970-01-01 00:00:00 UTC and the
/// nanoseconds into that second.
#[derive(Clone, Copy, Debug, PartialEq, Eq)]
pub struct Timestamp {
    pub secs: i64,
    pub nanos: u32,
}

/// Whether `DateTime::from_timestamp` accepts the pair, that is, whether it
/// lies within the range of dates that chrono represents and `nanos` is a
/// valid fraction of the second.
pub uninterp spec fn is_utc_instant(secs: i64, nanos: u32) -> bool;

/// The text `YYYYMMDD_HHMMSS` that chrono's `format` writes for the instant
/// with the pattern `%Y%m%d_%H%M%S`.
pub uninterp spec fn utc_compact_text(secs: i64, nanos: u32) -> Seq<char>;

/// The RFC 3339 text that chrono's `to_rfc3339` writes for the instant.
pub uninterp spec fn utc_rfc3339_text(secs: i64, nanos: u32) -> Seq<char>;

impl Timestamp {
    /// Whether chrono can represent this instant.
    pub open spec fn is_representable(self) -> bool {
        is_utc_instant(self.secs, self.nanos)
    }

    /// The instant's second-resolution tag, `YYYYMMDD_HHMMSS`.
    pub open spec fn compact_text(self) -> Seq<char> {
        utc_compact_text(self.secs, self.nanos)
    }

    /// The instant in RFC 3339.
    pub open spec fn rfc3339_text(self) -> Seq<char> {
        utc_rfc3339_text(self.secs, self.nanos)
    }

    /// The instant `secs` seconds and `nanos` nanoseconds after the epoch.
    pub fn new(secs: i64, nanos: u32) -> (instant: Timestamp)
        ensures
            instant.secs == secs,
            instant.nanos == nanos,
    {
        Timestamp { secs, nanos }
    }
}

/// The current instant.
///
/// Trusted: calls `Utc::now` and takes the result apart with
/// `DateTime::timestamp` and `DateTime::timestamp_subsec_nanos`. Nothing is
/// said of which instant comes back, only that it is one chrono represents:
/// chrono documents that these two parts round-trip through
/// `DateTime::from_timestamp`. `Utc::now` panics where the system clock
/// stands before 1970.
#[verifier::external_body]
pub(crate) fn utc_now() -> (now: Timestamp)
    ensures
        is_utc_instant(now.secs, now.nanos),
{
    let now = Utc::now();
    Timestamp { secs: now.timestamp(), nanos: now.timestamp_subsec_nanos() }
}

/// The tag `YYYYMMDD_HHMMSS` of `instant`, or `None` where chrono cannot
/// represent the instant.
///
/// Trusted: calls `DateTime::from_timestamp` and, on the instant it gives,
/// `DateTime::format` with `%Y%m%d_%H%M%S`. The contract names the text
/// ([`utc_compact_text`]) and says that it comes exactly for the pairs that
/// `from_timestamp` accepts.
#[verifier::external_body]
pub(crate) fn compact_utc(instant: Timestamp) -> (text: Option<String>)
    ensures
        text is Some <==> is_utc_instant(instant.secs, instant.nanos),
        text matches Some(t) ==> t@ == utc_compact_text(instant.secs, instant.nanos),
{
    DateTime::from_timestamp(instant.secs, instant.nanos).map(|t| t.format("%Y%m%d_%H%M%S").to_string())
}

/// `instant` in RFC 3339, or `None` where chrono cannot represent the instant.
///
/// Trusted: calls `DateTime::from_timestamp` and, on the instant it gives,
/// `DateTime::to_rfc3339`. The contract names the text
/// ([`utc_rfc3339_text`]) and says that it comes exactly for the pairs that
/// `from_timestamp` accepts.
#[verifier::external_body]
pub(crate) fn rfc3339_utc(instant: Timestamp) -> (text: Option<String>)
    ensures
        text is Some <==> is_utc_instant(instant.secs, instant.nanos),
        text matches Some(t) ==> t@ == utc_rfc3339_text(instant.secs, instant.nanos),
{
    DateTime::from_timestamp(instant.secs, instant.nanos).map(|t| t.to_rfc3339())
}

} // verus!
