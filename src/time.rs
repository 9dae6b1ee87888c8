use vstd::prelude::*;
use chrono::{DateTime, SecondsFormat, Utc};

verus! {

/// Seconds on either side of the Unix epoch that this library accepts: about
/// 253,000 years, inside the range that chrono can represent.
pub const MAX_ABS_SECS: i64 = 8_000_000_000_000;

/// Seconds in one day.
pub const SECS_PER_DAY: i64 = 86_400;

/// A point in time in UTC: whole seconds since the Unix epoch and the
/// nanoseconds past that second. As in chrono, a leap second is written as
/// nanoseconds from one to two billion on a second that ends a minute.
#[derive(Clone, Copy, Debug, PartialEq, Eq, Structural)]
pub struct UtcTime {
    pub secs: i64,
    pub nanos: u32,
}

/// The seconds lie in the supported range.
pub open spec fn secs_in_range(secs: int) -> bool {
    -MAX_ABS_SECS <= secs <= MAX_ABS_SECS
}

/// `secs` and `nanos` describe an instant that chrono accepts.
pub open spec fn valid_instant(secs: int, nanos: int) -> bool {
    &&& secs_in_range(secs)
    &&& 0 <= nanos
    &&& (nanos < 1_000_000_000 || (nanos < 2_000_000_000 && secs % 60 == 59))
}

impl UtcTime {
    pub open spec fn wf(&self) -> bool {
        valid_instant(self.secs as int, self.nanos as int)
    }

    /// The Unix epoch, 1970-01-01T00:00:00Z.
    pub fn epoch() -> (r: UtcTime)
        ensures
            r.secs == 0,
            r.nanos == 0,
            r.wf(),
    {
        UtcTime { secs: 0, nanos: 0 }
    }

    /// The instant `secs` seconds and `nanos` nanoseconds after the epoch, when it
    /// is valid.
    pub fn from_unix(secs: i64, nanos: u32) -> (r: Option<UtcTime>)
        ensures
            r is Some <==> valid_instant(secs as int, nanos as int),
            r is Some ==> r->0.secs == secs && r->0.nanos == nanos,
    {
        if -MAX_ABS_SECS <= secs && secs <= MAX_ABS_SECS && (nanos < 1_000_000_000 || (nanos
            < 2_000_000_000 && (secs % 60 == 59 || secs % 60 == -1))) {
            Some(UtcTime { secs, nanos })
        } else {
            None
        }
    }
}

/// What chrono writes for the UTC instant at `secs` with the format `pattern`.
pub uninterp spec fn utc_text(secs: int, pattern: Seq<char>) -> Seq<char>;

/// What chrono writes for an instant as RFC 3339 in UTC, with `Z` and with as
/// many fraction digits as the nanoseconds need.
pub uninterp spec fn rfc3339_text(secs: int, nanos: int) -> Seq<char>;

/// What chrono reads from `text` as an RFC 3339 timestamp, as seconds and
/// nanoseconds in UTC, or `None` when it is not one.
pub uninterp spec fn rfc3339_instant(text: Seq<char>) -> Option<(int, int)>;

/// The `strftime` patterns this library formats with.
pub open spec fn known_pattern(pattern: Seq<char>) -> bool {
    pattern == "%Y%m%d"@ || pattern == "%Y.%m.%d"@ || pattern == "%y%m%d%H%M%S"@
}

/// Relies on `DateTime::<Utc>::from_timestamp`, which accepts every second in the
/// supported range, and on `DateTime::format` with one of the library's patterns.
#[verifier::external_body]
pub(crate) fn format_utc(secs: i64, pattern: &str) -> (r: String)
    requires
        secs_in_range(secs as int),
        known_pattern(pattern@),
    ensures
        r@ == utc_text(secs as int, pattern@),
{
    DateTime::<Utc>::from_timestamp(secs, 0).unwrap().format(pattern).to_string()
}

/// Relies on `DateTime::to_rfc3339_opts` with `SecondsFormat::AutoSi` and `Z`,
/// the form in which chrono serializes a `DateTime<Utc>`.
#[verifier::external_body]
pub(crate) fn rfc3339(t: UtcTime) -> (r: String)
    requires
        t.wf(),
    ensures
        r@ == rfc3339_text(t.secs as int, t.nanos as int),
{
    DateTime::<Utc>::from_timestamp(t.secs, t.nanos).unwrap().to_rfc3339_opts(
        SecondsFormat::AutoSi,
        true,
    )
}

/// Relies on `DateTime::parse_from_rfc3339`. An RFC 3339 year has four digits and
/// an offset stays within a day, so what it reads lies in the supported range.
#[verifier::external_body]
pub(crate) fn parse_rfc3339(text: &str) -> (r: Option<UtcTime>)
    ensures
        r is None ==> rfc3339_instant(text@) is None,
        r is Some ==> rfc3339_instant(text@) == Some((r->0.secs as int, r->0.nanos as int)),
        r is Some ==> r->0.wf(),
{
    DateTime::parse_from_rfc3339(text).ok().map(
        |t| UtcTime { secs: t.timestamp(), nanos: t.timestamp_subsec_nanos() },
    )
}

} // verus!
