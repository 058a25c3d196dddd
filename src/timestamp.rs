use vstd::prelude::*;

use crate::model::Timestamp;

verus! {

/// The largest distance from the epoch, in seconds, that every timestamp of
/// this library may have; well inside what chrono can represent.
pub const MAX_EPOCH_SECS: i64 = 8_000_000_000_000;

impl Timestamp {
    /// A timestamp that chrono can represent and that names no leap second.
    pub open spec fn valid(self) -> bool {
        &&& self.nanos < 1_000_000_000
        &&& -MAX_EPOCH_SECS <= self.secs <= MAX_EPOCH_SECS
    }
}

/// The RFC 3339 text chrono writes for an instant, if chrono can represent it.
pub uninterp spec fn rfc3339_of(secs: i64, nanos: u32) -> Option<Seq<char>>;

/// The instant chrono reads from a text, if it accepts the text.
pub uninterp spec fn parsed_rfc3339(s: Seq<char>) -> Option<(i64, u32)>;

/// The same instant as a `Timestamp`.
pub open spec fn parsed_timestamp(s: Seq<char>) -> Option<Timestamp> {
    match parsed_rfc3339(s) {
        Some((secs, nanos)) => Some(Timestamp { secs, nanos }),
        None => None,
    }
}

/// Relies on chrono's `DateTime::<Utc>::from_timestamp`, which builds the
/// instant (`None` when out of range), and `DateTime::to_rfc3339`, which
/// writes it.
#[verifier::external_body]
fn format_rfc3339(secs: i64, nanos: u32) -> (r: Option<String>)
    ensures
        r is Some <==> rfc3339_of(secs, nanos) is Some,
        r is Some ==> r->0@ == rfc3339_of(secs, nanos)->0,
        (Timestamp { secs, nanos }).valid() ==> r is Some,
{
    match chrono::DateTime::<chrono::Utc>::from_timestamp(secs, nanos) {
        Some(d) => Some(d.to_rfc3339()),
        None => None,
    }
}

/// Relies on chrono's `FromStr for DateTime<Utc>` (a relaxed RFC 3339), and
/// reads the instant back with `timestamp` and `timestamp_subsec_nanos`, which
/// chrono documents to round-trip through `from_timestamp`.
#[verifier::external_body]
fn parse_rfc3339(s: &str) -> (r: Option<Timestamp>)
    ensures
        r is Some <==> parsed_rfc3339(s@) is Some,
        r == parsed_timestamp(s@),
        r is Some ==> rfc3339_of(r->0.secs, r->0.nanos) is Some,
{
    match s.parse::<chrono::DateTime<chrono::Utc>>() {
        Ok(d) => Some(Timestamp { secs: d.timestamp(), nanos: d.timestamp_subsec_nanos() }),
        Err(_) => None,
    }
}

/// The JSON text of an optional timestamp: its RFC 3339 form when present
/// and absent otherwise; an error when chrono cannot represent the instant.
pub fn serialize_datetime(date: Option<Timestamp>) -> (r: Result<Option<String>, String>)
    ensures
        date is None ==> r matches Ok(None),
        date is Some && rfc3339_of(date->0.secs, date->0.nanos) is Some ==> r is Ok && r->Ok_0 is Some
            && r->Ok_0->0@ == rfc3339_of(date->0.secs, date->0.nanos)->0,
        date is Some && rfc3339_of(date->0.secs, date->0.nanos) is None ==> r is Err,
        date is Some && date->0.valid() ==> r is Ok,
{
    match date {
        None => Ok(None),
        Some(t) => match format_rfc3339(t.secs, t.nanos) {
            Some(s) => Ok(Some(s)),
            None => Err(String::from_str("timestamp out of range")),
        },
    }
}

/// Reads an optional timestamp from its JSON text: absent stays absent, and
/// present text must be an RFC 3339 date and time.
pub fn deserialize_datetime(s: Option<String>) -> (r: Result<Option<Timestamp>, String>)
    ensures
        s is None ==> r matches Ok(None),
        s is Some && parsed_timestamp(s->0@) is Some ==> r == Ok::<Option<Timestamp>, String>(
            parsed_timestamp(s->0@),
        ),
        s is Some && parsed_timestamp(s->0@) is None ==> r is Err,
{
    match s {
        None => Ok(None),
        Some(text) => match parse_rfc3339(text.as_str()) {
            Some(t) => Ok(Some(t)),
            None => Err(String::from_str("invalid RFC 3339 timestamp")),
        },
    }
}

} // verus!
