use chrono::{DateTime, SecondsFormat, Utc};
use vstd::prelude::*;

verus! {

/// First second that a `Timestamp` can hold: 0000-01-01T00:00:00Z.
pub const MIN_SECS: i64 = -62167219200;

/// Last second that a `Timestamp` can hold: 9999-12-31T23:59:59Z.
pub const MAX_SECS: i64 = 253402300799;

pub const NANOS_PER_SEC: u32 = 1000000000;

/// An instant in UTC: whole seconds since the Unix epoch and the
/// nanoseconds past that second.
#[derive(Debug, Clone, Copy, PartialEq, Eq, Structural)]
pub struct Timestamp {
    pub secs: i64,
    pub nanos: u32,
}

/// RFC 3339 text of an instant, as chrono writes it for JSON.
pub uninterp spec fn rfc3339_text(secs: i64, nanos: u32) -> Seq<char>;

/// Human-readable text of an instant, as chrono displays a UTC date-time.
pub uninterp spec fn utc_display_text(secs: i64, nanos: u32) -> Seq<char>;

/// The instant that chrono reads from a text, if it reads one.
pub uninterp spec fn rfc3339_value(s: Seq<char>) -> Option<(i64, u32)>;

impl Timestamp {
    /// Within the years 0000 to 9999, with a sub-second part below one second.
    pub open spec fn wf(self) -> bool {
        MIN_SECS <= self.secs <= MAX_SECS && self.nanos < NANOS_PER_SEC
    }

    /// The instant in JSON.
    pub open spec fn json_text(self) -> Seq<char> {
        rfc3339_text(self.secs, self.nanos)
    }

    /// The instant in a query string.
    pub open spec fn display_text(self) -> Seq<char> {
        utc_display_text(self.secs, self.nanos)
    }

    /// Reading back the JSON text of this instant gives the instant again.
    pub open spec fn reads_back(self) -> bool {
        timestamp_of_text(self.json_text()) == Some(self)
    }

    pub fn from_unix(secs: i64, nanos: u32) -> (r: Option<Timestamp>)
        ensures
            r matches Some(t) ==> t.secs == secs && t.nanos == nanos,
            r is Some <==> (Timestamp { secs, nanos }).wf(),
    {
        if MIN_SECS <= secs && secs <= MAX_SECS && nanos < NANOS_PER_SEC {
            Some(Timestamp { secs, nanos })
        } else {
            None
        }
    }

    /// The current time.
    pub fn now() -> Timestamp {
        let (secs, nanos) = current_unix_time();
        Timestamp { secs, nanos }
    }

    pub fn to_json_text(&self) -> (r: String)
        ensures
            r@ == self.json_text(),
    {
        format_rfc3339(self.secs, self.nanos)
    }

    pub fn to_display_text(&self) -> (r: String)
        ensures
            r@ == self.display_text(),
    {
        format_utc_display(self.secs, self.nanos)
    }

    /// Reads an instant from JSON text; `None` where chrono reads none or
    /// where it lies outside the range a `Timestamp` holds.
    pub fn from_json_text(s: &str) -> (r: Option<Timestamp>)
        ensures
            r == timestamp_of_text(s@),
    {
        match parse_rfc3339(s) {
            Some((secs, nanos)) => Timestamp::from_unix(secs, nanos),
            None => None,
        }
    }
}

/// The valid instant that a JSON text denotes.
pub open spec fn timestamp_of_text(s: Seq<char>) -> Option<Timestamp> {
    match rfc3339_value(s) {
        Some((secs, nanos)) => {
            let t = Timestamp { secs, nanos };
            if t.wf() {
                Some(t)
            } else {
                None
            }
        },
        None => None,
    }
}

/// Relies on chrono's `Utc::now`, read as Unix seconds and nanoseconds.
/// Nothing is known of the instant it returns.
#[verifier::external_body]
fn current_unix_time() -> (i64, u32) {
    let now = Utc::now();
    (now.timestamp(), now.timestamp_subsec_nanos())
}

/// Relies on chrono's `DateTime::from_timestamp` and
/// `to_rfc3339_opts(SecondsFormat::AutoSi, true)`, the form that chrono's
/// serde support writes. An instant chrono cannot hold gives the empty text.
#[verifier::external_body]
fn format_rfc3339(secs: i64, nanos: u32) -> (r: String)
    ensures
        r@ == rfc3339_text(secs, nanos),
{
    match DateTime::from_timestamp(secs, nanos) {
        Some(t) => t.to_rfc3339_opts(SecondsFormat::AutoSi, true),
        None => String::new(),
    }
}

/// Relies on chrono's `DateTime::from_timestamp` and the `Display` of
/// `DateTime<Utc>`. An instant chrono cannot hold gives the empty text.
#[verifier::external_body]
fn format_utc_display(secs: i64, nanos: u32) -> (r: String)
    ensures
        r@ == utc_display_text(secs, nanos),
{
    match DateTime::from_timestamp(secs, nanos) {
        Some(t) => t.to_string(),
        None => String::new(),
    }
}

/// Relies on chrono's `FromStr` for `DateTime<Utc>` (the parser behind its
/// serde support), read back as Unix seconds and nanoseconds.
#[verifier::external_body]
fn parse_rfc3339(s: &str) -> (r: Option<(i64, u32)>)
    ensures
        r == rfc3339_value(s@),
{
    match s.parse::<DateTime<Utc>>() {
        Ok(t) => Some((t.timestamp(), t.timestamp_subsec_nanos())),
        Err(_) => None,
    }
}

} // verus!
