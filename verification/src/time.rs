//! Instants in UTC, the system clock, and how an instant is written out.
//!
//! The calendar is chrono's. An instant is held here as two plain numbers,
//! so that the rest of the library can compare and copy it, and only such
//! pairs of numbers are instants as chrono has a date and a time of day for.

use vstd::prelude::*;

verus! {

/// The RFC 3339 writing that chrono gives the instant `secs` seconds and
/// `nanos` nanoseconds after 1970-01-01T00:00:00Z, or `None` where chrono
/// has no such instant.
pub uninterp spec fn rfc3339_text(secs: i64, nanos: u32) -> Option<Seq<char>>;

/// An instant in UTC: whole seconds since 1970-01-01T00:00:00Z and the
/// nanoseconds past that second.
#[derive(Clone, Copy, Debug, PartialEq, Eq, Structural)]
pub struct Timestamp {
    secs: i64,
    nanos: u32,
}

/// Builds the instant with chrono's `DateTime::from_timestamp` and writes it
/// with `DateTime::to_rfc3339`.
///
/// The contract only gives the outcome its name: the text, or the refusal of
/// `from_timestamp`, is a function of the two numbers alone.
#[verifier::external_body]
fn rfc3339(secs: i64, nanos: u32) -> (text: Option<String>)
    ensures
        written(text) == rfc3339_text(secs, nanos),
{
    match chrono::DateTime::from_timestamp(secs, nanos) {
        Some(instant) => Some(instant.to_rfc3339()),
        None => None,
    }
}

/// Reads the system clock with chrono's `Utc::now` and takes the instant
/// apart with `DateTime::timestamp` and `DateTime::timestamp_subsec_nanos`.
///
/// Of the instant that comes back only this is claimed: chrono has it.
/// chrono documents that `from_timestamp` gives back the instant from which
/// `timestamp` and `timestamp_subsec_nanos` took the two numbers. chrono
/// panics here if the system clock stands before 1970.
#[verifier::external_body]
pub(crate) fn system_time() -> (now: Timestamp)
    ensures
        rfc3339_text(now.seconds(), now.nanoseconds()).is_some(),
{
    let now = chrono::Utc::now();
    Timestamp { secs: now.timestamp(), nanos: now.timestamp_subsec_nanos() }
}

/// The text of an optional string.
pub open spec fn written(text: Option<String>) -> Option<Seq<char>> {
    match text {
        Some(s) => Some(s@),
        None => None,
    }
}

impl Timestamp {
    #[verifier::type_invariant]
    spec fn on_calendar(self) -> bool {
        rfc3339_text(self.secs, self.nanos).is_some()
    }

    /// The whole seconds since 1970-01-01T00:00:00Z.
    pub closed spec fn seconds(self) -> i64 {
        self.secs
    }

    /// The nanoseconds past the whole second.
    pub closed spec fn nanoseconds(self) -> u32 {
        self.nanos
    }

    /// The RFC 3339 writing of the instant.
    pub open spec fn text(self) -> Seq<char> {
        rfc3339_text(self.seconds(), self.nanoseconds()).unwrap()
    }

    /// The instant `secs` seconds and `nanos` nanoseconds after
    /// 1970-01-01T00:00:00Z; `None` where chrono has no such instant.
    pub fn new(secs: i64, nanos: u32) -> (instant: Option<Timestamp>)
        ensures
            instant.is_some() == rfc3339_text(secs, nanos).is_some(),
            instant.is_some() ==> instant.unwrap().seconds() == secs
                && instant.unwrap().nanoseconds() == nanos,
    {
        match rfc3339(secs, nanos) {
            Some(_) => Some(Timestamp { secs, nanos }),
            None => None,
        }
    }

    /// The whole seconds since 1970-01-01T00:00:00Z.
    pub fn secs(&self) -> (secs: i64)
        ensures
            secs == self.seconds(),
    {
        self.secs
    }

    /// The nanoseconds past the whole second.
    pub fn nanos(&self) -> (nanos: u32)
        ensures
            nanos == self.nanoseconds(),
    {
        self.nanos
    }

    /// The RFC 3339 writing of the instant.
    pub fn to_text(&self) -> (text: String)
        ensures
            text@ == self.text(),
    {
        proof {
            use_type_invariant(self);
        }
        rfc3339(self.secs, self.nanos).unwrap()
    }
}

} // verus!
