//! Instants on the UTC time line, as two integers.
use vstd::prelude::*;

verus! {

/// An instant: whole seconds since 1970-01-01T00:00:00Z and the nanoseconds
/// into that second. Instants are ordered by `secs`, then by `nanos`.
#[derive(Clone, Copy, Debug, PartialEq, Eq, Structural)]
pub struct Timestamp {
    pub secs: i64,
    pub nanos: u32,
}

impl Timestamp {
    /// `self` is not later than `other`.
    pub open spec fn at_or_before(self, other: Timestamp) -> bool {
        self.secs < other.secs || (self.secs == other.secs && self.nanos <= other.nanos)
    }

    /// `self` is earlier than `other`.
    pub open spec fn before(self, other: Timestamp) -> bool {
        self.secs < other.secs || (self.secs == other.secs && self.nanos < other.nanos)
    }

    pub fn new(secs: i64, nanos: u32) -> (t: Timestamp)
        ensures
            t.secs == secs,
            t.nanos == nanos,
    {
        Timestamp { secs, nanos }
    }

    /// Tests `self.at_or_before(other)`.
    pub fn is_at_or_before(&self, other: &Timestamp) -> (r: bool)
        ensures
            r == self.at_or_before(*other),
    {
        self.secs < other.secs || (self.secs == other.secs && self.nanos <= other.nanos)
    }

    /// Tests `self.before(other)`.
    pub fn is_before(&self, other: &Timestamp) -> (r: bool)
        ensures
            r == self.before(*other),
    {
        self.secs < other.secs || (self.secs == other.secs && self.nanos < other.nanos)
    }
}

/// The order on instants is total: of two instants one is at or before the
/// other, and two that are each at or before the other are the same instant.
pub proof fn law_order_total(a: Timestamp, b: Timestamp)
    ensures
        a.at_or_before(b) || b.at_or_before(a),
        a.at_or_before(b) && b.at_or_before(a) ==> a == b,
        a.before(b) <==> !b.at_or_before(a),
{
}

/// The order on instants is transitive.
pub proof fn law_order_transitive(a: Timestamp, b: Timestamp, c: Timestamp)
    requires
        a.at_or_before(b),
        b.at_or_before(c),
    ensures
        a.at_or_before(c),
{
}

/// The instant that an RFC 3339 date-and-time string denotes, if it is one.
pub uninterp spec fn rfc3339_instant(text: Seq<char>) -> Option<Timestamp>;

/// The RFC 3339 date-and-time string that `chrono` writes for an instant,
/// in UTC, with as many digits behind the seconds as the instant needs in
/// groups of three; UTC is written as `Z` where `zulu` holds and as
/// `+00:00` where it does not. Nothing for an instant that `chrono` has no
/// date for.
pub uninterp spec fn rfc3339_text(t: Timestamp, zulu: bool) -> Option<Seq<char>>;

/// Reads the system clock through `chrono::Utc::now`.
///
/// Nothing is claimed of the instant returned: it is whatever the clock says.
/// `chrono` panics where the clock stands before 1970.
#[verifier::external_body]
pub(crate) fn now() -> (t: Timestamp) {
    let t = chrono::Utc::now();
    Timestamp { secs: t.timestamp(), nanos: t.timestamp_subsec_nanos() }
}

/// Parses an RFC 3339 date-and-time string with
/// `chrono::DateTime::parse_from_rfc3339`.
///
/// The contract gives the result a name: the same text always denotes the same
/// instant, taken in UTC whatever offset the text carries, and a text that
/// `chrono` rejects denotes none.
#[verifier::external_body]
pub(crate) fn parse_rfc3339(text: &str) -> (t: Option<Timestamp>)
    ensures
        t == rfc3339_instant(text@),
{
    match chrono::DateTime::parse_from_rfc3339(text) {
        Ok(t) => Some(Timestamp { secs: t.timestamp(), nanos: t.timestamp_subsec_nanos() }),
        Err(_) => None,
    }
}

/// Writes an instant with `chrono::DateTime::to_rfc3339_opts`, after
/// `chrono::DateTime::from_timestamp` made a date of it.
///
/// The contract gives the result a name: the same instant is always
/// written in the same way.
#[verifier::external_body]
pub(crate) fn write_rfc3339(t: Timestamp, zulu: bool) -> (text: Option<String>)
    ensures
        match text {
            Some(s) => rfc3339_text(t, zulu) == Some(s@),
            None => rfc3339_text(t, zulu) is None,
        },
{
    chrono::DateTime::from_timestamp(t.secs, t.nanos).map(
        |d| d.to_rfc3339_opts(chrono::SecondsFormat::AutoSi, zulu),
    )
}

impl Timestamp {
    /// The instant that an RFC 3339 date-and-time string denotes.
    pub fn parse(text: &str) -> (t: Option<Timestamp>)
        ensures
            t == rfc3339_instant(text@),
    {
        parse_rfc3339(text)
    }

    /// The instant as an RFC 3339 date-and-time string.
    pub fn write(&self, zulu: bool) -> (text: Option<String>)
        ensures
            match text {
                Some(s) => rfc3339_text(*self, zulu) == Some(s@),
                None => rfc3339_text(*self, zulu) is None,
            },
    {
        write_rfc3339(*self, zulu)
    }
}

} // verus!
