//! Instants and lengths of time, as plain values.
use vstd::prelude::*;
use chrono::ParseError as DateParseError;

verus! {

/// An instant in UTC: whole seconds since the Unix epoch, and the nanoseconds
/// within that second (at least a billion only during a leap second).
pub struct Timestamp {
    pub secs: i64,
    pub nanos: u32,
}

impl Timestamp {
    /// `self` comes strictly after `other`.
    pub open spec fn spec_is_after(self, other: Timestamp) -> bool {
        self.secs > other.secs || (self.secs == other.secs && self.nanos > other.nanos)
    }

    /// Whether `self` comes strictly after `other`.
    pub fn is_after(&self, other: &Timestamp) -> (res: bool)
        ensures
            res == self.spec_is_after(*other),
    {
        self.secs > other.secs || (self.secs == other.secs && self.nanos > other.nanos)
    }
}

/// A length of time: whole seconds and the nanoseconds beyond them.
pub struct Duration {
    pub secs: u64,
    pub nanos: u32,
}

/// What `DateTime::<Utc>::from_str` makes of `text`: the instant as
/// (`timestamp()`, `timestamp_subsec_nanos()`), or `None` where it refuses the text.
pub uninterp spec fn parsed_instant(text: Seq<char>) -> Option<(i64, u32)>;

/// `DateTime::<Utc>::from_str` (a relaxed RFC 3339 parser), read back as a
/// `Timestamp`. The contract claims only that the outcome is a function of the
/// text, named `parsed_instant`; which texts it accepts is not stated.
#[verifier::external_body]
pub(crate) fn parse_instant(text: &str) -> (res: Result<Timestamp, DateParseError>)
    ensures
        match res {
            Ok(t) => parsed_instant(text@) == Some((t.secs, t.nanos)),
            Err(_) => parsed_instant(text@) is None,
        },
{
    match text.parse::<chrono::DateTime<chrono::Utc>>() {
        Ok(dt) => Ok(Timestamp { secs: dt.timestamp(), nanos: dt.timestamp_subsec_nanos() }),
        Err(e) => Err(e),
    }
}

/// The system clock read as `chrono::DateTime::<Utc>::from(SystemTime::now())`,
/// then taken back as a `Timestamp`. chrono's `From<SystemTime>` turns a clock
/// set before the Unix epoch into negative seconds; it still unwraps the
/// instant, so a clock outside chrono's range (some 262,000 years around the
/// year 0) would panic there. Nothing is stated of the instant read.
#[verifier::external_body]
pub(crate) fn utc_now() -> (res: Timestamp) {
    let now: chrono::DateTime<chrono::Utc> = chrono::DateTime::from(std::time::SystemTime::now());
    Timestamp { secs: now.timestamp(), nanos: now.timestamp_subsec_nanos() }
}

} // verus!
