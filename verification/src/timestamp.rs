use crate::links::target_text;
use vstd::prelude::*;

verus! {

/// The RFC 3339 text of the instant `secs` seconds and `nanos` nanoseconds
/// after 1970-01-01T00:00:00Z, written for the zone `offset` seconds east of
/// UTC; `None` where the three numbers denote no date and time.
pub uninterp spec fn rfc3339_text(secs: int, nanos: int, offset: int) -> Option<Seq<char>>;

/// Formats an instant with `chrono`.
///
/// The body builds the zone with `chrono::FixedOffset::east_opt` and the
/// instant with `chrono::DateTime::from_timestamp`, either of which gives
/// `None` for numbers out of its range, moves the instant to the zone with
/// `DateTime::with_timezone` and renders it with `DateTime::to_rfc3339`. The
/// contract only gives that result its name: the same three numbers always
/// give the same text. It does not say for which numbers there is a text.
#[verifier::external_body]
fn format_rfc3339(secs: i64, nanos: u32, offset: i32) -> (text: Option<String>)
    ensures
        target_text(text) == rfc3339_text(secs as int, nanos as int, offset as int),
{
    let zone = chrono::FixedOffset::east_opt(offset)?;
    let instant = chrono::DateTime::from_timestamp(secs, nanos)?;
    Some(instant.with_timezone(&zone).to_rfc3339())
}

/// An instant together with the zone it is written in.
///
/// Every value denotes a date and time that has an RFC 3339 text. Two values
/// are equal where they are the same instant, in whatever zones they are
/// written.
#[derive(Debug, Clone, Copy, Eq)]
pub struct Timestamp {
    secs: i64,
    nanos: u32,
    offset: i32,
}

impl Timestamp {
    #[verifier::type_invariant]
    spec fn has_text(self) -> bool {
        rfc3339_text(self.secs as int, self.nanos as int, self.offset as int) is Some
    }

    /// Seconds since 1970-01-01T00:00:00Z.
    pub closed spec fn spec_secs(&self) -> i64 {
        self.secs
    }

    /// Nanoseconds after the second.
    pub closed spec fn spec_nanos(&self) -> u32 {
        self.nanos
    }

    /// Seconds that the zone is east of UTC.
    pub closed spec fn spec_offset(&self) -> i32 {
        self.offset
    }

    /// The RFC 3339 text of the instant.
    pub open spec fn text(&self) -> Seq<char> {
        rfc3339_text(
            self.spec_secs() as int,
            self.spec_nanos() as int,
            self.spec_offset() as int,
        )->Some_0
    }

    /// The instant `secs` seconds and `nanos` nanoseconds after
    /// 1970-01-01T00:00:00Z, in the zone `offset` seconds east of UTC, where
    /// these denote a date and time.
    pub fn new(secs: i64, nanos: u32, offset: i32) -> (made: Option<Timestamp>)
        ensures
            made is Some <==> rfc3339_text(secs as int, nanos as int, offset as int) is Some,
            made matches Some(timestamp) ==> timestamp.spec_secs() == secs
                && timestamp.spec_nanos() == nanos && timestamp.spec_offset() == offset,
    {
        match format_rfc3339(secs, nanos, offset) {
            Some(_) => Some(Timestamp { secs, nanos, offset }),
            None => None,
        }
    }

    /// Seconds since 1970-01-01T00:00:00Z.
    #[verifier::when_used_as_spec(spec_secs)]
    pub fn secs(&self) -> (secs: i64)
        ensures
            secs == self.spec_secs(),
    {
        self.secs
    }

    /// Nanoseconds after the second.
    #[verifier::when_used_as_spec(spec_nanos)]
    pub fn nanos(&self) -> (nanos: u32)
        ensures
            nanos == self.spec_nanos(),
    {
        self.nanos
    }

    /// Seconds that the zone is east of UTC.
    #[verifier::when_used_as_spec(spec_offset)]
    pub fn offset(&self) -> (offset: i32)
        ensures
            offset == self.spec_offset(),
    {
        self.offset
    }

    /// The instant as RFC 3339 text, such as `1996-12-19T16:39:57-08:00`.
    pub fn to_rfc3339(&self) -> (text: String)
        ensures
            text@ == self.text(),
    {
        proof {
            use_type_invariant(self);
        }
        match format_rfc3339(self.secs, self.nanos, self.offset) {
            Some(text) => text,
            // Never taken: every timestamp has a text.
            None => String::new(),
        }
    }
}

impl PartialEq for Timestamp {
    fn eq(&self, other: &Timestamp) -> (same: bool) {
        self.secs == other.secs && self.nanos == other.nanos
    }
}

impl vstd::std_specs::cmp::PartialEqSpecImpl for Timestamp {
    open spec fn obeys_eq_spec() -> bool {
        true
    }

    open spec fn eq_spec(&self, other: &Timestamp) -> bool {
        self.spec_secs() == other.spec_secs() && self.spec_nanos() == other.spec_nanos()
    }
}

} // verus!
