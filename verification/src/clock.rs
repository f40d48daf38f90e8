//! Instants on the UTC time line, and their rendering as RFC 2822 text.

use vstd::prelude::*;

verus! {

/// Seconds since the Unix epoch of 0000-01-01T00:00:00Z.
pub const FIRST_SECOND: i64 = -62_167_219_200;

/// Seconds since the Unix epoch of 9999-12-31T23:59:59Z.
pub const LAST_SECOND: i64 = 253_402_300_799;

/// Nanoseconds in one second.
pub const NANOS_PER_SECOND: u32 = 1_000_000_000;

/// Whether `secs` is the last second of a minute.
pub open spec fn ends_minute(secs: i64) -> bool {
    (secs - FIRST_SECOND) % 60 == 59
}

/// Whether `secs` and `nanos` denote an instant in the years 0 through 9999,
/// the range in which RFC 2822 can write a date. A leap second is written as
/// the last second of a minute with a second or more of nanoseconds.
pub open spec fn in_calendar(secs: i64, nanos: u32) -> bool {
    &&& FIRST_SECOND <= secs <= LAST_SECOND
    &&& nanos < NANOS_PER_SECOND || (nanos < 2 * NANOS_PER_SECOND && ends_minute(secs))
}

/// An instant in the years 0 through 9999, as whole seconds since the Unix
/// epoch and the nanoseconds into that second.
#[derive(Clone, Copy, Debug, PartialEq, Eq, PartialOrd, Ord)]
pub struct Timestamp {
    secs: i64,
    nanos: u32,
}

impl Timestamp {
    #[verifier::type_invariant]
    spec fn in_range(self) -> bool {
        in_calendar(self.secs, self.nanos)
    }

    /// Whole seconds since the Unix epoch.
    pub closed spec fn spec_secs(&self) -> i64 {
        self.secs
    }

    /// Nanoseconds into the second.
    pub closed spec fn spec_nanos(&self) -> u32 {
        self.nanos
    }

    /// Position on the time line: a number that is larger for the later of
    /// two instants. A leap second lies between the second it is written with
    /// and the next.
    pub open spec fn instant(&self) -> int {
        self.spec_secs() * 2_000_000_000 + self.spec_nanos()
    }

    /// The instant `secs` and `nanos`, where the calendar reaches it.
    pub fn new(secs: i64, nanos: u32) -> (made: Option<Timestamp>)
        ensures
            made is Some <==> in_calendar(secs, nanos),
            made is Some ==> made->0.spec_secs() == secs && made->0.spec_nanos() == nanos,
    {
        if secs < FIRST_SECOND || secs > LAST_SECOND {
            return None;
        }
        if nanos < NANOS_PER_SECOND {
            return Some(Timestamp { secs, nanos });
        }
        let leap = nanos < 2 * NANOS_PER_SECOND && (secs - FIRST_SECOND) % 60 == 59;
        if leap {
            Some(Timestamp { secs, nanos })
        } else {
            None
        }
    }

    #[verifier::when_used_as_spec(spec_secs)]
    pub fn secs(&self) -> (secs: i64)
        ensures
            secs == self.spec_secs(),
    {
        self.secs
    }

    #[verifier::when_used_as_spec(spec_nanos)]
    pub fn nanos(&self) -> (nanos: u32)
        ensures
            nanos == self.spec_nanos(),
    {
        self.nanos
    }

    /// Whether `self` is strictly later than `other`.
    pub fn is_after(&self, other: &Timestamp) -> (later: bool)
        ensures
            later == (self.instant() > other.instant()),
    {
        proof {
            use_type_invariant(self);
            use_type_invariant(other);
        }
        self.secs > other.secs || (self.secs == other.secs && self.nanos > other.nanos)
    }

    /// The instant as RFC 2822 text, such as `Tue, 1 Jul 2003 10:52:37 +0000`.
    pub fn to_rfc2822(&self) -> (text: String)
        ensures
            text@ == rfc2822_text(self.spec_secs(), self.spec_nanos()),
    {
        proof {
            use_type_invariant(self);
        }
        format_rfc2822(self.secs, self.nanos)
    }
}

/// What `chrono::DateTime::<Utc>::to_rfc2822` writes for the instant `secs`
/// seconds and `nanos` nanoseconds after the Unix epoch.
pub uninterp spec fn rfc2822_text(secs: i64, nanos: u32) -> Seq<char>;

/// Calls `chrono::DateTime::from_timestamp` and, on the instant it makes,
/// `chrono::DateTime::to_rfc2822`. The text depends on the instant alone: the
/// zone is UTC and the names of days and months are the English ones. Left
/// out are the years outside 0 through 9999, on which the second call panics,
/// and the pairs of seconds and nanoseconds of which the first makes no
/// instant.
#[verifier::external_body]
fn format_rfc2822(secs: i64, nanos: u32) -> (text: String)
    requires
        in_calendar(secs, nanos),
    ensures
        text@ == rfc2822_text(secs, nanos),
{
    chrono::DateTime::from_timestamp(secs, nanos).unwrap_or_default().to_rfc2822()
}

} // verus!
