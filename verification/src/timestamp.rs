//! Instants in UTC, read from and written as RFC 3339 text by `chrono`.

use vstd::prelude::*;

verus! {

/// The first second that a [`Timestamp`] can hold (the start of the year
/// -262143), counted from 1970-01-01T00:00:00Z.
pub const MIN_SECS: i64 = -8334601228800;

/// The last second that a [`Timestamp`] can hold (the end of the year
/// 262142), counted from 1970-01-01T00:00:00Z.
pub const MAX_SECS: i64 = 8210266876799;

/// Whether `chrono::DateTime::from_timestamp` makes an instant of a second and
/// its nanoseconds. Nanoseconds from one billion up stand for a leap second, which
/// follows the last second of a minute.
pub open spec fn representable(secs: i64, nanos: u32) -> bool {
    &&& MIN_SECS <= secs <= MAX_SECS
    &&& nanos < 2_000_000_000
    &&& nanos >= 1_000_000_000 ==> secs % 60 == 59
}

/// The instant in an RFC 3339 text as seconds since the epoch and nanoseconds,
/// or the description of what is wrong with the text.
pub uninterp spec fn rfc3339_instant(text: Seq<char>) -> Result<(i64, u32), Seq<char>>;

/// The RFC 3339 text of an instant in UTC.
pub uninterp spec fn rfc3339_text(secs: i64, nanos: u32) -> Seq<char>;

/// `chrono::DateTime::parse_from_rfc3339`, its result taken to UTC: the
/// instant, which `from_timestamp` makes too, or the text of the error.
#[verifier::external_body]
fn parse_from_rfc3339(text: &str) -> (read: Result<(i64, u32), String>)
    ensures
        match read {
            Ok((secs, nanos)) => {
                &&& rfc3339_instant(text@) == Ok::<(i64, u32), Seq<char>>((secs, nanos))
                &&& representable(secs, nanos)
            },
            Err(problem) => rfc3339_instant(text@) == Err::<(i64, u32), Seq<char>>(problem@),
        },
{
    match chrono::DateTime::parse_from_rfc3339(text) {
        Ok(local) => {
            let utc = local.with_timezone(&chrono::Utc);
            Ok((utc.timestamp(), utc.timestamp_subsec_nanos()))
        },
        Err(problem) => Err(problem.to_string()),
    }
}

/// `chrono::DateTime::<Utc>::to_rfc3339` of the instant that
/// `chrono::DateTime::from_timestamp` makes of the two numbers; it makes one
/// of every representable pair.
#[verifier::external_body]
fn format_rfc3339(secs: i64, nanos: u32) -> (text: String)
    requires
        representable(secs, nanos),
    ensures
        text@ == rfc3339_text(secs, nanos),
{
    chrono::DateTime::<chrono::Utc>::from_timestamp(secs, nanos).unwrap().to_rfc3339()
}

/// An instant in UTC.
#[derive(Clone, Copy, Debug, PartialEq, Eq)]
pub struct Timestamp {
    secs: i64,
    nanos: u32,
}

impl View for Timestamp {
    type V = (i64, u32);

    closed spec fn view(&self) -> (i64, u32) {
        (self.secs, self.nanos)
    }
}

impl Timestamp {
    #[verifier::type_invariant]
    spec fn valid(self) -> bool {
        representable(self.secs, self.nanos)
    }

    /// The instant `nanos` nanoseconds after `secs` seconds since the epoch,
    /// where it is representable.
    pub fn new(secs: i64, nanos: u32) -> (instant: Option<Timestamp>)
        ensures
            match instant {
                Some(t) => representable(secs, nanos) && t@ == (secs, nanos),
                None => !representable(secs, nanos),
            },
    {
        if secs < MIN_SECS || secs > MAX_SECS || nanos >= 2_000_000_000 {
            return None;
        }
        if nanos >= 1_000_000_000 && (secs - MIN_SECS) % 60 != 59 {
            return None;
        }
        Some(Timestamp { secs, nanos })
    }

    /// Whole seconds since the epoch.
    pub fn secs(&self) -> (secs: i64)
        ensures
            secs == self@.0,
    {
        self.secs
    }

    /// Nanoseconds after the whole second.
    pub fn nanos(&self) -> (nanos: u32)
        ensures
            nanos == self@.1,
    {
        self.nanos
    }

    /// Reads an RFC 3339 text.
    pub fn parse(text: &str) -> (read: Result<Timestamp, String>)
        ensures
            match read {
                Ok(t) => rfc3339_instant(text@) == Ok::<(i64, u32), Seq<char>>(t@),
                Err(problem) => rfc3339_instant(text@) == Err::<(i64, u32), Seq<char>>(problem@),
            },
    {
        match parse_from_rfc3339(text) {
            Ok((secs, nanos)) => Ok(Timestamp { secs, nanos }),
            Err(problem) => Err(problem),
        }
    }

    /// The RFC 3339 text of the instant.
    pub fn to_rfc3339(&self) -> (text: String)
        ensures
            text@ == rfc3339_text(self@.0, self@.1),
    {
        proof {
            use_type_invariant(self);
        }
        format_rfc3339(self.secs, self.nanos)
    }
}

}
