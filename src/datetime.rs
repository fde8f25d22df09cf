use chrono::{DateTime, Utc};
use vstd::prelude::*;

verus! {

/// The earliest second, counted from the Unix epoch, of a chrono `DateTime<Utc>`
/// (January 1 of year -262143, midnight).
pub const MIN_TIMESTAMP: i64 = -8334601315200;

/// The latest second, counted from the Unix epoch, of a chrono `DateTime<Utc>`
/// (December 31 of year 262142, 23:59:59).
pub const MAX_TIMESTAMP: i64 = 8210266876799;

pub const NANOS_PER_SEC: u32 = 1_000_000_000;

/// An instant that chrono can hold as a `DateTime<Utc>`: whole seconds from the
/// epoch in its range, and a sub-second part in nanoseconds that reaches past one
/// second only for a leap second, on the last second of a minute.
pub open spec fn representable(secs: int, nanos: int) -> bool {
    &&& MIN_TIMESTAMP <= secs <= MAX_TIMESTAMP
    &&& 0 <= nanos < 2 * NANOS_PER_SEC
    &&& nanos >= NANOS_PER_SEC ==> secs % 60 == 59
}

/// The instant, as (seconds from the epoch, nanoseconds), that an RFC 3339 text
/// denotes, or `None` where the text is not a valid RFC 3339 date and time.
pub uninterp spec fn rfc3339_instant(s: Seq<char>) -> Option<(int, int)>;

/// The RFC 3339 text, in UTC, of an instant given as (seconds, nanoseconds).
pub uninterp spec fn rfc3339_text(secs: int, nanos: int) -> Seq<char>;

/// Relies on chrono's `DateTime::parse_from_rfc3339`, whose result is turned into
/// UTC seconds and nanoseconds (`with_timezone`, `timestamp`,
/// `timestamp_subsec_nanos`); it fails on any text that is not RFC 3339, and what
/// it builds lies in chrono's range.
#[verifier::external_body]
fn parse_rfc3339(s: &str) -> (r: Option<(i64, u32)>)
    ensures
        match r {
            Some((secs, nanos)) => rfc3339_instant(s@) == Some((secs as int, nanos as int))
                && representable(secs as int, nanos as int),
            None => rfc3339_instant(s@) is None,
        },
{
    match DateTime::parse_from_rfc3339(s) {
        Ok(dt) => {
            let utc = dt.with_timezone(&Utc);
            Some((utc.timestamp(), utc.timestamp_subsec_nanos()))
        },
        Err(_) => None,
    }
}

/// Relies on chrono's `DateTime::from_timestamp`, which gives a value for every
/// representable instant, and on `DateTime::<Utc>::to_rfc3339` for its text.
#[verifier::external_body]
fn format_rfc3339(secs: i64, nanos: u32) -> (r: String)
    requires
        representable(secs as int, nanos as int),
    ensures
        r@ == rfc3339_text(secs as int, nanos as int),
{
    DateTime::from_timestamp(secs, nanos).unwrap().to_rfc3339()
}

/// Relies on chrono's `Utc::now`: the current instant of the system clock, which
/// chrono holds only in its range.
#[verifier::external_body]
fn utc_now() -> (r: (i64, u32))
    ensures
        representable(r.0 as int, r.1 as int),
{
    let now = Utc::now();
    (now.timestamp(), now.timestamp_subsec_nanos())
}

/// Why a text is not accepted as a timestamp.
#[derive(Clone, Copy, Debug, PartialEq, Eq)]
pub enum DateTimeError {
    /// The text is not a valid RFC 3339 date and time.
    InvalidFormat,
}

/// A point in time, held as whole seconds from the Unix epoch (UTC) and the
/// nanoseconds past that second.
#[derive(Clone, Copy, Debug, PartialEq, Eq)]
pub struct DateTimeScalar {
    secs: i64,
    nanos: u32,
}

impl View for DateTimeScalar {
    type V = (int, int);

    closed spec fn view(&self) -> (int, int) {
        (self.secs as int, self.nanos as int)
    }
}

impl DateTimeScalar {
    #[verifier::type_invariant]
    spec fn inv(self) -> bool {
        representable(self.secs as int, self.nanos as int)
    }

    /// Reads an RFC 3339 text; any other text is a format error, never a default.
    pub fn parse(value: &String) -> (r: Result<DateTimeScalar, DateTimeError>)
        ensures
            match r {
                Ok(d) => rfc3339_instant(value@) == Some(d@) && representable(d@.0, d@.1),
                Err(e) => e == DateTimeError::InvalidFormat && rfc3339_instant(value@) is None,
            },
    {
        match parse_rfc3339(value.as_str()) {
            Some((secs, nanos)) => Ok(DateTimeScalar { secs, nanos }),
            None => Err(DateTimeError::InvalidFormat),
        }
    }

    /// The RFC 3339 text of this instant, in UTC.
    pub fn to_value(&self) -> (r: String)
        ensures
            r@ == rfc3339_text(self@.0, self@.1),
    {
        proof {
            use_type_invariant(self);
        }
        format_rfc3339(self.secs, self.nanos)
    }

    /// The current instant.
    pub fn now() -> (r: DateTimeScalar)
        ensures
            representable(r@.0, r@.1),
    {
        let (secs, nanos) = utc_now();
        DateTimeScalar { secs, nanos }
    }

    /// Whole seconds from the Unix epoch.
    pub fn timestamp(&self) -> (r: i64)
        ensures
            r as int == self@.0,
    {
        self.secs
    }

    /// Nanoseconds past the whole second.
    pub fn subsec_nanos(&self) -> (r: u32)
        ensures
            r as int == self@.1,
    {
        self.nanos
    }
}

} // verus!
