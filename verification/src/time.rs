//! UTC timestamps, as whole seconds since the Unix epoch and nanoseconds.
use vstd::prelude::*;

verus! {

/// Whether chrono's `DateTime::<Utc>::from_timestamp(secs, nanos)` gives a time:
/// its day lies from January 1 of the year -262143 to December 31 of 262142
/// (chrono's date range), and `nanos` is under one billion, or under two billion
/// in the last second of a minute (a leap second).
pub open spec fn chrono_utc_valid(secs: i64, nanos: u32) -> bool {
    &&& -8_334_601_228_800 <= secs <= 8_210_266_876_799
    &&& (nanos < 1_000_000_000 || (nanos < 2_000_000_000 && secs % 60 == 59))
}

/// The text that chrono's `Display` writes for the UTC time `(secs, nanos)`,
/// like `2015-05-15 00:00:00 UTC`.
pub uninterp spec fn chrono_utc_display(secs: i64, nanos: u32) -> Seq<char>;

/// The RFC 3339 text that chrono's `to_rfc3339` writes for the UTC time
/// `(secs, nanos)`, like `2015-05-15T00:00:00+00:00`.
pub uninterp spec fn chrono_utc_rfc3339(secs: i64, nanos: u32) -> Seq<char>;

/// Whether chrono accepts `(secs, nanos)` as a UTC time: calls
/// `chrono::DateTime::<Utc>::from_timestamp` and tells whether it gave one.
/// chrono's source splits `secs` into days and seconds of the day, accepts the
/// days of its date range and refuses a time of day whose nanoseconds reach one
/// billion outside the last second of a minute.
#[verifier::external_body]
fn utc_valid(secs: i64, nanos: u32) -> (r: bool)
    ensures
        r == chrono_utc_valid(secs, nanos),
{
    chrono::DateTime::<chrono::Utc>::from_timestamp(secs, nanos).is_some()
}

/// Formats a UTC time with chrono's `Display` for `DateTime<Utc>` (the result
/// is named, not stated).
#[verifier::external_body]
fn utc_display(secs: i64, nanos: u32) -> (r: String)
    requires
        chrono_utc_valid(secs, nanos),
    ensures
        r@ == chrono_utc_display(secs, nanos),
{
    chrono::DateTime::<chrono::Utc>::from_timestamp(secs, nanos).unwrap().to_string()
}

/// Formats a UTC time with chrono's `DateTime::to_rfc3339` (the result is
/// named, not stated).
#[verifier::external_body]
fn utc_rfc3339(secs: i64, nanos: u32) -> (r: String)
    requires
        chrono_utc_valid(secs, nanos),
    ensures
        r@ == chrono_utc_rfc3339(secs, nanos),
{
    chrono::DateTime::<chrono::Utc>::from_timestamp(secs, nanos).unwrap().to_rfc3339()
}

/// Reads the clock with chrono's `Utc::now()` and returns its `timestamp()` and
/// `timestamp_subsec_nanos()`. chrono builds that time with `from_timestamp`
/// from the whole seconds and the sub-second nanoseconds of the system clock's
/// distance past the Unix epoch, so the seconds are not negative and the
/// nanoseconds are under one billion; chrono panics where the system clock is
/// set before 1970. Which time it is, nothing here can say.
#[verifier::external_body]
fn utc_now() -> (r: (i64, u32))
    ensures
        chrono_utc_valid(r.0, r.1),
        r.0 >= 0,
        r.1 < 1_000_000_000,
{
    let t = chrono::Utc::now();
    (t.timestamp(), t.timestamp_subsec_nanos())
}

/// chrono's `DateTime::<Utc>::UNIX_EPOCH` as `timestamp()` and
/// `timestamp_subsec_nanos()`: 1970-01-01 00:00:00, which is zero seconds and
/// zero nanoseconds after the epoch by the definition of `timestamp`.
#[verifier::external_body]
fn utc_epoch() -> (r: (i64, u32))
    ensures
        chrono_utc_valid(r.0, r.1),
        r.0 == 0,
        r.1 == 0,
{
    let t = chrono::DateTime::<chrono::Utc>::UNIX_EPOCH;
    (t.timestamp(), t.timestamp_subsec_nanos())
}

/// A point in time, in UTC.
#[derive(Debug)]
pub struct Timestamp {
    secs: i64,
    nanos: u32,
}

impl Timestamp {
    #[verifier::type_invariant]
    spec fn valid(self) -> bool {
        chrono_utc_valid(self.secs, self.nanos)
    }

    /// Seconds since the Unix epoch and nanoseconds since the last second.
    pub closed spec fn parts(self) -> (i64, u32) {
        (self.secs, self.nanos)
    }

    /// The time `secs` seconds and `nanos` nanoseconds after the Unix epoch,
    /// where chrono accepts it.
    pub fn from_parts(secs: i64, nanos: u32) -> (r: Option<Timestamp>)
        ensures
            r is Some <==> chrono_utc_valid(secs, nanos),
            r matches Some(t) ==> t.parts() == (secs, nanos),
    {
        if utc_valid(secs, nanos) {
            Some(Timestamp { secs, nanos })
        } else {
            None
        }
    }

    /// The current time: a time at or after the Unix epoch, with fewer than
    /// one billion nanoseconds past its second.
    pub fn now() -> (r: Timestamp)
        ensures
            r.parts().0 >= 0,
            r.parts().1 < 1_000_000_000,
    {
        let (secs, nanos) = utc_now();
        Timestamp { secs, nanos }
    }

    /// 1970-01-01 00:00:00 UTC.
    pub fn unix_epoch() -> (r: Timestamp)
        ensures
            r.parts() == (0i64, 0u32),
    {
        let (secs, nanos) = utc_epoch();
        Timestamp { secs, nanos }
    }

    /// Seconds since the Unix epoch.
    pub fn secs(&self) -> (r: i64)
        ensures
            r == self.parts().0,
    {
        self.secs
    }

    /// Nanoseconds since the last whole second.
    pub fn nanos(&self) -> (r: u32)
        ensures
            r == self.parts().1,
    {
        self.nanos
    }

    /// The time as chrono displays it, like `2015-05-15 00:00:00 UTC`.
    pub fn to_display_string(&self) -> (r: String)
        ensures
            r@ == chrono_utc_display(self.parts().0, self.parts().1),
    {
        proof {
            use_type_invariant(self);
        }
        utc_display(self.secs, self.nanos)
    }

    /// The time in RFC 3339 form, like `2015-05-15T00:00:00+00:00`.
    pub fn to_rfc3339(&self) -> (r: String)
        ensures
            r@ == chrono_utc_rfc3339(self.parts().0, self.parts().1),
    {
        proof {
            use_type_invariant(self);
        }
        utc_rfc3339(self.secs, self.nanos)
    }
}

impl Clone for Timestamp {
    fn clone(&self) -> (r: Self)
        ensures
            r == *self,
    {
        proof {
            use_type_invariant(self);
        }
        Timestamp { secs: self.secs, nanos: self.nanos }
    }
}

} // verus!
