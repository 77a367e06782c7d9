use chrono::{DateTime, Utc};
use chrono_tz::US::Central;
use std::time::SystemTime;
use vstd::prelude::*;

verus! {

/// The last second that a calendar date and time can stand for: the end of
/// the year 262142.
pub const MAX_UNIX_SECONDS: i64 = 8_210_266_876_799;

/// The wall-clock reading in the US Central zone, as `YYYY-MM-DD HH:MM:SS`,
/// of the instant `secs` seconds after the Unix epoch.
pub uninterp spec fn central_time_text(secs: i64) -> Seq<char>;

/// The seconds of the instant nearest to `secs` seconds after the epoch.
pub open spec fn nearest_seconds(secs: i64) -> i64 {
    if secs < 0 {
        0
    } else if secs > MAX_UNIX_SECONDS {
        MAX_UNIX_SECONDS
    } else {
        secs
    }
}

/// An instant, in whole seconds since the Unix epoch, that is not before the
/// epoch and not after `MAX_UNIX_SECONDS`.
#[derive(Clone, Copy, Debug)]
pub struct Timestamp {
    secs: i64,
}

impl View for Timestamp {
    type V = i64;

    closed spec fn view(&self) -> i64 {
        self.secs
    }
}

impl Timestamp {
    #[verifier::type_invariant]
    spec fn in_range(self) -> bool {
        0 <= self.secs <= MAX_UNIX_SECONDS
    }

    /// The instant `secs` seconds after the epoch, or nothing where `secs`
    /// is negative or beyond `MAX_UNIX_SECONDS`.
    pub fn from_unix(secs: i64) -> (time: Option<Timestamp>)
        ensures
            time is Some <==> 0 <= secs <= MAX_UNIX_SECONDS,
            time matches Some(t) ==> t@ == secs,
    {
        if 0 <= secs && secs <= MAX_UNIX_SECONDS {
            Some(Timestamp { secs })
        } else {
            None
        }
    }

    /// The instant nearest to `secs` seconds after the epoch: that instant
    /// itself where it is one, the epoch for a time before it, and the last
    /// instant for a time after that.
    pub fn nearest(secs: i64) -> (time: Timestamp)
        ensures
            time@ == nearest_seconds(secs),
    {
        match Timestamp::from_unix(secs) {
            Some(time) => time,
            None => if secs < 0 {
                Timestamp { secs: 0 }
            } else {
                Timestamp { secs: MAX_UNIX_SECONDS }
            },
        }
    }

    /// The instant at which the call is made, as the system clock reads it;
    /// a reading outside the range of instants counts as the nearest instant.
    pub fn now() -> (time: Timestamp)
        ensures
            0 <= time@ <= MAX_UNIX_SECONDS,
    {
        Timestamp::nearest(unix_now())
    }

    /// Seconds since the epoch.
    pub fn unix(&self) -> (secs: i64)
        ensures
            secs == self@,
            0 <= secs <= MAX_UNIX_SECONDS,
    {
        proof {
            use_type_invariant(self);
        }
        self.secs
    }

    /// The US Central wall-clock reading of this instant.
    pub fn central_text(&self) -> (text: String)
        ensures
            text@ == central_time_text(self@),
    {
        central_clock(self.unix())
    }
}

/// The system clock, read by `SystemTime::now` of std and turned into whole
/// seconds since the Unix epoch by chrono: `DateTime::<Utc>::from`, which
/// counts a time before the epoch as negative, and `DateTime::timestamp`.
/// Nothing is promised of a clock's reading. chrono has no value for a
/// reading beyond the year 262142 and panics on one.
#[verifier::external_body]
fn unix_now() -> i64 {
    DateTime::<Utc>::from(SystemTime::now()).timestamp()
}

/// `DateTime::format` of chrono with the pattern `%Y-%m-%d %H:%M:%S`, on the
/// instant `secs` moved to `chrono_tz::US::Central` by `with_timezone`. The
/// zone's rules are compiled into chrono-tz, so the text depends on `secs`
/// alone. `DateTime::from_timestamp` accepts every instant that the
/// precondition admits.
#[verifier::external_body]
fn central_clock(secs: i64) -> (text: String)
    requires
        0 <= secs <= MAX_UNIX_SECONDS,
    ensures
        text@ == central_time_text(secs),
{
    DateTime::from_timestamp(secs, 0)
        .unwrap_or_default()
        .with_timezone(&Central)
        .format("%Y-%m-%d %H:%M:%S")
        .to_string()
}

} // verus!
