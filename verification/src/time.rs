//! Instants on the UTC time line, and the two wire encodings of them that
//! the daemon uses: whole seconds since the epoch, and RFC 3339 text. Also
//! what is known of the durations of the standard library.

use std::time::Duration;
use vstd::prelude::*;

verus! {

/// The whole seconds of a duration, what is left over dropped.
pub uninterp spec fn whole_seconds(d: Duration) -> u64;

/// The duration that `Duration::from_millis` makes of a number of
/// milliseconds.
pub uninterp spec fn duration_of_millis(millis: u64) -> Duration;

/// `Duration::as_secs` returns the number of whole seconds that the duration
/// holds.
pub assume_specification[ Duration::as_secs ](d: &Duration) -> (secs: u64)
    ensures
        secs == whole_seconds(*d),
;

/// `Duration::from_millis` makes the duration of that many milliseconds,
/// which holds a whole second for every full thousand of them.
pub assume_specification[ Duration::from_millis ](millis: u64) -> (d: Duration)
    ensures
        d == duration_of_millis(millis),
        whole_seconds(d) == millis / 1000,
;

/// An instant: the whole seconds since 1970-01-01T00:00:00Z and the
/// nanoseconds into that second.
#[derive(Clone, Copy, Debug, PartialEq, Eq, Structural)]
pub struct Timestamp {
    pub secs: i64,
    pub nanos: u32,
}

/// The instant that `chrono` makes of a number of seconds since the epoch,
/// where it can represent that instant.
pub uninterp spec fn instant_of_epoch_seconds(secs: i64) -> Option<Timestamp>;

/// The instant that `chrono` reads from an RFC 3339 date and time, where the
/// text is one.
pub uninterp spec fn instant_of_rfc3339(text: Seq<char>) -> Option<Timestamp>;

/// The last second of the year 9999, in seconds since the epoch.
pub const END_OF_YEAR_9999: i64 = 253_402_300_799;

/// Whether `secs` seconds after the epoch lie between the epoch and the end
/// of the year 9999, both included.
pub open spec fn in_four_digit_years(secs: i64) -> bool {
    0 <= secs <= END_OF_YEAR_9999
}

/// Calls `chrono::DateTime::from_timestamp` with no nanoseconds. It returns
/// `None` for a number of seconds outside the range of dates that `chrono`
/// represents; otherwise the instant it returns reads back as the same
/// number of seconds, with no nanoseconds. The dates that `chrono`
/// represents reach far beyond the year 9999 on both sides, so every second
/// from the epoch to the end of that year has its instant.
#[verifier::external_body]
pub(crate) fn utc_from_epoch_seconds(secs: i64) -> (found: Option<Timestamp>)
    ensures
        found == instant_of_epoch_seconds(secs),
        found matches Some(t) ==> t.secs == secs && t.nanos == 0,
        in_four_digit_years(secs) ==> found is Some,
{
    match chrono::DateTime::from_timestamp(secs, 0) {
        Some(at) => Some(Timestamp { secs: at.timestamp(), nanos: at.timestamp_subsec_nanos() }),
        None => None,
    }
}

/// Calls `chrono::DateTime::parse_from_rfc3339` and moves the result to UTC.
/// The result depends on the text alone; `None` stands for a text that
/// `chrono` does not accept.
#[verifier::external_body]
pub(crate) fn utc_from_rfc3339(text: &str) -> (found: Option<Timestamp>)
    ensures
        found == instant_of_rfc3339(text@),
{
    match chrono::DateTime::parse_from_rfc3339(text) {
        Ok(local) => {
            let at = local.with_timezone(&chrono::Utc);
            Some(Timestamp { secs: at.timestamp(), nanos: at.timestamp_subsec_nanos() })
        },
        Err(_) => None,
    }
}

impl Timestamp {
    /// The epoch itself, which stands in for an instant that could not be
    /// read.
    pub open spec fn epoch() -> Timestamp {
        Timestamp { secs: 0, nanos: 0 }
    }

    /// What a reading comes to: the instant read, or the epoch where there
    /// is none.
    pub open spec fn settled(found: Option<Timestamp>) -> Timestamp {
        match found {
            Some(t) => t,
            None => Timestamp::epoch(),
        }
    }

    /// The instant read, or the epoch where nothing was read.
    pub fn or_epoch(found: Option<Timestamp>) -> (t: Timestamp)
        ensures
            t == Timestamp::settled(found),
    {
        match found {
            Some(t) => t,
            None => Timestamp { secs: 0, nanos: 0 },
        }
    }

    /// The instant `secs` seconds after the epoch; the epoch itself where
    /// that instant is out of range.
    pub fn from_epoch_seconds(secs: i64) -> (t: Timestamp)
        ensures
            t == Timestamp::settled(instant_of_epoch_seconds(secs)),
            instant_of_epoch_seconds(secs) is Some ==> t.secs == secs,
            t.nanos == 0,
            in_four_digit_years(secs) ==> t == (Timestamp { secs, nanos: 0 }),
    {
        Timestamp::or_epoch(utc_from_epoch_seconds(secs))
    }

    /// The instant that an RFC 3339 text names; the epoch where the text
    /// cannot be read.
    pub fn from_rfc3339(text: &str) -> (t: Timestamp)
        ensures
            t == Timestamp::settled(instant_of_rfc3339(text@)),
    {
        Timestamp::or_epoch(utc_from_rfc3339(text))
    }
}

impl Default for Timestamp {
    fn default() -> (t: Timestamp)
        ensures
            t == Timestamp::epoch(),
    {
        Timestamp { secs: 0, nanos: 0 }
    }
}

impl DeepView for Timestamp {
    type V = Timestamp;

    open spec fn deep_view(&self) -> Timestamp {
        *self
    }
}

} // verus!
