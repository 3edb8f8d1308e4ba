//! The wall clock, and how a moment is written out. Both are chrono's work.

use vstd::prelude::*;
use crate::model::{option_text, Timestamp};

verus! {

/// What chrono displays for the UTC moment that lies `secs` seconds and
/// `nanos` nanoseconds after the Unix epoch; `None` where chrono has no
/// moment for the pair.
pub uninterp spec fn utc_text(secs: i64, nanos: u32) -> Option<Seq<char>>;

/// Reads the clock with `chrono::Utc::now` and takes the moment apart with
/// `DateTime::timestamp` and `DateTime::timestamp_subsec_nanos`. Which moment
/// comes back is the clock's affair; the contract claims what holds of every
/// reading. chrono builds the moment from a duration since the epoch, whose
/// fraction is under a second, so the reading is no leap second; and chrono
/// promises that `DateTime::from_timestamp` takes back the pair that any of
/// its moments was taken apart into, so `utc_text` has a text for it. chrono
/// stops the program where the system clock stands before 1970.
#[verifier::external_body]
pub(crate) fn utc_now() -> (now: Timestamp)
    ensures
        now.nanos < 1_000_000_000,
        utc_text(now.secs, now.nanos) is Some,
{
    let moment = chrono::Utc::now();
    Timestamp { secs: moment.timestamp(), nanos: moment.timestamp_subsec_nanos() }
}

/// Builds the moment with `chrono::DateTime::from_timestamp` and writes it out
/// with chrono's `Display` for `DateTime<Utc>`. The contract claims only that
/// the outcome is a function of the pair: `utc_text` is its name.
#[verifier::external_body]
pub(crate) fn utc_display(secs: i64, nanos: u32) -> (text: Option<String>)
    ensures
        option_text(text) == utc_text(secs, nanos),
{
    match chrono::DateTime::from_timestamp(secs, nanos) {
        Some(moment) => Some(moment.to_string()),
        None => None,
    }
}

impl Timestamp {
    /// Whether the calendar names this moment, so that it can be written
    /// out.
    pub open spec fn has_text(self) -> bool {
        utc_text(self.secs, self.nanos) is Some
    }

    /// What holds of every reading of the clock: it lies less than a second
    /// past a whole second, and the calendar names it.
    pub open spec fn is_reading(self) -> bool {
        self.nanos < 1_000_000_000 && self.has_text()
    }

    /// The current moment. Two readings may differ, and nothing orders them;
    /// every reading lies less than a second past a whole second and is a
    /// moment that the calendar names, so `to_text` has a text for it.
    /// The program stops where the system clock stands before 1970; the
    /// functions that take their moments as arguments read no clock.
    pub fn now() -> (now: Timestamp)
        ensures
            now.is_reading(),
    {
        utc_now()
    }

    /// The moment as text, where the calendar can name it.
    pub fn to_text(&self) -> (text: Option<String>)
        ensures
            option_text(text) == utc_text(self.secs, self.nanos),
            text is Some <==> self.has_text(),
    {
        utc_display(self.secs, self.nanos)
    }
}

} // verus!
