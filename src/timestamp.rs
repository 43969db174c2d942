//! Instants as seconds and nanoseconds since the Unix epoch, and the
//! conversion of a beacon's millisecond clock into one.

use vstd::prelude::*;

verus! {

/// An instant: whole seconds since 1970-01-01T00:00:00Z and the nanoseconds
/// past that second.
#[derive(Debug, Clone, Copy, PartialEq, Eq, Structural)]
pub struct EpochTime {
    pub secs: i64,
    pub nanos: u32,
}

/// Whether chrono has a calendar date and time for this instant.
pub uninterp spec fn chrono_has_datetime(secs: int, nanos: int) -> bool;

/// Relies on chrono's `DateTime::from_timestamp`: `Some` exactly when the
/// instant falls in chrono's calendar range, which depends on the two values alone.
#[verifier::external_body]
fn calendar_accepts(secs: i64, nanos: u32) -> (r: bool)
    ensures
        r == chrono_has_datetime(secs as int, nanos as int),
{
    chrono::DateTime::from_timestamp(secs, nanos).is_some()
}

/// The instant that a millisecond count since the epoch stands for, if
/// chrono can render it as a date.
pub open spec fn epoch_of_millis(millis: u64) -> Option<EpochTime> {
    let secs = millis as int / 1000;
    let nanos = (millis as int % 1000) * 1_000_000;
    if chrono_has_datetime(secs, nanos) {
        Some(EpochTime { secs: secs as i64, nanos: nanos as u32 })
    } else {
        None
    }
}

/// Converts milliseconds since the epoch into an instant, or `None` where the
/// value has no calendar date.
pub fn from_epoch_millis(millis: u64) -> (r: Option<EpochTime>)
    ensures
        r == epoch_of_millis(millis),
{
    let secs: u64 = millis / 1000;
    let nanos: u32 = ((millis % 1000) * 1_000_000) as u32;
    let secs: i64 = secs as i64;
    if calendar_accepts(secs, nanos) {
        Some(EpochTime { secs, nanos })
    } else {
        None
    }
}

} // verus!
