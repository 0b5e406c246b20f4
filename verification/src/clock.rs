//! Reading the wall clock.
//!
//! The rest of the library works on plain calendar and time-of-day
//! fields; this module is the one place where the clock itself is read.

use vstd::prelude::*;

verus! {

/// One reading of the UTC wall clock, split into plain calendar and
/// time-of-day fields. The field ranges below are the ones the clock
/// library documents; in particular `year` may lie outside 0..=9999 and
/// `micros` may reach 1_999_999 during a leap second, so a reading is
/// not yet a well-formed [`crate::naming::Timestamp`].
#[derive(Clone, Copy, Debug, PartialEq, Eq, Structural)]
pub struct ClockReading {
    pub year: i32,
    pub month: u32,
    pub day: u32,
    pub hour: u32,
    pub minute: u32,
    pub second: u32,
    pub micros: u32,
}

/// Relies on chrono's `Utc::now` together with its `Datelike` accessors
/// (`year`, `month`, `day`), its `Timelike` accessors (`hour`, `minute`,
/// `second`) and `DateTime::timestamp_subsec_micros`, for the current
/// UTC time. The clauses state only the ranges chrono documents for the
/// accessors; nothing else can be promised of a clock.
#[verifier::external_body]
pub(crate) fn clock_now() -> (r: ClockReading)
    ensures
        1 <= r.month <= 12,
        1 <= r.day <= 31,
        r.hour <= 23,
        r.minute <= 59,
        r.second <= 59,
        r.micros <= 1_999_999,
{
    let now = chrono::Utc::now();
    ClockReading {
        year: chrono::Datelike::year(&now),
        month: chrono::Datelike::month(&now),
        day: chrono::Datelike::day(&now),
        hour: chrono::Timelike::hour(&now),
        minute: chrono::Timelike::minute(&now),
        second: chrono::Timelike::second(&now),
        micros: now.timestamp_subsec_micros(),
    }
}

} // verus!
