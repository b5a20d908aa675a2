use vstd::prelude::*;

use chrono::Datelike;
use chrono::Timelike;

verus! {

/// A calendar date with a time of day, in the UTC timescale.
#[derive(Clone, Copy, PartialEq, Eq, Structural, Debug)]
pub struct CivilTime {
    pub year: i32,
    pub month: u8,
    pub day: u8,
    pub hour: u8,
    pub minute: u8,
    pub second: u8,
}

/// The UTC calendar fields of an epoch timestamp; the conversion is done
/// by the calendar library and depends on the seconds alone.
pub uninterp spec fn civil_of(epoch_seconds: u32) -> CivilTime;

/// Relies on chrono's DateTime::from_timestamp: converts seconds since the
/// epoch to the UTC calendar fields. The documented field ranges and the
/// epoch origin are stated; the full calendar arithmetic is carried by
/// `civil_of`.
#[verifier::external_body]
pub(crate) fn epoch_to_civil(epoch_seconds: u32) -> (r: CivilTime)
    ensures
        r == civil_of(epoch_seconds),
        1970 <= r.year,
        1 <= r.month <= 12,
        1 <= r.day <= 31,
        r.hour < 24,
        r.minute < 60,
        r.second < 60,
        epoch_seconds == 0 ==> r == (CivilTime {
            year: 1970,
            month: 1,
            day: 1,
            hour: 0,
            minute: 0,
            second: 0,
        }),
{
    match chrono::DateTime::from_timestamp(epoch_seconds as i64, 0) {
        Some(dt) => CivilTime {
            year: dt.year(),
            month: dt.month() as u8,
            day: dt.day() as u8,
            hour: dt.hour() as u8,
            minute: dt.minute() as u8,
            second: dt.second() as u8,
        },
        None => CivilTime { year: 1970, month: 1, day: 1, hour: 0, minute: 0, second: 0 },
    }
}

} // verus!
