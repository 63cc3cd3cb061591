use vstd::prelude::*;
use crate::timefmt::{format_datetime, spec_datetime};
use chrono::Datelike;
use chrono::Timelike;

verus! {

/// One reading of the local wall clock, broken into calendar fields.
pub struct LocalTimeParts {
    pub year: i32,
    pub month: u8,
    pub day: u8,
    pub hour: u8,
    pub minute: u8,
    pub second: u8,
}

/// Whether calendar fields lie in the ranges a wall-clock reading can take.
pub open spec fn spec_calendar_ranges(p: LocalTimeParts) -> bool {
    &&& 1 <= p.month <= 12
    &&& 1 <= p.day <= 31
    &&& p.hour < 24
    &&& p.minute < 60
    &&& p.second < 60
}

/// Relies on chrono::Local::now and the Datelike / Timelike accessors:
/// month ranges over 1..=12, day over 1..=31, hour over 0..=23, and minute
/// and second over 0..=59 (a leap second is carried in the nanosecond field,
/// not here). The reading itself depends on the clock, so nothing more is
/// promised of it.
#[verifier::external_body]
fn local_now_parts() -> (r: LocalTimeParts)
    ensures
        spec_calendar_ranges(r),
{
    let now = chrono::Local::now();
    LocalTimeParts {
        year: now.year(),
        month: now.month() as u8,
        day: now.day() as u8,
        hour: now.hour() as u8,
        minute: now.minute() as u8,
        second: now.second() as u8,
    }
}

/// Reads the local wall clock and renders it as `YYYY-MM-DD HH:MM:SS`.
///
/// Whatever reading the clock hands back, the result is the canonical
/// rendering of some calendar fields within their wall-clock ranges.
pub fn current_time() -> (r: String)
    ensures
        exists|p: LocalTimeParts|
            spec_calendar_ranges(p) && r@ == #[trigger] spec_datetime(
                p.year as int,
                p.month as nat,
                p.day as nat,
                p.hour as nat,
                p.minute as nat,
                p.second as nat,
            ),
{
    let p = local_now_parts();
    let r = format_datetime(p.year, p.month, p.day, p.hour, p.minute, p.second);
    proof {
        assert(spec_calendar_ranges(p) && r@ == spec_datetime(
            p.year as int,
            p.month as nat,
            p.day as nat,
            p.hour as nat,
            p.minute as nat,
            p.second as nat,
        ));
    }
    r
}

} // verus!
