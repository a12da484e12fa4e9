//! Sampling the local wall-clock time.
//!
//! The clock itself is an outside collaborator; the library only assumes
//! the documented field ranges of whatever instant it reports, and folds
//! the raw fields into a valid [`TimeSample`] in verified code.

use vstd::prelude::*;

use chrono::Timelike;

use crate::angle::TimeSample;

verus! {

/// Relies on `chrono::Local::now` and the `chrono::Timelike` accessors of
/// the resulting time of day: `hour()` is `0..24`, `minute()` and
/// `second()` are `0..60`, and `nanosecond()` is below `2_000_000_000`
/// (values of one second and above mark a leap second).  Nothing is
/// assumed about which instant the clock reports.
#[verifier::external_body]
fn local_clock_fields() -> (r: (u32, u32, u32, u32))
    ensures
        r.0 < 24,
        r.1 < 60,
        r.2 < 60,
        r.3 < 2_000_000_000,
{
    let t = chrono::Local::now().time();
    (t.hour(), t.minute(), t.second(), t.nanosecond())
}

/// Samples the local wall-clock time as a valid [`TimeSample`], whatever
/// instant the clock reported: the hour is folded to 12-hour form and a
/// leap-second nanosecond is clamped below one second.
pub fn sample_local_time() -> (t: TimeSample)
    ensures
        t.wf(),
{
    let (h, m, s, ns) = local_clock_fields();
    TimeSample::from_clock_fields(h, m, s, ns)
}

} // verus!
