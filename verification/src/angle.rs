//! Mapping wall-clock time to hand angles.
//!
//! Angles are exact rationals: a full clockwise revolution from the
//! 12 o'clock direction is split into [`TURN`] units, one unit per
//! nanosecond of the 12-hour cycle, so every hand position derived from a
//! time sample is represented without rounding.

use vstd::prelude::*;

verus! {

/// Nanoseconds in one second.
pub const NANOS_PER_SECOND: u64 = 1_000_000_000;

/// Nanoseconds in one minute.
pub const NANOS_PER_MINUTE: u64 = 60_000_000_000;

/// Nanoseconds in one hour.
pub const NANOS_PER_HOUR: u64 = 3_600_000_000_000;

/// Angle units in one full revolution (2*pi radians): the nanoseconds of a
/// 12-hour cycle.
pub const TURN: u64 = 43_200_000_000_000;

/// Angle units in a quarter revolution (pi/2 radians): the 3 o'clock
/// direction.
pub const QUARTER_TURN: u64 = 10_800_000_000_000;

/// Angle units in a half revolution (pi radians): the 6 o'clock direction.
pub const HALF_TURN: u64 = 21_600_000_000_000;

/// Angle units in three quarters of a revolution (3*pi/2 radians): the
/// 9 o'clock direction.
pub const THREE_QUARTER_TURN: u64 = 32_400_000_000_000;

/// An immutable snapshot of the local wall-clock time with sub-second
/// precision, taken once per frame.
#[derive(Clone, Copy, Debug, PartialEq, Eq, Structural)]
pub struct TimeSample {
    /// Hour in 12-hour form, `0..=11`.
    pub hour12: u8,
    /// Minute, `0..=59`.
    pub minute: u8,
    /// Second, `0..=59`.
    pub second: u8,
    /// Sub-second remainder in nanoseconds, `0..NANOS_PER_SECOND`.
    pub nanos: u32,
}

impl TimeSample {
    /// Field ranges of a valid time of day.
    pub open spec fn wf(self) -> bool {
        self.hour12 < 12 && self.minute < 60 && self.second < 60
            && self.nanos < NANOS_PER_SECOND
    }

    /// Nanoseconds elapsed since the hour hand last pointed straight up.
    pub open spec fn cycle_nanos(self) -> int {
        (self.hour12 * 3600 + self.minute * 60 + self.second) * (NANOS_PER_SECOND as int)
            + self.nanos
    }

    /// Builds a sample, rejecting any out-of-range field.
    pub fn new(hour12: u8, minute: u8, second: u8, nanos: u32) -> (r: Option<TimeSample>)
        ensures
            r is Some <==> (TimeSample { hour12, minute, second, nanos }).wf(),
            r matches Some(t) ==> t == (TimeSample { hour12, minute, second, nanos }),
    {
        if hour12 < 12 && minute < 60 && second < 60 && nanos < 1_000_000_000 {
            Some(TimeSample { hour12, minute, second, nanos })
        } else {
            None
        }
    }

    /// Folds raw clock fields into a valid sample: the 24-hour value is
    /// reduced to 12-hour form, and a leap-second nanosecond (one second or
    /// more) is clamped to just under one second so the hands stay within
    /// one revolution.
    pub fn from_clock_fields(hour: u32, minute: u32, second: u32, nanos: u32) -> (t: TimeSample)
        requires
            hour < 24,
            minute < 60,
            second < 60,
            nanos < 2_000_000_000,
        ensures
            t.wf(),
            t.hour12 == hour % 12,
            t.minute == minute,
            t.second == second,
            t.nanos == if nanos < NANOS_PER_SECOND { nanos as int } else { 999_999_999 },
    {
        let ns: u32 = if nanos < 1_000_000_000 { nanos } else { 999_999_999 };
        TimeSample {
            hour12: (hour % 12) as u8,
            minute: minute as u8,
            second: second as u8,
            nanos: ns,
        }
    }

    /// Total nanoseconds into the current 12-hour cycle, as a machine word.
    pub fn cycle_nanos_u64(&self) -> (r: u64)
        requires
            self.wf(),
        ensures
            r == self.cycle_nanos(),
            r < TURN,
    {
        let secs: u64 = (self.hour12 as u64) * 3600 + (self.minute as u64) * 60
            + (self.second as u64);
        secs * NANOS_PER_SECOND + (self.nanos as u64)
    }
}

/// A hand direction: `num / TURN` of a full clockwise revolution measured
/// from the 12 o'clock direction, i.e. `num / TURN * 2*pi` radians.
#[derive(Clone, Copy, Debug, PartialEq, Eq, Structural)]
pub struct Angle {
    /// Numerator over the fixed denominator [`TURN`].
    pub num: u64,
}

impl Angle {
    /// A canonical angle lies within one revolution.
    pub open spec fn wf(self) -> bool {
        self.num < TURN
    }
}

/// The three hand angles of one frame.
#[derive(Clone, Copy, Debug, PartialEq, Eq, Structural)]
pub struct AngleTriple {
    /// Second hand.
    pub second: Angle,
    /// Minute hand.
    pub minute: Angle,
    /// Hour hand.
    pub hour: Angle,
}

/// The second hand: the sub-minute part of the cycle, scaled so that one
/// minute is one revolution.
pub open spec fn second_units(t: TimeSample) -> int {
    (t.cycle_nanos() % (NANOS_PER_MINUTE as int)) * 720
}

/// The minute hand creeps through each minute: the sub-hour part of the
/// cycle, scaled so that one hour is one revolution.
pub open spec fn minute_units(t: TimeSample) -> int {
    (t.cycle_nanos() % (NANOS_PER_HOUR as int)) * 12
}

/// The hour hand creeps through each hour: the whole 12-hour cycle is one
/// revolution.
pub open spec fn hour_units(t: TimeSample) -> int {
    t.cycle_nanos()
}

/// Maps a time sample to the three hand angles, each exact and canonical.
pub fn angles(t: &TimeSample) -> (r: AngleTriple)
    requires
        t.wf(),
    ensures
        r.second.num == second_units(*t),
        r.minute.num == minute_units(*t),
        r.hour.num == hour_units(*t),
        r.second.wf(),
        r.minute.wf(),
        r.hour.wf(),
{
    let cyc: u64 = t.cycle_nanos_u64();
    AngleTriple {
        second: Angle { num: (cyc % NANOS_PER_MINUTE) * 720 },
        minute: Angle { num: (cyc % NANOS_PER_HOUR) * 12 },
        hour: Angle { num: cyc },
    }
}

/// The sub-minute part of the cycle is the second and nanosecond fields
/// alone.
pub proof fn lemma_subminute_part(t: TimeSample)
    requires
        t.wf(),
    ensures
        t.cycle_nanos() % (NANOS_PER_MINUTE as int)
            == t.second * (NANOS_PER_SECOND as int) + t.nanos,
{
    let whole_minutes: int = t.hour12 * 60 + t.minute;
    let rest: int = t.second * (NANOS_PER_SECOND as int) + t.nanos;
    assert(t.cycle_nanos() == whole_minutes * (NANOS_PER_MINUTE as int) + rest);
    vstd::arithmetic::div_mod::lemma_fundamental_div_mod_converse(
        t.cycle_nanos(),
        NANOS_PER_MINUTE as int,
        whole_minutes,
        rest,
    );
}

/// The sub-hour part of the cycle is the minute, second and nanosecond
/// fields alone.
pub proof fn lemma_subhour_part(t: TimeSample)
    requires
        t.wf(),
    ensures
        t.cycle_nanos() % (NANOS_PER_HOUR as int)
            == (t.minute * 60 + t.second) * (NANOS_PER_SECOND as int) + t.nanos,
{
    let rest: int = (t.minute * 60 + t.second) * (NANOS_PER_SECOND as int) + t.nanos;
    assert(t.cycle_nanos() == t.hour12 * (NANOS_PER_HOUR as int) + rest);
    vstd::arithmetic::div_mod::lemma_fundamental_div_mod_converse(
        t.cycle_nanos(),
        NANOS_PER_HOUR as int,
        t.hour12 as int,
        rest,
    );
}

/// Periodicity of the second hand: two samples with equal second and
/// sub-second fields — in particular samples exactly one minute apart —
/// have exactly equal second-hand angles.
pub proof fn lemma_second_hand_periodic(t1: TimeSample, t2: TimeSample)
    requires
        t1.wf(),
        t2.wf(),
        t1.second == t2.second,
        t1.nanos == t2.nanos,
    ensures
        second_units(t1) == second_units(t2),
{
    lemma_subminute_part(t1);
    lemma_subminute_part(t2);
}

/// Monotonicity of the second hand: with hour and minute fixed, a strictly
/// later sub-minute instant gives a strictly larger second-hand angle.
pub proof fn lemma_second_hand_monotonic(t1: TimeSample, t2: TimeSample)
    requires
        t1.wf(),
        t2.wf(),
        t1.hour12 == t2.hour12,
        t1.minute == t2.minute,
        t1.second * (NANOS_PER_SECOND as int) + t1.nanos
            < t2.second * (NANOS_PER_SECOND as int) + t2.nanos,
    ensures
        second_units(t1) < second_units(t2),
{
    lemma_subminute_part(t1);
    lemma_subminute_part(t2);
}

/// Continuity of the minute hand at a minute boundary: the angle just
/// before the boundary plus the remaining sub-minute contribution is
/// exactly the angle at the start of the next minute, modulo one full
/// revolution (the modulus only matters when the hour wraps).
pub proof fn lemma_minute_hand_continuous(t1: TimeSample, t2: TimeSample)
    requires
        t1.wf(),
        t2.wf(),
        t1.second == 59,
        t2.second == 0,
        t2.nanos == 0,
        t2.minute == if t1.minute == 59 { 0int } else { t1.minute + 1 },
    ensures
        (minute_units(t1) + ((NANOS_PER_SECOND as int) - t1.nanos) * 12) % (TURN as int)
            == minute_units(t2),
{
    lemma_subhour_part(t1);
    lemma_subhour_part(t2);
    let s: int = minute_units(t1) + ((NANOS_PER_SECOND as int) - t1.nanos) * 12;
    assert(s == (t1.minute + 1) * (NANOS_PER_MINUTE as int) * 12);
    if t1.minute == 59 {
        assert(s == TURN);
        assert(s % (TURN as int) == 0) by {
            vstd::arithmetic::div_mod::lemma_mod_self_0(TURN as int);
        };
    } else {
        vstd::arithmetic::div_mod::lemma_small_mod(s as nat, TURN as nat);
    }
}

} // verus!
