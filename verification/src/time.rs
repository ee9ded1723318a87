//! Points in time, spans of time and message intervals.
//!
//! All three are fixed-point numbers held in integers, so that every
//! operation is exact or saturates at a stated bound.

use vstd::arithmetic::div_mod::lemma_div_denominator;
use vstd::arithmetic::power2::{lemma2_to64, lemma_pow2_pos, lemma_pow2_strictly_increases, lemma_pow2_unfold, pow2};
use vstd::prelude::*;

verus! {

/// One nanosecond of a [`Time`], whose unit is 2^-32 ns.
pub const TIME_UNITS_PER_NANO: u128 = 0x1_0000_0000;

/// One nanosecond of a [`Duration`], whose unit is 2^-16 ns.
pub const DURATION_UNITS_PER_NANO: i64 = 0x1_0000;

/// One unit of a [`Duration`] in units of a [`Time`].
pub const TIME_UNITS_PER_DURATION_UNIT: u128 = 0x1_0000;

pub const NANOS_PER_SECOND: u128 = 1_000_000_000;

/// One second in units of a [`Duration`].
pub const SECOND_IN_DURATION_UNITS: i64 = 65_536_000_000_000;

/// `value`, or the bound of `i64` that it lies beyond.
pub open spec fn clamp_i64(value: int) -> i64 {
    if value < i64::MIN {
        i64::MIN
    } else if value > i64::MAX {
        i64::MAX
    } else {
        value as i64
    }
}

/// `value`, or the bound of `u64` that it lies beyond.
pub open spec fn clamp_u64(value: int) -> u64 {
    if value < 0 {
        0
    } else if value > u64::MAX {
        u64::MAX
    } else {
        value as u64
    }
}

/// `value`, or the bound of `u128` that it lies beyond.
pub open spec fn clamp_u128(value: int) -> u128 {
    if value < 0 {
        0
    } else if value > u128::MAX {
        u128::MAX
    } else {
        value as u128
    }
}

fn clamp_to_i64(value: i128) -> (r: i64)
    ensures
        r == clamp_i64(value as int),
{
    if value < i64::MIN as i128 {
        i64::MIN
    } else if value > i64::MAX as i128 {
        i64::MAX
    } else {
        value as i64
    }
}

/// A signed span of time, counted in units of 2^-16 ns: the `TimeInterval`
/// of the wire format.
#[derive(Clone, Copy, Debug, Default, PartialEq, Eq, Structural, Hash)]
pub struct Duration {
    pub scaled_nanos: i64,
}

impl Duration {
    /// The span of `nanos` nanoseconds, as far as it can be represented.
    pub open spec fn of_nanos(nanos: int) -> Duration {
        Duration { scaled_nanos: clamp_i64(nanos * DURATION_UNITS_PER_NANO) }
    }

    pub open spec fn sum(self, other: Duration) -> Duration {
        Duration { scaled_nanos: clamp_i64(self.scaled_nanos + other.scaled_nanos) }
    }

    pub open spec fn difference(self, other: Duration) -> Duration {
        Duration { scaled_nanos: clamp_i64(self.scaled_nanos - other.scaled_nanos) }
    }

    /// Half of the span, rounded down.
    pub open spec fn halved(self) -> Duration {
        Duration { scaled_nanos: (self.scaled_nanos as int / 2) as i64 }
    }

    /// The span stretched by a factor between a half and one and a half,
    /// which `random` picks evenly: a half and `random` parts in 2^32.
    /// Rounded down, and saturating at the bounds of the representation.
    pub open spec fn jittered(self, random: u32) -> Duration {
        Duration {
            scaled_nanos: clamp_i64(
                self.scaled_nanos * (0x8000_0000 + random) / 0x1_0000_0000,
            ),
        }
    }

    pub fn zero() -> (r: Duration)
        ensures
            r.scaled_nanos == 0,
    {
        Duration { scaled_nanos: 0 }
    }

    /// A span given in units of 2^-16 ns.
    pub fn from_scaled_nanos(scaled_nanos: i64) -> (r: Duration)
        ensures
            r.scaled_nanos == scaled_nanos,
    {
        Duration { scaled_nanos }
    }

    /// A span given in nanoseconds; beyond about 39 hours it saturates.
    pub fn from_nanos(nanos: i64) -> (r: Duration)
        ensures
            r == Duration::of_nanos(nanos as int),
    {
        Duration { scaled_nanos: clamp_to_i64(nanos as i128 * 0x1_0000) }
    }

    pub fn scaled_nanos(&self) -> (r: i64)
        ensures
            r == self.scaled_nanos,
    {
        self.scaled_nanos
    }

    /// The whole nanoseconds of the span, rounded down.
    pub fn nanos(&self) -> (r: i64)
        ensures
            r == self.scaled_nanos as int / DURATION_UNITS_PER_NANO as int,
    {
        match self.scaled_nanos.checked_div_euclid(DURATION_UNITS_PER_NANO) {
            Some(nanos) => nanos,
            None => 0,
        }
    }

    /// The sum of two spans, saturating at the bounds of the representation.
    pub fn saturating_add(self, other: Duration) -> (r: Duration)
        ensures
            r == self.sum(other),
    {
        Duration { scaled_nanos: clamp_to_i64(self.scaled_nanos as i128 + other.scaled_nanos as i128) }
    }

    /// The difference of two spans, saturating at the bounds of the
    /// representation.
    pub fn saturating_sub(self, other: Duration) -> (r: Duration)
        ensures
            r == self.difference(other),
    {
        Duration { scaled_nanos: clamp_to_i64(self.scaled_nanos as i128 - other.scaled_nanos as i128) }
    }

    pub fn jitter(self, random: u32) -> (r: Duration)
        ensures
            r == self.jittered(random),
    {
        let factor: i128 = 0x8000_0000 + random as i128;
        assert(-0x1_0000_0000_0000_0000_0000_0000 <= self.scaled_nanos * factor
            <= 0x1_0000_0000_0000_0000_0000_0000) by (nonlinear_arith)
            requires
                -0x8000_0000_0000_0000 <= self.scaled_nanos <= 0x8000_0000_0000_0000,
                0 <= factor <= 0x2_0000_0000,
        ;
        let stretched = self.scaled_nanos as i128 * factor;
        match stretched.checked_div_euclid(0x1_0000_0000) {
            Some(scaled_nanos) => Duration { scaled_nanos: clamp_to_i64(scaled_nanos) },
            None => Duration { scaled_nanos: 0 },
        }
    }

    pub fn half(self) -> (r: Duration)
        ensures
            r == self.halved(),
    {
        match self.scaled_nanos.checked_div_euclid(2) {
            Some(half) => Duration { scaled_nanos: half },
            None => Duration { scaled_nanos: 0 },
        }
    }
}

/// A point in time: the span since the epoch of the timescale, counted in
/// units of 2^-32 ns.
#[derive(Clone, Copy, Debug, Default, PartialEq, Eq, Structural, Hash)]
pub struct Time {
    pub fixed_nanos: u128,
}

impl Time {
    /// The nanoseconds since the epoch, without their fraction.
    pub open spec fn whole_nanos(self) -> nat {
        (self.fixed_nanos / TIME_UNITS_PER_NANO) as nat
    }

    /// The seconds since the epoch, without their fraction.
    pub open spec fn whole_seconds(self) -> nat {
        self.whole_nanos() / NANOS_PER_SECOND as nat
    }

    /// The nanoseconds since the last whole second, without their fraction.
    pub open spec fn nanos_of_second(self) -> nat {
        self.whole_nanos() % NANOS_PER_SECOND as nat
    }

    /// The fraction of a nanosecond beyond the whole nanoseconds, in units
    /// of 2^-16 ns and rounded down.
    pub open spec fn fraction(self) -> Duration {
        Duration {
            scaled_nanos: ((self.fixed_nanos % TIME_UNITS_PER_NANO) / TIME_UNITS_PER_DURATION_UNIT) as i64,
        }
    }

    /// The point `span` after this one, saturating at the bounds of the
    /// representation.
    pub open spec fn shifted(self, span: Duration) -> Time {
        Time {
            fixed_nanos: clamp_u128(
                self.fixed_nanos + span.scaled_nanos * TIME_UNITS_PER_DURATION_UNIT,
            ),
        }
    }

    /// The span from `earlier` to this point, rounded down to the unit of a
    /// [`Duration`] and saturating at the bounds of its representation.
    pub open spec fn elapsed_since(self, earlier: Time) -> Duration {
        Duration {
            scaled_nanos: clamp_i64(
                (self.fixed_nanos - earlier.fixed_nanos) / TIME_UNITS_PER_DURATION_UNIT as int,
            ),
        }
    }

    /// A point given in units of 2^-32 ns since the epoch.
    pub fn from_fixed_nanos(fixed_nanos: u128) -> (r: Time)
        ensures
            r.fixed_nanos == fixed_nanos,
    {
        Time { fixed_nanos }
    }

    pub fn from_nanos(nanos: u64) -> (r: Time)
        ensures
            r.fixed_nanos == nanos * TIME_UNITS_PER_NANO,
    {
        Time { fixed_nanos: nanos as u128 * TIME_UNITS_PER_NANO }
    }

    pub fn from_micros(micros: u64) -> (r: Time)
        ensures
            r.fixed_nanos == micros * 1_000 * TIME_UNITS_PER_NANO,
    {
        Time { fixed_nanos: micros as u128 * 1_000 * TIME_UNITS_PER_NANO }
    }

    pub fn from_millis(millis: u64) -> (r: Time)
        ensures
            r.fixed_nanos == millis * 1_000_000 * TIME_UNITS_PER_NANO,
    {
        Time { fixed_nanos: millis as u128 * 1_000_000 * TIME_UNITS_PER_NANO }
    }

    pub fn from_secs(secs: u64) -> (r: Time)
        ensures
            r.fixed_nanos == secs * NANOS_PER_SECOND * TIME_UNITS_PER_NANO,
    {
        Time { fixed_nanos: secs as u128 * NANOS_PER_SECOND * TIME_UNITS_PER_NANO }
    }

    pub fn fixed_nanos(&self) -> (r: u128)
        ensures
            r == self.fixed_nanos,
    {
        self.fixed_nanos
    }

    /// The whole seconds since the epoch; beyond `u64::MAX` it saturates.
    pub fn secs(&self) -> (r: u64)
        ensures
            r == clamp_u64(self.whole_seconds() as int),
    {
        let secs = self.fixed_nanos / TIME_UNITS_PER_NANO / NANOS_PER_SECOND;
        if secs > u64::MAX as u128 {
            u64::MAX
        } else {
            secs as u64
        }
    }

    pub fn subsec_nanos(&self) -> (r: u32)
        ensures
            r == self.nanos_of_second(),
    {
        (self.fixed_nanos / TIME_UNITS_PER_NANO % NANOS_PER_SECOND) as u32
    }

    /// What this point lies beyond a whole nanosecond.
    pub fn subnano(&self) -> (r: Duration)
        ensures
            r == self.fraction(),
            0 <= r.scaled_nanos < DURATION_UNITS_PER_NANO,
    {
        Duration {
            scaled_nanos: (self.fixed_nanos % TIME_UNITS_PER_NANO / TIME_UNITS_PER_DURATION_UNIT) as i64,
        }
    }

    pub fn saturating_add(self, span: Duration) -> (r: Time)
        ensures
            r == self.shifted(span),
    {
        if span.scaled_nanos >= 0 {
            let forward = span.scaled_nanos as u128 * TIME_UNITS_PER_DURATION_UNIT;
            match self.fixed_nanos.checked_add(forward) {
                Some(fixed_nanos) => Time { fixed_nanos },
                None => Time { fixed_nanos: u128::MAX },
            }
        } else {
            let back = (-(span.scaled_nanos as i128)) as u128 * TIME_UNITS_PER_DURATION_UNIT;
            if back > self.fixed_nanos {
                Time { fixed_nanos: 0 }
            } else {
                Time { fixed_nanos: self.fixed_nanos - back }
            }
        }
    }

    pub fn saturating_sub(self, earlier: Time) -> (r: Duration)
        ensures
            r == self.elapsed_since(earlier),
    {
        if self.fixed_nanos >= earlier.fixed_nanos {
            let units = (self.fixed_nanos - earlier.fixed_nanos) / TIME_UNITS_PER_DURATION_UNIT;
            if units > i64::MAX as u128 {
                Duration { scaled_nanos: i64::MAX }
            } else {
                Duration { scaled_nanos: units as i64 }
            }
        } else {
            let behind = earlier.fixed_nanos - self.fixed_nanos;
            let whole = behind / TIME_UNITS_PER_DURATION_UNIT;
            let units = if behind % TIME_UNITS_PER_DURATION_UNIT == 0 {
                whole
            } else {
                whole + 1
            };
            if units > 0x8000_0000_0000_0000 {
                Duration { scaled_nanos: i64::MIN }
            } else {
                Duration { scaled_nanos: (-(units as i128)) as i64 }
            }
        }
    }
}

/// The span of `2^log_2` seconds in units of a [`Duration`], rounded down.
pub open spec fn interval_scaled_nanos(log_2: int) -> int {
    if log_2 >= 0 {
        SECOND_IN_DURATION_UNITS * pow2(log_2 as nat)
    } else {
        SECOND_IN_DURATION_UNITS as int / pow2((-log_2) as nat) as int
    }
}

/// A message interval: a power of two of seconds, held as its logarithm.
#[derive(Clone, Copy, Debug, Default, PartialEq, Eq, Structural, Hash)]
pub struct Interval {
    pub log_2: i8,
}

impl Interval {
    /// The span of the interval; from 2^18 seconds on it saturates.
    pub open spec fn span(self) -> Duration {
        Duration { scaled_nanos: clamp_i64(interval_scaled_nanos(self.log_2 as int)) }
    }

    /// The longer of two intervals.
    pub open spec fn longer(self, other: Interval) -> Interval {
        if self.log_2 >= other.log_2 {
            self
        } else {
            other
        }
    }

    pub fn one_second() -> (r: Interval)
        ensures
            r.log_2 == 0,
    {
        Interval { log_2: 0 }
    }

    pub fn two_seconds() -> (r: Interval)
        ensures
            r.log_2 == 1,
    {
        Interval { log_2: 1 }
    }

    pub fn from_log_2(log_2: i8) -> (r: Interval)
        ensures
            r.log_2 == log_2,
    {
        Interval { log_2 }
    }

    pub fn as_log_2(self) -> (r: i8)
        ensures
            r == self.log_2,
    {
        self.log_2
    }

    /// The longer of two intervals.
    pub fn max(self, other: Interval) -> (r: Interval)
        ensures
            r == self.longer(other),
    {
        if self.log_2 >= other.log_2 {
            self
        } else {
            other
        }
    }

    pub fn as_duration(self) -> (r: Duration)
        ensures
            r == self.span(),
    {
        let log_2 = self.log_2;
        if log_2 > 17 {
            proof {
                lemma2_to64();
                if log_2 > 18 {
                    lemma_pow2_strictly_increases(18, log_2 as nat);
                }
                assert(SECOND_IN_DURATION_UNITS * pow2(log_2 as nat) > i64::MAX) by (nonlinear_arith)
                    requires
                        pow2(log_2 as nat) >= 0x4_0000,
                        SECOND_IN_DURATION_UNITS == 65_536_000_000_000,
                ;
            }
            Duration { scaled_nanos: i64::MAX }
        } else if log_2 >= 0 {
            let mut scaled_nanos: i64 = SECOND_IN_DURATION_UNITS;
            let mut done: i8 = 0;
            proof {
                lemma2_to64();
            }
            while done < log_2
                invariant
                    0 <= done <= log_2 <= 17,
                    scaled_nanos == SECOND_IN_DURATION_UNITS * pow2(done as nat),
                decreases log_2 - done,
            {
                proof {
                    lemma2_to64();
                    lemma_pow2_unfold((done + 1) as nat);
                    if done + 1 < 17 {
                        lemma_pow2_strictly_increases((done + 1) as nat, 17);
                    }
                    assert(SECOND_IN_DURATION_UNITS * pow2((done + 1) as nat) <= i64::MAX) by (nonlinear_arith)
                        requires
                            pow2((done + 1) as nat) <= 0x2_0000,
                            SECOND_IN_DURATION_UNITS == 65_536_000_000_000,
                    ;
                    assert(SECOND_IN_DURATION_UNITS * (2 * pow2(done as nat)) == 2 * (
                    SECOND_IN_DURATION_UNITS * pow2(done as nat))) by (nonlinear_arith);
                }
                scaled_nanos = scaled_nanos * 2;
                done = done + 1;
            }
            Duration { scaled_nanos }
        } else {
            let mut scaled_nanos: i64 = SECOND_IN_DURATION_UNITS;
            let mut done: i16 = 0;
            let steps: i16 = -(log_2 as i16);
            proof {
                lemma2_to64();
                assert(pow2(0) == 1);
                assert(SECOND_IN_DURATION_UNITS as int / 1 == SECOND_IN_DURATION_UNITS);
            }
            while done < steps
                invariant
                    0 <= done <= steps <= 128,
                    0 <= scaled_nanos,
                    scaled_nanos == SECOND_IN_DURATION_UNITS as int / pow2(done as nat) as int,
                decreases steps - done,
            {
                proof {
                    lemma_pow2_pos(done as nat);
                    lemma_pow2_unfold((done + 1) as nat);
                    lemma_div_denominator(SECOND_IN_DURATION_UNITS as int, pow2(done as nat) as int, 2);
                    assert(pow2(done as nat) * 2 == 2 * pow2(done as nat)) by (nonlinear_arith);
                }
                scaled_nanos = scaled_nanos / 2;
                done = done + 1;
            }
            Duration { scaled_nanos }
        }
    }
}

} // verus!
