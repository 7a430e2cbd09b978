//! Helpers that turn a plain count of a time unit into an interval value:
//! whole seconds plus a sub-second remainder in nanoseconds.
//!
//! Each unit from nanoseconds up to years is a named operation, so call
//! sites read naturally: `5u64.secs()`, `2u64.hours()`. A month is taken
//! as 30 days and a year as 365 days; there is no calendar awareness.

use vstd::prelude::*;

verus! {

/// A non-negative span of time: whole seconds plus a sub-second remainder
/// in nanoseconds. A value with no identity beyond its fields; freely
/// copied and compared.
#[derive(Clone, Copy, Debug, PartialEq, Eq, Structural)]
pub struct Interval {
    pub secs: u64,
    pub nanos: u32,
}

impl Interval {
    /// Builds an interval from whole seconds and a raw nanosecond count,
    /// carrying any whole seconds hiding in `nanos` into the seconds
    /// field, so the result is always normalized.
    pub fn new(secs: u64, nanos: u32) -> (r: Interval)
        requires
            secs + nanos / 1_000_000_000 <= u64::MAX,
        ensures
            r.secs == secs + nanos / 1_000_000_000,
            r.nanos == nanos % 1_000_000_000,
            r.nanos < 1_000_000_000,
    {
        Interval { secs: secs + (nanos / 1_000_000_000) as u64, nanos: nanos % 1_000_000_000 }
    }
}

/// The interval that a whole count `n` of a unit worth `secs_per_unit`
/// seconds denotes: exactly `n * secs_per_unit` seconds, nothing below a
/// second.
pub open spec fn whole_units(n: nat, secs_per_unit: nat) -> Interval
    recommends
        n * secs_per_unit <= u64::MAX,
{
    Interval { secs: (n * secs_per_unit) as u64, nanos: 0 }
}

/// The interval that a whole count `n` of a sub-second unit denotes, for a
/// unit worth `nanos_per_unit` nanoseconds of which `units_per_sec` make
/// one second: the whole seconds contained in `n` units, with the rest as
/// a nanosecond remainder.
pub open spec fn subsecond_units(n: nat, units_per_sec: nat, nanos_per_unit: nat) -> Interval
    recommends
        1 <= units_per_sec,
        units_per_sec * nanos_per_unit == 1_000_000_000,
{
    Interval {
        secs: (n / units_per_sec) as u64,
        nanos: ((n % units_per_sec) * nanos_per_unit) as u32,
    }
}

/// Named unit conversions: interpret a number as a count of one time unit
/// and build the interval value it denotes. Every conversion is a pure
/// function of the operand; whole-number operands convert exactly, with
/// no rounding error.
pub trait DurationHelper: Sized {
    /// The operand as the mathematical count of the chosen unit.
    spec fn count(self) -> nat;

    fn nanos(self) -> (r: Interval)
        ensures
            r == subsecond_units(self.count(), 1_000_000_000, 1),
    ;

    fn micros(self) -> (r: Interval)
        ensures
            r == subsecond_units(self.count(), 1_000_000, 1_000),
    ;

    fn millis(self) -> (r: Interval)
        ensures
            r == subsecond_units(self.count(), 1_000, 1_000_000),
    ;

    fn secs(self) -> (r: Interval)
        requires
            self.count() <= u64::MAX,
        ensures
            r == whole_units(self.count(), 1),
    ;

    fn hours(self) -> (r: Interval)
        requires
            self.count() * 3600 <= u64::MAX,
        ensures
            r == whole_units(self.count(), 3600),
    ;

    fn days(self) -> (r: Interval)
        requires
            self.count() * 86400 <= u64::MAX,
        ensures
            r == whole_units(self.count(), 86400),
    ;

    fn weeks(self) -> (r: Interval)
        requires
            self.count() * 604800 <= u64::MAX,
        ensures
            r == whole_units(self.count(), 604800),
    ;

    /// Assuming a month is 30 days
    fn months(self) -> (r: Interval)
        requires
            self.count() * 2_592_000 <= u64::MAX,
        ensures
            r == whole_units(self.count(), 2_592_000),
    ;

    /// Assuming a year is 365 days
    fn years(self) -> (r: Interval)
        requires
            self.count() * 31_536_000 <= u64::MAX,
        ensures
            r == whole_units(self.count(), 31_536_000),
    ;
}

/// Whole-number conversion is exact: for any unit of at least one second,
/// a whole count `n` of a unit worth `secs_per_unit` seconds gives exactly
/// `n * secs_per_unit` seconds and no sub-second remainder.
pub proof fn lemma_whole_units_exact(n: nat, secs_per_unit: nat)
    requires
        n * secs_per_unit <= u64::MAX,
    ensures
        whole_units(n, secs_per_unit).secs == n * secs_per_unit,
        whole_units(n, secs_per_unit).nanos == 0,
{
}

/// Converting a count of seconds is the identity: `n` seconds give the
/// interval `(n, 0)` exactly.
pub proof fn lemma_seconds_identity(n: u64)
    ensures
        whole_units(n as nat, 1) == (Interval { secs: n, nanos: 0 }),
{
}

/// Every whole count of a sub-second unit converts to a normalized
/// interval: the nanosecond field stays below one second, the excess
/// having been carried into the seconds field.
pub proof fn lemma_subsecond_units_normalized(n: nat, units_per_sec: nat, nanos_per_unit: nat)
    requires
        1 <= units_per_sec,
        units_per_sec * nanos_per_unit == 1_000_000_000,
    ensures
        subsecond_units(n, units_per_sec, nanos_per_unit).nanos < 1_000_000_000,
{
    let m = n % units_per_sec;
    assert(1 <= nanos_per_unit) by (nonlinear_arith)
        requires
            units_per_sec * nanos_per_unit == 1_000_000_000,
    ;
    assert(m * nanos_per_unit < units_per_sec * nanos_per_unit) by (nonlinear_arith)
        requires
            m < units_per_sec,
            1 <= nanos_per_unit,
    ;
}

/// A conversion is a pure function of its operand and unit: two results
/// of the same whole-unit conversion of the same operand are identical.
pub proof fn lemma_whole_units_idempotent(a: Interval, b: Interval, n: nat, secs_per_unit: nat)
    requires
        a == whole_units(n, secs_per_unit),
        b == whole_units(n, secs_per_unit),
    ensures
        a == b,
{
}

/// A conversion is a pure function of its operand and unit: two results
/// of the same sub-second-unit conversion of the same operand are
/// identical.
pub proof fn lemma_subsecond_units_idempotent(
    a: Interval,
    b: Interval,
    n: nat,
    units_per_sec: nat,
    nanos_per_unit: nat,
)
    requires
        a == subsecond_units(n, units_per_sec, nanos_per_unit),
        b == subsecond_units(n, units_per_sec, nanos_per_unit),
    ensures
        a == b,
{
}

impl DurationHelper for u64 {
    open spec fn count(self) -> nat {
        self as nat
    }

    fn nanos(self) -> (r: Interval) {
        Interval { secs: self / 1_000_000_000, nanos: (self % 1_000_000_000) as u32 }
    }

    fn micros(self) -> (r: Interval) {
        Interval { secs: self / 1_000_000, nanos: (self % 1_000_000) as u32 * 1_000 }
    }

    fn millis(self) -> (r: Interval) {
        Interval { secs: self / 1_000, nanos: (self % 1_000) as u32 * 1_000_000 }
    }

    fn secs(self) -> (r: Interval) {
        Interval { secs: self, nanos: 0 }
    }

    fn hours(self) -> (r: Interval) {
        Interval { secs: 3600 * self, nanos: 0 }
    }

    fn days(self) -> (r: Interval) {
        Interval { secs: 86400 * self, nanos: 0 }
    }

    fn weeks(self) -> (r: Interval) {
        Interval { secs: 604800 * self, nanos: 0 }
    }

    fn months(self) -> (r: Interval) {
        Interval { secs: 2_592_000 * self, nanos: 0 }
    }

    fn years(self) -> (r: Interval) {
        Interval { secs: 31_536_000 * self, nanos: 0 }
    }
}

} // verus!
