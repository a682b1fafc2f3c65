//! The unit in which a time or timestamp column counts.

use vstd::prelude::*;

verus! {

/// The unit of a columnar time or timestamp.
#[derive(Debug, Clone, Copy, PartialEq, Eq, Structural)]
pub enum TimeUnit {
    Millis,
    Micros,
    Nanos,
}

impl TimeUnit {
    /// The coarsest unit that keeps `digits` digits of fractional seconds:
    /// milliseconds for up to three, microseconds for up to six, nanoseconds
    /// beyond.
    pub open spec fn spec_from_fractional_digits(digits: u8) -> TimeUnit {
        if digits <= 3 {
            TimeUnit::Millis
        } else if digits <= 6 {
            TimeUnit::Micros
        } else {
            TimeUnit::Nanos
        }
    }

    /// The unit for a column whose driver reports `digits` digits of
    /// fractional seconds.
    #[verifier::when_used_as_spec(spec_from_fractional_digits)]
    pub fn from_fractional_digits(digits: u8) -> (unit: TimeUnit)
        ensures
            unit == TimeUnit::spec_from_fractional_digits(digits),
    {
        if digits <= 3 {
            TimeUnit::Millis
        } else if digits <= 6 {
            TimeUnit::Micros
        } else {
            TimeUnit::Nanos
        }
    }

    /// How many of the unit make a second.
    pub open spec fn spec_per_second(&self) -> int {
        match self {
            TimeUnit::Millis => 1_000,
            TimeUnit::Micros => 1_000_000,
            TimeUnit::Nanos => 1_000_000_000,
        }
    }

    /// How many of the unit make a second.
    pub fn per_second(&self) -> (n: i64)
        ensures
            n == self.spec_per_second(),
    {
        match self {
            TimeUnit::Millis => 1_000,
            TimeUnit::Micros => 1_000_000,
            TimeUnit::Nanos => 1_000_000_000,
        }
    }

    /// How many nanoseconds make one of the unit.
    pub open spec fn spec_nanos_per_unit(&self) -> int {
        match self {
            TimeUnit::Millis => 1_000_000,
            TimeUnit::Micros => 1_000,
            TimeUnit::Nanos => 1,
        }
    }

    /// How many nanoseconds make one of the unit.
    pub fn nanos_per_unit(&self) -> (n: u32)
        ensures
            n == self.spec_nanos_per_unit(),
    {
        match self {
            TimeUnit::Millis => 1_000_000,
            TimeUnit::Micros => 1_000,
            TimeUnit::Nanos => 1,
        }
    }
}

} // verus!
