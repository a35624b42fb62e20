//! Exact levels: ratios of whole numbers.

use vstd::prelude::*;

verus! {

/// One, in the fixed-point scale of the engine: a million millionths.
pub const UNITY: u32 = 1_000_000;

/// A rational number `num / den`, the mathematical value of a [`Level`].
///
/// A zero denominator stands for what a division by zero yields: an unbounded
/// value when `num` is not zero, no value at all when it is.
pub ghost struct Ratio {
    pub num: int,
    pub den: int,
}

impl Ratio {
    /// The ratio zero, written over one.
    pub open spec fn zero() -> Ratio {
        Ratio { num: 0, den: 1 }
    }

    /// Whether the ratio has a value: its denominator is positive.
    pub open spec fn is_finite(self) -> bool {
        self.den > 0
    }

    /// `self < other`, for two finite ratios.
    pub open spec fn lt(self, other: Ratio) -> bool
        recommends
            self.is_finite(),
            other.is_finite(),
    {
        self.num * other.den < other.num * self.den
    }
}

/// An exact envelope level: the number `num / den`.
///
/// The engine never divides, so no precision is lost; a caller that wants a
/// rounded value divides `num` by `den` itself.
#[derive(Clone, Copy, Debug, PartialEq, Eq, Structural)]
pub struct Level {
    pub num: i128,
    pub den: u128,
}

impl View for Level {
    type V = Ratio;

    open spec fn view(&self) -> Ratio {
        Ratio { num: self.num as int, den: self.den as int }
    }
}

impl Level {
    /// The level of silence.
    pub fn zero() -> (level: Level)
        ensures
            level@ == Ratio::zero(),
    {
        Level { num: 0, den: 1 }
    }
}

} // verus!
