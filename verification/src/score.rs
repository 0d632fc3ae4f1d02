//! Scores and probabilities, held as the bits of an IEEE 754 number and
//! compared as such numbers are.
use vstd::prelude::*;

verus! {

/// A double precision number between systems, by its bits.
#[derive(Debug, Clone, Copy, PartialEq, Eq, Structural)]
pub struct Score {
    pub bits: u64,
}

/// A single precision number between systems, by its bits.
#[derive(Debug, Clone, Copy, PartialEq, Eq, Structural)]
pub struct Probability {
    pub bits: u32,
}

/// The sign bit of a double precision number.
pub const SIGN_64: u64 = 0x8000_0000_0000_0000;

/// The bits of double precision infinity.
pub const INFINITY_64: u64 = 0x7ff0_0000_0000_0000;

/// The sign bit of a single precision number.
pub const SIGN_32: u32 = 0x8000_0000;

/// The bits of single precision infinity.
pub const INFINITY_32: u32 = 0x7f80_0000;

impl DeepView for Score {
    type V = Score;

    open spec fn deep_view(&self) -> Score {
        *self
    }
}

impl DeepView for Probability {
    type V = Probability;

    open spec fn deep_view(&self) -> Probability {
        *self
    }
}

impl Score {
    /// The bits without the sign.
    pub open spec fn magnitude(self) -> int {
        if self.bits < SIGN_64 {
            self.bits as int
        } else {
            self.bits - SIGN_64
        }
    }

    /// Whether the bits stand for no number at all.
    pub open spec fn nan(self) -> bool {
        self.magnitude() > INFINITY_64
    }

    /// Where a number stands among all numbers; both zeros stand at 0.
    pub open spec fn rank(self) -> int {
        if self.bits < SIGN_64 {
            self.magnitude()
        } else {
            -self.magnitude()
        }
    }

    /// Whether this number is at most another; never so without a number.
    pub open spec fn le(self, other: Score) -> bool {
        !self.nan() && !other.nan() && self.rank() <= other.rank()
    }

    /// Whether this number is at most another.
    pub fn at_most(&self, other: &Score) -> (r: bool)
        ensures
            r == self.le(*other),
    {
        let a: u64 = if self.bits < SIGN_64 {
            self.bits
        } else {
            self.bits - SIGN_64
        };
        let b: u64 = if other.bits < SIGN_64 {
            other.bits
        } else {
            other.bits - SIGN_64
        };
        if a > INFINITY_64 || b > INFINITY_64 {
            false
        } else if self.bits < SIGN_64 {
            if other.bits < SIGN_64 {
                a <= b
            } else {
                a == 0 && b == 0
            }
        } else {
            if other.bits < SIGN_64 {
                true
            } else {
                b <= a
            }
        }
    }
}

impl Probability {
    /// The bits without the sign.
    pub open spec fn magnitude(self) -> int {
        if self.bits < SIGN_32 {
            self.bits as int
        } else {
            self.bits - SIGN_32
        }
    }

    /// Whether the bits stand for no number at all.
    pub open spec fn nan(self) -> bool {
        self.magnitude() > INFINITY_32
    }

    /// Where a number stands among all numbers; both zeros stand at 0.
    pub open spec fn rank(self) -> int {
        if self.bits < SIGN_32 {
            self.magnitude()
        } else {
            -self.magnitude()
        }
    }

    /// Whether this number is greater than another; never so without a number.
    pub open spec fn gt(self, other: Probability) -> bool {
        !self.nan() && !other.nan() && self.rank() > other.rank()
    }

    /// Whether this number is greater than another.
    pub fn exceeds(&self, other: &Probability) -> (r: bool)
        ensures
            r == self.gt(*other),
    {
        let a: u32 = if self.bits < SIGN_32 {
            self.bits
        } else {
            self.bits - SIGN_32
        };
        let b: u32 = if other.bits < SIGN_32 {
            other.bits
        } else {
            other.bits - SIGN_32
        };
        if a > INFINITY_32 || b > INFINITY_32 {
            false
        } else if self.bits < SIGN_32 {
            if other.bits < SIGN_32 {
                a > b
            } else {
                a > 0 || b > 0
            }
        } else {
            if other.bits < SIGN_32 {
                false
            } else {
                a < b
            }
        }
    }
}

} // verus!
