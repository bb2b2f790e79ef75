//! Double-precision values held as their IEEE-754 bit patterns.
//!
//! The renderer's arithmetic happens outside the verified library; what the
//! library reads of a number is only where it lies on the real line, which
//! the bit pattern determines exactly.
use vstd::prelude::*;

verus! {

/// The sign bit of a double.
pub const SIGN_BIT: u64 = 0x8000_0000_0000_0000;

/// Bit pattern of positive infinity; every larger magnitude is a NaN.
pub const INFINITY_BITS: u64 = 0x7FF0_0000_0000_0000;

/// Bit pattern of `1.0`.
pub const ONE_BITS: u64 = 0x3FF0_0000_0000_0000;

/// A double, held as its bit pattern. Equality is identity of patterns.
#[derive(Clone, Copy, Debug, PartialEq, Eq, Structural)]
pub struct Scalar {
    pub bits: u64,
}

/// `0.0`, in specifications.
pub open spec fn zero_spec() -> Scalar {
    Scalar { bits: 0 }
}

/// `1.0`, in specifications.
pub open spec fn one_spec() -> Scalar {
    Scalar { bits: ONE_BITS }
}

impl Scalar {
    /// The pattern without its sign bit.
    pub open spec fn magnitude(self) -> int {
        if self.bits >= SIGN_BIT {
            self.bits - SIGN_BIT
        } else {
            self.bits as int
        }
    }

    pub open spec fn is_nan_spec(self) -> bool {
        self.magnitude() > INFINITY_BITS
    }

    /// Where a value that is no NaN lies on the real line, as an integer with
    /// the same order; `+0.0` and `-0.0` both sit at zero.
    pub open spec fn key(self) -> int {
        if self.bits >= SIGN_BIT {
            -self.magnitude()
        } else {
            self.magnitude()
        }
    }

    /// The `<` of doubles: false whenever either side is a NaN.
    pub open spec fn lt_spec(self, other: Scalar) -> bool {
        !self.is_nan_spec() && !other.is_nan_spec() && self.key() < other.key()
    }

    /// Minimum that ignores a NaN on either side.
    pub open spec fn min_spec(self, other: Scalar) -> Scalar {
        if self.is_nan_spec() {
            other
        } else if other.is_nan_spec() {
            self
        } else if other.lt_spec(self) {
            other
        } else {
            self
        }
    }

    /// Maximum that ignores a NaN on either side.
    pub open spec fn max_spec(self, other: Scalar) -> Scalar {
        if self.is_nan_spec() {
            other
        } else if other.is_nan_spec() {
            self
        } else if self.lt_spec(other) {
            other
        } else {
            self
        }
    }

    pub fn from_bits(bits: u64) -> (r: Scalar)
        ensures
            r.bits == bits,
    {
        Scalar { bits }
    }

    pub fn to_bits(&self) -> (r: u64)
        ensures
            r == self.bits,
    {
        self.bits
    }

    /// `0.0`.
    pub fn zero() -> (r: Scalar)
        ensures
            r == zero_spec(),
            r.key() == 0,
            !r.is_nan_spec(),
    {
        Scalar { bits: 0 }
    }

    /// `1.0`.
    pub fn one() -> (r: Scalar)
        ensures
            r == one_spec(),
            r.key() == ONE_BITS,
            !r.is_nan_spec(),
    {
        Scalar { bits: ONE_BITS }
    }

    fn magnitude_exec(&self) -> (r: u64)
        ensures
            r == self.magnitude(),
    {
        if self.bits >= SIGN_BIT {
            self.bits - SIGN_BIT
        } else {
            self.bits
        }
    }

    pub fn is_nan(&self) -> (r: bool)
        ensures
            r == self.is_nan_spec(),
    {
        self.magnitude_exec() > INFINITY_BITS
    }

    /// `self < other`, as doubles compare.
    pub fn lt(&self, other: &Scalar) -> (r: bool)
        ensures
            r == self.lt_spec(*other),
    {
        if self.is_nan() || other.is_nan() {
            return false;
        }
        let a = self.magnitude_exec();
        let b = other.magnitude_exec();
        let a_neg = self.bits >= SIGN_BIT;
        let b_neg = other.bits >= SIGN_BIT;
        if a_neg && b_neg {
            b < a
        } else if a_neg {
            a != 0 || b != 0
        } else if b_neg {
            false
        } else {
            a < b
        }
    }

    /// `self > other`, as doubles compare.
    pub fn gt(&self, other: &Scalar) -> (r: bool)
        ensures
            r == other.lt_spec(*self),
    {
        other.lt(self)
    }

    pub fn min(&self, other: &Scalar) -> (r: Scalar)
        ensures
            r == self.min_spec(*other),
    {
        if self.is_nan() {
            *other
        } else if other.is_nan() {
            *self
        } else if other.lt(self) {
            *other
        } else {
            *self
        }
    }

    pub fn max(&self, other: &Scalar) -> (r: Scalar)
        ensures
            r == self.max_spec(*other),
    {
        if self.is_nan() {
            *other
        } else if other.is_nan() {
            *self
        } else if self.lt(other) {
            *other
        } else {
            *self
        }
    }
}

} // verus!
