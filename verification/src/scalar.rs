use vstd::prelude::*;
use vstd::std_specs::cmp::PartialEqSpecImpl;
use vstd::std_specs::cmp::PartialOrdSpecImpl;
use core::cmp::Ordering;

verus! {

/// The sign bit of a binary64 bit pattern.
pub const SIGN_BIT: u64 = 0x8000_0000_0000_0000;

/// The bit pattern of positive infinity; every larger magnitude is a NaN.
pub const INFINITY_BITS: u64 = 0x7ff0_0000_0000_0000;

/// The bit pattern of the number one.
pub const ONE_BITS: u64 = 0x3ff0_0000_0000_0000;

/// An IEEE 754 binary64 number, held by its bit pattern.
///
/// Prices and signal strengths are binary64 numbers. The library never does
/// arithmetic on them; it only compares them. Comparison is defined here on the
/// bit pattern and agrees with the IEEE 754 order: a NaN is neither below nor
/// above anything, the two zeros are equal, and the infinities sit at the ends.
#[derive(Copy, Clone, Debug)]
pub struct Scalar {
    pub bits: u64,
}

impl View for Scalar {
    type V = Option<int>;

    /// `None` for a NaN. Otherwise the number's place in the order of all
    /// binary64 numbers: zero for both zeros, and one step up or down for each
    /// representable number further from zero.
    open spec fn view(&self) -> Option<int> {
        if self.spec_is_nan() {
            None
        } else if self.spec_is_sign_negative() {
            Some(-self.magnitude())
        } else {
            Some(self.magnitude())
        }
    }
}

impl Scalar {
    /// Whether the sign bit is set.
    pub open spec fn spec_is_sign_negative(self) -> bool {
        self.bits >= SIGN_BIT
    }

    /// The bit pattern without its sign bit.
    pub open spec fn magnitude(self) -> int {
        if self.bits >= SIGN_BIT {
            self.bits - SIGN_BIT
        } else {
            self.bits as int
        }
    }

    /// Whether the bit pattern encodes a NaN.
    pub open spec fn spec_is_nan(self) -> bool {
        self.magnitude() > INFINITY_BITS
    }

    /// `self < other` in the IEEE 754 order.
    pub open spec fn spec_lt(self, other: Scalar) -> bool {
        self@ is Some && other@ is Some && self@->0 < other@->0
    }

    /// `self > other` in the IEEE 754 order.
    pub open spec fn spec_gt(self, other: Scalar) -> bool {
        other.spec_lt(self)
    }

    /// `self == other` in the IEEE 754 order: a NaN equals nothing, itself included.
    pub open spec fn spec_eq(self, other: Scalar) -> bool {
        self@ is Some && other@ is Some && self@->0 == other@->0
    }

    /// The number with the given bit pattern.
    pub fn from_bits(bits: u64) -> (r: Scalar)
        ensures
            r.bits == bits,
    {
        Scalar { bits }
    }

    /// The bit pattern of the number.
    pub fn to_bits(&self) -> (r: u64)
        ensures
            r == self.bits,
    {
        self.bits
    }

    /// The number one.
    pub fn one() -> (r: Scalar)
        ensures
            r.bits == ONE_BITS,
            r@ == Some(ONE_BITS as int),
    {
        Scalar { bits: ONE_BITS }
    }

    fn exec_magnitude(&self) -> (r: u64)
        ensures
            r == self.magnitude(),
            r < SIGN_BIT,
    {
        if self.bits >= SIGN_BIT {
            self.bits - SIGN_BIT
        } else {
            self.bits
        }
    }

    /// Whether the number is a NaN.
    pub fn is_nan(&self) -> (r: bool)
        ensures
            r == self.spec_is_nan(),
            r == (self@ is None),
    {
        self.exec_magnitude() > INFINITY_BITS
    }

    /// Whether `self` is strictly below `other`.
    pub fn lt(&self, other: &Scalar) -> (r: bool)
        ensures
            r == self.spec_lt(*other),
    {
        if self.is_nan() || other.is_nan() {
            return false;
        }
        let a: u64 = self.exec_magnitude();
        let b: u64 = other.exec_magnitude();
        if self.bits >= SIGN_BIT {
            if other.bits >= SIGN_BIT {
                b < a
            } else {
                a != 0 || b != 0
            }
        } else {
            if other.bits >= SIGN_BIT {
                false
            } else {
                a < b
            }
        }
    }

    /// Whether `self` is strictly above `other`.
    pub fn gt(&self, other: &Scalar) -> (r: bool)
        ensures
            r == self.spec_gt(*other),
    {
        other.lt(self)
    }
}

impl PartialEq for Scalar {
    /// Equality of the numbers, not of the bit patterns.
    fn eq(&self, other: &Scalar) -> (r: bool) {
        if self.is_nan() || other.is_nan() {
            return false;
        }
        let a: u64 = self.exec_magnitude();
        let b: u64 = other.exec_magnitude();
        if a == 0 && b == 0 {
            true
        } else {
            self.bits == other.bits
        }
    }
}

impl PartialEqSpecImpl for Scalar {
    open spec fn obeys_eq_spec() -> bool {
        true
    }

    open spec fn eq_spec(&self, other: &Scalar) -> bool {
        self.spec_eq(*other)
    }
}

impl PartialOrd for Scalar {
    /// The IEEE 754 order: none where either number is a NaN.
    fn partial_cmp(&self, other: &Scalar) -> (r: Option<Ordering>) {
        if self.lt(other) {
            Some(Ordering::Less)
        } else if other.lt(self) {
            Some(Ordering::Greater)
        } else if self.is_nan() || other.is_nan() {
            None
        } else {
            Some(Ordering::Equal)
        }
    }
}

impl PartialOrdSpecImpl for Scalar {
    open spec fn obeys_partial_cmp_spec() -> bool {
        true
    }

    open spec fn partial_cmp_spec(&self, other: &Scalar) -> Option<Ordering> {
        if self.spec_lt(*other) {
            Some(Ordering::Less)
        } else if self.spec_gt(*other) {
            Some(Ordering::Greater)
        } else if self.spec_eq(*other) {
            Some(Ordering::Equal)
        } else {
            None
        }
    }
}

} // verus!
