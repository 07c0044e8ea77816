//! Double-precision numbers by their bit pattern.

use vstd::arithmetic::power2::pow2;
use vstd::prelude::*;

verus! {

/// The sign bit.
pub const SIGN_BIT: u64 = 0x8000_0000_0000_0000;

/// The bit pattern of positive infinity, above which a magnitude is not a number.
pub const INFINITY_BITS: u64 = 0x7ff0_0000_0000_0000;

/// The lowest bit of the exponent, and the weight of the significand's leading bit.
pub const HIDDEN_BIT: u64 = 0x0010_0000_0000_0000;

/// An IEEE 754 double-precision number, held by its bit pattern.
///
/// The library compares such numbers and hands them on; arithmetic on them is left to the shell.
#[derive(Clone, Copy, Debug)]
pub struct Binary64 {
    pub bits: u64,
}

impl Binary64 {
    /// The bits without the sign.
    pub open spec fn magnitude(self) -> int {
        if self.bits < SIGN_BIT {
            self.bits as int
        } else {
            self.bits - SIGN_BIT
        }
    }

    pub open spec fn nan(self) -> bool {
        self.magnitude() > INFINITY_BITS
    }

    pub open spec fn finite(self) -> bool {
        self.magnitude() < INFINITY_BITS
    }

    /// The place of the number among all numbers: of two numbers the smaller one has the smaller
    /// rank, and only the two zeros share one.
    pub open spec fn rank(self) -> int {
        if self.bits < SIGN_BIT {
            self.magnitude()
        } else {
            -self.magnitude()
        }
    }

    /// Numeric equality: the two zeros are equal, and what is not a number equals nothing.
    pub open spec fn equals(self, other: Self) -> bool {
        !self.nan() && !other.nan() && self.rank() == other.rank()
    }

    /// Numeric order: what is not a number is neither below nor above anything.
    pub open spec fn below(self, other: Self) -> bool {
        !self.nan() && !other.nan() && self.rank() < other.rank()
    }

    pub open spec fn positive(self) -> bool {
        !self.nan() && self.rank() > 0
    }

    pub open spec fn negated(self) -> Self {
        Binary64 {
            bits: if self.bits < SIGN_BIT {
                (self.bits + SIGN_BIT) as u64
            } else {
                (self.bits - SIGN_BIT) as u64
            },
        }
    }

    /// The exponent as it stands in the bits.
    pub open spec fn biased_exponent(self) -> int {
        self.magnitude() / HIDDEN_BIT as int
    }

    /// The significand as an integer, with the leading bit that a normal number leaves out.
    pub open spec fn significand(self) -> int {
        self.magnitude() % HIDDEN_BIT as int + if self.biased_exponent() == 0 {
            0int
        } else {
            HIDDEN_BIT as int
        }
    }

    /// The integer nearest to the number without its sign, the larger one where two are equally
    /// near. The number is the significand times a power of two.
    pub open spec fn rounded_magnitude(self) -> int {
        let exponent = if self.biased_exponent() == 0 {
            -1074
        } else {
            self.biased_exponent() - 1075
        };
        if exponent >= 0 {
            self.significand() * pow2(exponent as nat)
        } else {
            let unit = pow2((-exponent) as nat) as int;
            (2 * self.significand() + unit) / (2 * unit)
        }
    }

    /// The integer nearest to the number, away from zero where two are equally near, or the end
    /// of the range where that is beyond it; zero for what is not a number.
    pub open spec fn rounded_to_i32(self) -> i32 {
        if self.nan() {
            0
        } else if self.bits < SIGN_BIT {
            if self.rounded_magnitude() > i32::MAX {
                i32::MAX
            } else {
                self.rounded_magnitude() as i32
            }
        } else if -self.rounded_magnitude() < i32::MIN {
            i32::MIN
        } else {
            (-self.rounded_magnitude()) as i32
        }
    }

    pub fn from_bits(bits: u64) -> (r: Self)
        ensures
            r.bits == bits,
    {
        Binary64 { bits }
    }

    pub fn to_bits(self) -> (r: u64)
        ensures
            r == self.bits,
    {
        self.bits
    }

    pub fn is_nan(self) -> (r: bool)
        ensures
            r == self.nan(),
    {
        if self.bits < SIGN_BIT {
            self.bits > INFINITY_BITS
        } else {
            self.bits - SIGN_BIT > INFINITY_BITS
        }
    }

    pub fn is_finite(self) -> (r: bool)
        ensures
            r == self.finite(),
    {
        if self.bits < SIGN_BIT {
            self.bits < INFINITY_BITS
        } else {
            self.bits - SIGN_BIT < INFINITY_BITS
        }
    }

    pub fn is_below(self, other: Self) -> (r: bool)
        ensures
            r == self.below(other),
    {
        if self.is_nan() || other.is_nan() {
            false
        } else if self.bits < SIGN_BIT {
            other.bits < SIGN_BIT && self.bits < other.bits
        } else if other.bits < SIGN_BIT {
            self.bits > SIGN_BIT || other.bits > 0
        } else {
            self.bits > other.bits
        }
    }

    pub fn is_positive(self) -> (r: bool)
        ensures
            r == self.positive(),
    {
        !self.is_nan() && 0 < self.bits && self.bits < SIGN_BIT
    }

    pub fn round_to_i32(self) -> (r: i32)
        ensures
            r == self.rounded_to_i32(),
    {
        if self.is_nan() {
            return 0;
        }
        let is_negative = self.bits >= SIGN_BIT;
        let magnitude: u64 = if is_negative {
            self.bits - SIGN_BIT
        } else {
            self.bits
        };
        let exponent: u64 = magnitude / HIDDEN_BIT;
        if exponent >= 1054 {
            proof {
                self.lemma_large_magnitude();
            }
            return if is_negative {
                i32::MIN
            } else {
                i32::MAX
            };
        }
        if exponent < 1022 {
            proof {
                self.lemma_small_magnitude();
            }
            return 0;
        }
        let significand: u64 = magnitude % HIDDEN_BIT + HIDDEN_BIT;
        let shift: u64 = 1075 - exponent;
        proof {
            vstd::arithmetic::power2::lemma2_to64_rest();
            if shift < 53 {
                vstd::arithmetic::power2::lemma_pow2_strictly_increases(shift as nat, 53);
            }
            vstd::arithmetic::power2::lemma_pow2_pos(shift as nat);
            vstd::bits::lemma_u64_shl_is_mul(1, shift);
            self.lemma_medium_magnitude();
        }
        let unit: u64 = 1u64 << shift;
        let rounded: u64 = (2 * significand + unit) / (2 * unit);
        if is_negative {
            if rounded == 0x8000_0000 {
                i32::MIN
            } else {
                -(rounded as i32)
            }
        } else if rounded == 0x8000_0000 {
            i32::MAX
        } else {
            rounded as i32
        }
    }

    proof fn lemma_large_magnitude(self)
        requires
            self.biased_exponent() >= 1054,
        ensures
            self.rounded_magnitude() >= 0x8000_0000,
    {
        let exponent = self.biased_exponent() - 1075;
        let significand = self.significand();
        if exponent >= 0 {
            let unit = pow2(exponent as nat) as int;
            vstd::arithmetic::power2::lemma_pow2_pos(exponent as nat);
            assert(significand * unit >= significand) by (nonlinear_arith)
                requires
                    unit >= 1,
                    significand >= 0,
            ;
        } else {
            let unit = pow2((-exponent) as nat) as int;
            vstd::arithmetic::power2::lemma2_to64();
            if -exponent < 21 {
                vstd::arithmetic::power2::lemma_pow2_strictly_increases((-exponent) as nat, 21);
            }
            vstd::arithmetic::power2::lemma_pow2_pos((-exponent) as nat);
            assert((2 * significand + unit) / (2 * unit) >= 0x8000_0000) by (nonlinear_arith)
                requires
                    significand >= 0x10_0000_0000_0000,
                    1 <= unit <= 0x20_0000,
            ;
        }
    }

    proof fn lemma_small_magnitude(self)
        requires
            self.biased_exponent() < 1022,
        ensures
            self.rounded_magnitude() == 0,
    {
        let exponent = if self.biased_exponent() == 0 {
            -1074
        } else {
            self.biased_exponent() - 1075
        };
        let significand = self.significand();
        let unit = pow2((-exponent) as nat) as int;
        vstd::arithmetic::power2::lemma2_to64_rest();
        if -exponent > 54 {
            vstd::arithmetic::power2::lemma_pow2_strictly_increases(54, (-exponent) as nat);
        }
        assert((2 * significand + unit) / (2 * unit) == 0) by (nonlinear_arith)
            requires
                0 <= 2 * significand < 0x40_0000_0000_0000 <= unit,
        ;
    }

    proof fn lemma_medium_magnitude(self)
        requires
            1022 <= self.biased_exponent() < 1054,
        ensures
            0 <= self.rounded_magnitude() <= 0x8000_0000,
    {
        let exponent = self.biased_exponent() - 1075;
        let significand = self.significand();
        let unit = pow2((-exponent) as nat) as int;
        vstd::arithmetic::power2::lemma2_to64();
        if -exponent > 22 {
            vstd::arithmetic::power2::lemma_pow2_strictly_increases(22, (-exponent) as nat);
        }
        assert(0 <= (2 * significand + unit) / (2 * unit) <= 0x8000_0000) by (nonlinear_arith)
            requires
                0 <= significand < 0x20_0000_0000_0000,
                unit >= 0x40_0000,
        ;
    }

    pub fn negate(self) -> (r: Self)
        ensures
            r == self.negated(),
    {
        if self.bits < SIGN_BIT {
            Binary64 { bits: self.bits + SIGN_BIT }
        } else {
            Binary64 { bits: self.bits - SIGN_BIT }
        }
    }
}

impl PartialEq for Binary64 {
    fn eq(&self, other: &Self) -> (r: bool)
        ensures
            r <==> self.has_same_value_as(*other),
    {
        if self.is_nan() || other.is_nan() {
            false
        } else if self.bits == 0 || self.bits == SIGN_BIT {
            other.bits == 0 || other.bits == SIGN_BIT
        } else {
            self.bits == other.bits
        }
    }
}

impl vstd::std_specs::cmp::PartialEqSpecImpl for Binary64 {
    open spec fn obeys_eq_spec() -> bool {
        true
    }

    open spec fn eq_spec(&self, other: &Self) -> bool {
        self.equals(*other)
    }
}

} // verus!
