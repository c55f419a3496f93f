//! Real-valued quantities as they cross the host boundary: 64-bit IEEE-754
//! words. The core compares such words; it never does arithmetic on them.
use vstd::arithmetic::mul::lemma_mul_inequality;
use vstd::arithmetic::mul::lemma_mul_strict_inequality;
use vstd::arithmetic::power2::lemma2_to64_rest;
use vstd::arithmetic::power2::lemma_pow2_adds;
use vstd::arithmetic::power2::lemma_pow2_pos;
use vstd::arithmetic::power2::lemma_pow2_strictly_increases;
use vstd::arithmetic::power2::pow2;
use vstd::prelude::*;

verus! {

/// The bits of a word below its sign bit: the exponent and the fraction.
pub const MAGNITUDE_MASK: u64 = 0x7fff_ffff_ffff_ffff;

/// The magnitude of positive and negative infinity. Every larger magnitude
/// is a NaN, every smaller one a finite number.
pub const INFINITY_MAGNITUDE: u64 = 0x7ff0_0000_0000_0000;

/// The magnitude of one and of minus one.
pub const ONE_MAGNITUDE: u64 = 0x3ff0_0000_0000_0000;

/// A binary64 number, held as its bit pattern: one sign bit, eleven bits of
/// biased exponent, fifty-two bits of fraction.
#[derive(Clone, Copy, Debug, PartialEq, Eq, Hash, Structural)]
pub struct Scalar {
    pub bits: u64,
}

impl Scalar {
    /// The biased exponent.
    pub open spec fn spec_exponent(self) -> nat {
        ((self.bits / 0x10_0000_0000_0000) % 0x800) as nat
    }

    /// The fraction.
    pub open spec fn spec_fraction(self) -> nat {
        (self.bits % 0x10_0000_0000_0000) as nat
    }

    /// Whether the sign bit is set.
    pub open spec fn spec_is_sign_negative(self) -> bool {
        self.bits >= 0x8000_0000_0000_0000
    }

    /// Whether the word encodes a number, and not an infinity or a NaN.
    pub open spec fn spec_is_finite(self) -> bool {
        self.spec_exponent() < 0x7ff
    }

    /// Whether the word encodes no number at all.
    pub open spec fn spec_is_nan(self) -> bool {
        self.spec_exponent() == 0x7ff && self.spec_fraction() != 0
    }

    /// The absolute value of a finite word, counted in units of the smallest
    /// positive number, 2 to the power of -1074. A subnormal word is worth
    /// its fraction; a normal one its fraction with the implicit bit before
    /// it, doubled once for each step of the exponent above one.
    pub open spec fn spec_units(self) -> nat
        recommends
            self.spec_is_finite(),
    {
        if self.spec_exponent() == 0 {
            self.spec_fraction()
        } else {
            (0x10_0000_0000_0000 + self.spec_fraction()) * pow2((self.spec_exponent() - 1) as nat)
        }
    }

    /// Whether the word encodes a number of the closed interval from -1 to 1:
    /// it is finite, and its absolute value is at most one, which is 2 to
    /// the power of 1074 units.
    pub open spec fn spec_is_normalized(self) -> bool {
        self.spec_is_finite() && self.spec_units() <= pow2(1074)
    }

    /// The word without its sign bit.
    pub open spec fn spec_magnitude(self) -> u64 {
        (self.bits % 0x8000_0000_0000_0000) as u64
    }

    /// The magnitude is the exponent followed by the fraction.
    pub proof fn lemma_magnitude_parts(self)
        ensures
            self.spec_magnitude() == self.spec_exponent() * 0x10_0000_0000_0000
                + self.spec_fraction(),
            self.spec_fraction() < 0x10_0000_0000_0000,
            self.spec_exponent() < 0x800,
    {
    }

    /// Among finite words the magnitude orders the absolute values, and the
    /// words that are not finite lie above all that are: so a word is a
    /// number between -1 and 1 exactly when its magnitude is at most that of
    /// one.
    pub proof fn lemma_normalized_by_magnitude(self)
        ensures
            self.spec_is_normalized() <==> self.spec_magnitude() <= ONE_MAGNITUDE,
    {
        self.lemma_magnitude_parts();
        lemma2_to64_rest();
        let exponent = self.spec_exponent();
        let fraction = self.spec_fraction();
        let significand = 0x10_0000_0000_0000 + fraction;
        lemma_pow2_strictly_increases(52, 1074);
        if exponent == 0 {
        } else {
            let doublings = (exponent - 1) as nat;
            let scale = pow2(doublings);
            lemma_pow2_pos(doublings);
            lemma_pow2_adds(52, doublings);
            lemma_pow2_adds(53, doublings);
            if exponent <= 1022 {
                lemma_mul_strict_inequality(significand as int, 0x20_0000_0000_0000, scale as int);
                if 53 + doublings < 1074 {
                    lemma_pow2_strictly_increases(53 + doublings, 1074);
                }
            } else if exponent == 1023 {
                if fraction != 0 {
                    lemma_mul_strict_inequality(
                        0x10_0000_0000_0000,
                        significand as int,
                        scale as int,
                    );
                }
            } else {
                lemma_mul_inequality(0x10_0000_0000_0000, significand as int, scale as int);
                lemma_pow2_strictly_increases(1074, 52 + doublings);
            }
        }
    }

    /// The number with the given bit pattern.
    pub fn from_bits(bits: u64) -> (scalar: Scalar)
        ensures
            scalar.bits == bits,
    {
        Scalar { bits }
    }

    /// The bit pattern of the number.
    pub fn to_bits(&self) -> (bits: u64)
        ensures
            bits == self.bits,
    {
        self.bits
    }

    pub fn magnitude(&self) -> (magnitude: u64)
        ensures
            magnitude == self.spec_magnitude(),
    {
        let bits = self.bits;
        assert(bits & 0x7fff_ffff_ffff_ffff == bits % 0x8000_0000_0000_0000) by (bit_vector);
        bits & MAGNITUDE_MASK
    }

    pub fn is_sign_negative(&self) -> (negative: bool)
        ensures
            negative == self.spec_is_sign_negative(),
    {
        self.bits >= 0x8000_0000_0000_0000
    }

    pub fn is_finite(&self) -> (finite: bool)
        ensures
            finite == self.spec_is_finite(),
    {
        proof {
            self.lemma_magnitude_parts();
        }
        self.magnitude() < INFINITY_MAGNITUDE
    }

    pub fn is_nan(&self) -> (nan: bool)
        ensures
            nan == self.spec_is_nan(),
    {
        proof {
            self.lemma_magnitude_parts();
        }
        self.magnitude() > INFINITY_MAGNITUDE
    }

    /// Whether this is a number between -1 and 1, both ends included. Neither
    /// infinity nor any NaN is.
    pub fn is_normalized(&self) -> (normalized: bool)
        ensures
            normalized == self.spec_is_normalized(),
    {
        proof {
            self.lemma_normalized_by_magnitude();
        }
        self.magnitude() <= ONE_MAGNITUDE
    }

    /// The word of zero.
    pub fn zero() -> (scalar: Scalar)
        ensures
            scalar.bits == 0,
            scalar.spec_is_finite(),
            scalar.spec_units() == 0,
    {
        Scalar { bits: 0 }
    }

    /// The word of one.
    pub fn one() -> (scalar: Scalar)
        ensures
            scalar.bits == ONE_MAGNITUDE,
            !scalar.spec_is_sign_negative(),
            scalar.spec_is_finite(),
            scalar.spec_units() == pow2(1074),
    {
        let scalar = Scalar { bits: ONE_MAGNITUDE };
        proof {
            lemma2_to64_rest();
            lemma_pow2_adds(52, 1022);
        }
        scalar
    }

    /// The word of minus one.
    pub fn minus_one() -> (scalar: Scalar)
        ensures
            scalar.bits == 0x8000_0000_0000_0000 + ONE_MAGNITUDE,
            scalar.spec_is_sign_negative(),
            scalar.spec_is_finite(),
            scalar.spec_units() == pow2(1074),
    {
        let scalar = Scalar { bits: 0xbff0_0000_0000_0000 };
        proof {
            lemma2_to64_rest();
            lemma_pow2_adds(52, 1022);
        }
        scalar
    }
}

} // verus!
