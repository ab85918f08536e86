//! IEEE 754 binary64 numbers as bit patterns, and the numbers they stand for.

use vstd::arithmetic::mul::lemma_mul_strict_inequality;
use vstd::arithmetic::mul::lemma_mul_inequality;
use vstd::arithmetic::mul::lemma_mul_strictly_positive;
use vstd::arithmetic::power2::lemma2_to64;
use vstd::arithmetic::power2::lemma2_to64_rest;
use vstd::arithmetic::power2::lemma_pow2_adds;
use vstd::arithmetic::power2::lemma_pow2_pos;
use vstd::arithmetic::power2::lemma_pow2_strictly_increases;
use vstd::arithmetic::power2::lemma_pow2_unfold;
use vstd::arithmetic::power2::pow2;
use vstd::prelude::*;
use vstd::std_specs::cmp::PartialEqSpecImpl;

verus! {

/// The sign bit of a pattern.
pub const SIGN_BIT: u64 = 0x8000_0000_0000_0000;

/// The eleven exponent bits of a pattern; alone they are the pattern of +∞.
pub const EXPONENT_MASK: u64 = 0x7ff0_0000_0000_0000;

/// The weight of the implicit leading bit of a normal number, 2^52.
pub const HIDDEN_BIT: u64 = 0x0010_0000_0000_0000;

/// The pattern of the double nearest to π.
pub const PI_BITS: u64 = 0x4009_21fb_5444_2d18;

/// The significand of the double nearest to π, implicit bit included.
pub const PI_SIGNIFICAND: u64 = 0x0019_21fb_5444_2d18;

/// The number that a pattern stands for.
///
/// A finite number is counted in units of 2^-1074, the smallest positive
/// double: every finite double is a whole number of such units, so the model
/// needs no fractions. Both zeros stand for `Finite(0)`.
pub enum Number {
    Finite(int),
    PositiveInfinity,
    NegativeInfinity,
    NotANumber,
}

impl Number {
    /// Strictly greater than zero.
    pub open spec fn is_positive(self) -> bool {
        match self {
            Number::Finite(units) => units > 0,
            Number::PositiveInfinity => true,
            Number::NegativeInfinity => false,
            Number::NotANumber => false,
        }
    }

    /// Neither infinite nor a NaN.
    pub open spec fn is_finite(self) -> bool {
        self is Finite
    }

    /// The number with the opposite sign.
    pub open spec fn negated(self) -> Number {
        match self {
            Number::Finite(units) => Number::Finite(-units),
            Number::PositiveInfinity => Number::NegativeInfinity,
            Number::NegativeInfinity => Number::PositiveInfinity,
            Number::NotANumber => Number::NotANumber,
        }
    }
}

/// A double, held as its 64-bit pattern.
#[derive(Clone, Copy, Debug)]
pub struct Binary64 {
    pub bits: u64,
}

impl Binary64 {
    /// Whether the sign bit is set.
    pub open spec fn sign(self) -> bool {
        self.bits >= SIGN_BIT
    }

    /// The pattern without its sign bit.
    pub open spec fn magnitude(self) -> int {
        (self.bits % SIGN_BIT) as int
    }

    /// The biased exponent field, 0 to 2047.
    pub open spec fn exponent(self) -> int {
        self.magnitude() / (HIDDEN_BIT as int)
    }

    /// The fraction field, below 2^52.
    pub open spec fn fraction(self) -> int {
        self.magnitude() % (HIDDEN_BIT as int)
    }

    /// Equality of doubles: both stand for the same number, and it is not a
    /// NaN. The two zeros are equal; a NaN equals nothing, itself included.
    pub open spec fn equals(self, other: Binary64) -> bool {
        self@ != Number::NotANumber && self@ == other@
    }

    /// The pattern that differs in the sign bit alone.
    pub open spec fn opposite(self) -> Binary64 {
        if self.sign() {
            Binary64 { bits: (self.bits - SIGN_BIT) as u64 }
        } else {
            Binary64 { bits: (self.bits + SIGN_BIT) as u64 }
        }
    }

    /// The absolute value of a finite pattern, in units of 2^-1074.
    ///
    /// A subnormal number is its fraction; a normal number with biased
    /// exponent e is (2^52 + fraction) · 2^(e-1).
    pub open spec fn units(self) -> int {
        if self.exponent() == 0 {
            self.fraction()
        } else {
            (HIDDEN_BIT + self.fraction()) * pow2((self.exponent() - 1) as nat)
        }
    }
}

impl View for Binary64 {
    type V = Number;

    open spec fn view(&self) -> Number {
        if self.exponent() == 2047 {
            if self.fraction() != 0 {
                Number::NotANumber
            } else if self.sign() {
                Number::NegativeInfinity
            } else {
                Number::PositiveInfinity
            }
        } else if self.sign() {
            Number::Finite(-self.units())
        } else {
            Number::Finite(self.units())
        }
    }
}

/// A finite pattern's count of units is never negative, and is zero only for
/// the two zeros.
pub proof fn lemma_units_nonnegative(a: Binary64)
    ensures
        a.units() >= 0,
        a.units() == 0 <==> a.magnitude() == 0,
{
    if a.exponent() != 0 {
        let scale = pow2((a.exponent() - 1) as nat) as int;
        lemma_pow2_pos((a.exponent() - 1) as nat);
        lemma_mul_strictly_positive(HIDDEN_BIT + a.fraction(), scale);
    }
}

/// The classes of doubles are ranges of patterns: above the pattern of +∞ a
/// magnitude is a NaN, below it a finite number, and the strictly positive
/// doubles are the patterns from 1 up to that of +∞.
pub proof fn lemma_classification(a: Binary64)
    ensures
        a@ == Number::NotANumber <==> a.magnitude() > EXPONENT_MASK,
        a@.is_finite() <==> a.magnitude() < EXPONENT_MASK,
        a@.is_positive() <==> 0 < a.bits <= EXPONENT_MASK,
{
    lemma_units_nonnegative(a);
}

/// On patterns without the sign bit, the order of the patterns is the order of
/// the numbers: a larger magnitude stands for more units.
pub proof fn lemma_units_increasing(a: Binary64, b: Binary64)
    requires
        a.magnitude() < b.magnitude(),
    ensures
        a.units() < b.units(),
{
    let hidden = HIDDEN_BIT as int;
    if a.exponent() == b.exponent() {
        if a.exponent() != 0 {
            let scale = pow2((a.exponent() - 1) as nat) as int;
            lemma_pow2_pos((a.exponent() - 1) as nat);
            lemma_mul_strict_inequality(hidden + a.fraction(), hidden + b.fraction(), scale);
        }
    } else {
        let low = pow2(a.exponent() as nat) as int;
        let high = pow2((b.exponent() - 1) as nat) as int;
        // a stays below 2^52 · 2^ea
        if a.exponent() == 0 {
            lemma_pow2_unfold(1);
            assert(pow2(0) == 1) by {
                lemma2_to64();
            }
            assert(a.units() < hidden * low);
        } else {
            let scale = pow2((a.exponent() - 1) as nat) as int;
            lemma_pow2_pos((a.exponent() - 1) as nat);
            lemma_pow2_unfold(a.exponent() as nat);
            lemma_mul_strict_inequality(hidden + a.fraction(), 2 * hidden, scale);
            assert((2 * hidden) * scale == hidden * (2 * scale)) by (nonlinear_arith);
            assert(a.units() < hidden * low);
        }
        // 2^ea is at most 2^(eb-1)
        if a.exponent() < b.exponent() - 1 {
            lemma_pow2_strictly_increases(a.exponent() as nat, (b.exponent() - 1) as nat);
        }
        assert(low <= high);
        lemma_mul_inequality(low, high, hidden);
        assert(hidden * low <= hidden * high) by (nonlinear_arith)
            requires
                low * hidden <= high * hidden,
        ;
        // b is at least 2^52 · 2^(eb-1)
        lemma_pow2_pos((b.exponent() - 1) as nat);
        lemma_mul_inequality(hidden, hidden + b.fraction(), high);
        assert(hidden * high <= b.units());
    }
}

/// Flipping the sign bit negates the number; a NaN stays a NaN.
pub proof fn lemma_opposite_negates(a: Binary64)
    ensures
        a.opposite()@ == a@.negated(),
        a.opposite().magnitude() == a.magnitude(),
        a.opposite().sign() != a.sign(),
        a.opposite().opposite() == a,
{
}

/// The double nearest to π is 0x1921fb54442d18 · 2^-51, which agrees with π
/// to fifteen decimal places: it lies between 3.141592653589793 and
/// 3.141592653589794. Both bounds are stated in units of 2^-1074, scaled by
/// 10^15.
pub proof fn lemma_pi_value()
    ensures
        Binary64::spec_pi()@ == Number::Finite(PI_SIGNIFICAND * pow2(1023)),
        3_141_592_653_589_793 * pow2(1074) <= 1_000_000_000_000_000 * (PI_SIGNIFICAND * pow2(
            1023,
        )),
        1_000_000_000_000_000 * (PI_SIGNIFICAND * pow2(1023)) < 3_141_592_653_589_794 * pow2(
            1074,
        ),
{
    let unit = pow2(1023) as int;
    let significand = PI_SIGNIFICAND as int;
    lemma_pow2_pos(1023);
    lemma_pow2_adds(1023, 51);
    lemma2_to64_rest();
    assert(pow2(1074) == unit * 0x8_0000_0000_0000);
    assert(Binary64::spec_pi().exponent() == 1024);
    assert(Binary64::spec_pi().fraction() == 0x9_21fb_5444_2d18);
    assert(3_141_592_653_589_793 * (unit * 0x8_0000_0000_0000) <= 1_000_000_000_000_000 * (
    significand * unit)) by (nonlinear_arith)
        requires
            unit > 0,
            significand == 0x0019_21fb_5444_2d18,
    ;
    assert(1_000_000_000_000_000 * (significand * unit) < 3_141_592_653_589_794 * (unit
        * 0x8_0000_0000_0000)) by (nonlinear_arith)
        requires
            unit > 0,
            significand == 0x0019_21fb_5444_2d18,
    ;
}

/// Two patterns that stand for the same number, not a NaN, are the same
/// pattern, or are the two zeros.
pub proof fn lemma_number_determines_pattern(a: Binary64, b: Binary64)
    requires
        a@ == b@,
        a@ != Number::NotANumber,
    ensures
        a.bits == b.bits || (a.magnitude() == 0 && b.magnitude() == 0),
{
    lemma_units_nonnegative(a);
    lemma_units_nonnegative(b);
    if a@.is_finite() {
        if a.sign() == b.sign() {
            if a.magnitude() < b.magnitude() {
                lemma_units_increasing(a, b);
            } else if b.magnitude() < a.magnitude() {
                lemma_units_increasing(b, a);
            }
        }
    }
}

impl Binary64 {
    /// The double with the given pattern.
    pub fn from_bits(bits: u64) -> (r: Binary64)
        ensures
            r.bits == bits,
    {
        Binary64 { bits }
    }

    /// The pattern of this double.
    pub fn to_bits(self) -> (r: u64)
        ensures
            r == self.bits,
    {
        self.bits
    }

    /// Whether this is a NaN: all exponent bits set and a fraction that is not zero.
    pub fn is_nan(self) -> (r: bool)
        ensures
            r == (self@ == Number::NotANumber),
    {
        let magnitude: u64 = self.bits & !SIGN_BIT;
        proof {
            let bits = self.bits;
            assert(bits & !0x8000_0000_0000_0000u64 == bits % 0x8000_0000_0000_0000u64)
                by (bit_vector);
            lemma_classification(self);
        }
        magnitude > EXPONENT_MASK
    }

    /// Whether this is neither infinite nor a NaN.
    pub fn is_finite(self) -> (r: bool)
        ensures
            r == self@.is_finite(),
    {
        let magnitude: u64 = self.bits & !SIGN_BIT;
        proof {
            let bits = self.bits;
            assert(bits & !0x8000_0000_0000_0000u64 == bits % 0x8000_0000_0000_0000u64)
                by (bit_vector);
            lemma_classification(self);
        }
        magnitude < EXPONENT_MASK
    }

    /// Whether this is strictly greater than zero; false for a NaN.
    pub fn is_positive(self) -> (r: bool)
        ensures
            r == self@.is_positive(),
    {
        proof {
            lemma_classification(self);
        }
        self.bits != 0 && self.bits <= EXPONENT_MASK
    }

    /// The double with the opposite sign: the same pattern but for the sign bit.
    pub fn negated(self) -> (r: Binary64)
        ensures
            r == self.opposite(),
            r@ == self@.negated(),
    {
        proof {
            let bits = self.bits;
            assert(bits >= 0x8000_0000_0000_0000u64 ==> bits ^ 0x8000_0000_0000_0000u64 == bits
                - 0x8000_0000_0000_0000u64) by (bit_vector);
            assert(bits < 0x8000_0000_0000_0000u64 ==> bits ^ 0x8000_0000_0000_0000u64 == bits
                + 0x8000_0000_0000_0000u64) by (bit_vector);
            lemma_opposite_negates(self);
        }
        Binary64 { bits: self.bits ^ SIGN_BIT }
    }

    /// The double nearest to π.
    pub open spec fn spec_pi() -> Binary64 {
        Binary64 { bits: PI_BITS }
    }

    /// The double nearest to π.
    #[verifier::when_used_as_spec(spec_pi)]
    pub fn pi() -> (r: Binary64)
        ensures
            r == Binary64::spec_pi(),
    {
        Binary64 { bits: PI_BITS }
    }
}

impl PartialEq for Binary64 {
    /// Equality of doubles: a NaN equals nothing, the two zeros equal each
    /// other, and otherwise equal numbers have equal patterns.
    fn eq(&self, other: &Binary64) -> (r: bool) {
        if self.is_nan() || other.is_nan() {
            false
        } else if self.bits == other.bits {
            true
        } else {
            proof {
                let a = self.bits;
                let b = other.bits;
                assert(((a | b) & !0x8000_0000_0000_0000u64 == 0) <==> (a
                    % 0x8000_0000_0000_0000u64 == 0 && b % 0x8000_0000_0000_0000u64 == 0))
                    by (bit_vector);
                lemma_units_nonnegative(*self);
                lemma_units_nonnegative(*other);
                if self@ == other@ {
                    lemma_number_determines_pattern(*self, *other);
                }
            }
            (self.bits | other.bits) & !SIGN_BIT == 0
        }
    }
}

impl PartialEqSpecImpl for Binary64 {
    open spec fn obeys_eq_spec() -> bool {
        true
    }

    open spec fn eq_spec(&self, other: &Binary64) -> bool {
        self.equals(*other)
    }
}

} // verus!
