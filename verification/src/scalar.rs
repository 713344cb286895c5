//! Binary64 numbers held by their bit patterns.
//!
//! Every number of the library is an IEEE-754 binary64 value carried as the
//! 64 bits of its encoding. What can be read off the encoding (sign, order,
//! equality, negation, absolute value, integral part) is computed and proved
//! here on the bits. Rounded arithmetic, roots, sine and cosine are delegated to software
//! implementations working on the same encoding; each such operation is a
//! pure function of the bits it is given, and contracts refer to its result
//! by name.

use vstd::prelude::*;
use const_soft_float::soft_f64::SoftF64;
use rustc_apfloat::ieee::Double;
use rustc_apfloat::Float;
use rustc_apfloat::Round;

verus! {

/// The bit that carries the sign.
pub const SIGN_MASK: u64 = 0x8000_0000_0000_0000;

/// The bits that carry exponent and significand.
pub const MAGNITUDE_MASK: u64 = 0x7FFF_FFFF_FFFF_FFFF;

/// The encoding of positive infinity; every larger magnitude is a NaN.
pub const INFINITY_BITS: u64 = 0x7FF0_0000_0000_0000;

/// The bits that carry the significand.
pub const SIGNIFICAND_MASK: u64 = 0x000F_FFFF_FFFF_FFFF;

/// The number of bits of the significand.
pub const SIGNIFICAND_BITS: u64 = 52;

/// The largest value of the exponent field.
pub const EXPONENT_MAX: u64 = 0x7FF;

/// The exponent field of the numbers from one up to two.
pub const EXPONENT_BIAS: u64 = 1023;

/// The encoding of `1`.
pub const ONE_BITS: u64 = 0x3FF0_0000_0000_0000;

/// The encoding of `2`.
pub const TWO_BITS: u64 = 0x4000_0000_0000_0000;

/// The encoding of `4`.
pub const FOUR_BITS: u64 = 0x4010_0000_0000_0000;

/// The encoding of one half.
pub const HALF_BITS: u64 = 0x3FE0_0000_0000_0000;

/// The encoding of one millionth, the tolerance of the geometric tests.
pub const EPSILON_BITS: u64 = 0x3EB0_C6F7_A0B5_ED8D;

/// The encoding of the gap between `1` and the next larger number.
pub const MACHINE_EPSILON_BITS: u64 = 0x3CB0_0000_0000_0000;

/// The encoding of the number nearest to half of pi.
pub const FRAC_PI_2_BITS: u64 = 0x3FF9_21FB_5444_2D18;

/// The encoding of the number nearest to a third of pi.
pub const FRAC_PI_3_BITS: u64 = 0x3FF0_C152_382D_7366;

/// The encoding of the number nearest to a quarter of pi.
pub const FRAC_PI_4_BITS: u64 = 0x3FE9_21FB_5444_2D18;

/// The number of binary places of the fraction of an exponent that a power
/// takes into account.
pub const ROOT_STEPS: u64 = 64;

/// The sum of two numbers, rounded to nearest, ties to even.
pub uninterp spec fn float_add(a: u64, b: u64) -> u64;

/// The difference of two numbers, rounded to nearest, ties to even.
pub uninterp spec fn float_sub(a: u64, b: u64) -> u64;

/// The product of two numbers, rounded to nearest, ties to even.
pub uninterp spec fn float_mul(a: u64, b: u64) -> u64;

/// The quotient of two numbers, rounded to nearest, ties to even.
pub uninterp spec fn float_div(a: u64, b: u64) -> u64;

/// `a * b + c` with a single rounding.
pub uninterp spec fn float_mul_add(a: u64, b: u64, c: u64) -> u64;

/// The remainder of `a / b` that has the sign of `a`.
pub uninterp spec fn float_rem(a: u64, b: u64) -> u64;

/// The square root, rounded to nearest.
pub uninterp spec fn float_sqrt(a: u64) -> u64;

/// The largest integral number not above `a`.
pub uninterp spec fn float_floor(a: u64) -> u64;

/// The integral number nearest to `a`, halves away from zero.
pub uninterp spec fn float_round(a: u64) -> u64;

/// The sine of an angle in radians.
pub uninterp spec fn float_sin(a: u64) -> u64;

/// The cosine of an angle in radians.
pub uninterp spec fn float_cos(a: u64) -> u64;

/// The number nearest to an unsigned integer.
pub uninterp spec fn float_from_int(n: u64) -> u64;

/// The integral part of a number as an unsigned integer, saturated.
pub uninterp spec fn float_to_int(a: u64) -> u64;

/// Calls `Float::add_r` of `rustc_apfloat`, rounding to nearest with ties to
/// even, on `Double` values made from the two encodings. The result is the
/// encoding of the value it returns, which depends on the operands alone.
#[verifier::external_body]
fn add_bits(a: u64, b: u64) -> (r: u64)
    ensures
        r == float_add(a, b),
{
    let x = Double::from_bits(a as u128);
    let y = Double::from_bits(b as u128);
    x.add_r(y, Round::NearestTiesToEven).value.to_bits() as u64
}

/// Calls `Float::sub_r` of `rustc_apfloat`, rounding to nearest with ties to
/// even, on `Double` values made from the two encodings. The result is the
/// encoding of the value it returns, which depends on the operands alone.
#[verifier::external_body]
fn sub_bits(a: u64, b: u64) -> (r: u64)
    ensures
        r == float_sub(a, b),
{
    let x = Double::from_bits(a as u128);
    let y = Double::from_bits(b as u128);
    x.sub_r(y, Round::NearestTiesToEven).value.to_bits() as u64
}

/// Calls `Float::mul_r` of `rustc_apfloat`, rounding to nearest with ties to
/// even, on `Double` values made from the two encodings. The result is the
/// encoding of the value it returns, which depends on the operands alone.
#[verifier::external_body]
fn mul_bits(a: u64, b: u64) -> (r: u64)
    ensures
        r == float_mul(a, b),
{
    let x = Double::from_bits(a as u128);
    let y = Double::from_bits(b as u128);
    x.mul_r(y, Round::NearestTiesToEven).value.to_bits() as u64
}

/// Calls `Float::div_r` of `rustc_apfloat`, rounding to nearest with ties to
/// even, on `Double` values made from the two encodings. The result is the
/// encoding of the value it returns, which depends on the operands alone; it
/// returns for every divisor, zero too.
#[verifier::external_body]
fn div_bits(a: u64, b: u64) -> (r: u64)
    ensures
        r == float_div(a, b),
{
    let x = Double::from_bits(a as u128);
    let y = Double::from_bits(b as u128);
    x.div_r(y, Round::NearestTiesToEven).value.to_bits() as u64
}

/// Calls `Float::mul_add` of `rustc_apfloat` on `Double` values made from
/// the three encodings. The result is the encoding of the value it returns,
/// which depends on the operands alone.
#[verifier::external_body]
fn mul_add_bits(a: u64, b: u64, c: u64) -> (r: u64)
    ensures
        r == float_mul_add(a, b, c),
{
    let x = Double::from_bits(a as u128);
    let y = Double::from_bits(b as u128);
    let z = Double::from_bits(c as u128);
    x.mul_add(y, z).value.to_bits() as u64
}

/// Calls `Float::c_fmod` of `rustc_apfloat` on `Double` values made from the
/// two encodings. The result is the encoding of the value it returns, which
/// depends on the operands alone.
#[verifier::external_body]
fn rem_bits(a: u64, b: u64) -> (r: u64)
    ensures
        r == float_rem(a, b),
{
    let x = Double::from_bits(a as u128);
    let y = Double::from_bits(b as u128);
    x.c_fmod(y).value.to_bits() as u64
}

/// Calls `SoftF64::sqrt` of `const_soft_float`. The result is the encoding
/// it returns, which depends on the operand alone; it returns for every
/// operand, negative ones too.
#[verifier::external_body]
fn sqrt_bits(a: u64) -> (r: u64)
    ensures
        r == float_sqrt(a),
{
    SoftF64::from_bits(a).sqrt().to_bits()
}

/// Calls `SoftF64::floor` of `const_soft_float`. The result is the encoding
/// it returns, which depends on the operand alone.
#[verifier::external_body]
fn floor_bits(a: u64) -> (r: u64)
    ensures
        r == float_floor(a),
{
    SoftF64::from_bits(a).floor().to_bits()
}

/// Calls `SoftF64::round` of `const_soft_float`. The result is the encoding
/// it returns, which depends on the operand alone.
#[verifier::external_body]
fn round_bits(a: u64) -> (r: u64)
    ensures
        r == float_round(a),
{
    SoftF64::from_bits(a).round().to_bits()
}

/// Calls `SoftF64::sin` of `const_soft_float`. The result is the encoding it
/// returns, which depends on the operand alone.
#[verifier::external_body]
fn sin_bits(a: u64) -> (r: u64)
    ensures
        r == float_sin(a),
{
    SoftF64::from_bits(a).sin().to_bits()
}

/// Calls `SoftF64::cos` of `const_soft_float`. The result is the encoding it
/// returns, which depends on the operand alone.
#[verifier::external_body]
fn cos_bits(a: u64) -> (r: u64)
    ensures
        r == float_cos(a),
{
    SoftF64::from_bits(a).cos().to_bits()
}

/// Calls `Float::from_u128` of `rustc_apfloat` for `Double`. The result is
/// the encoding of the value it returns, which depends on the integer alone.
#[verifier::external_body]
fn from_int_bits(n: u64) -> (r: u64)
    ensures
        r == float_from_int(n),
{
    Double::from_u128(n as u128).value.to_bits() as u64
}

/// Calls `Float::to_u128` of `rustc_apfloat` with a width of 64 bits on the
/// `Double` made from the encoding. The result is the integer it returns,
/// which depends on the operand alone; it returns for every operand.
#[verifier::external_body]
fn to_int_bits(a: u64) -> (r: u64)
    ensures
        r == float_to_int(a),
{
    Double::from_bits(a as u128).to_u128(64).value as u64
}

/// A binary64 number, held by its encoding.
#[derive(Clone, Copy, Debug)]
pub struct Scalar {
    pub bits: u64,
}

impl Scalar {
    /// Exponent and significand, without the sign.
    pub open spec fn magnitude(self) -> u64 {
        self.bits & MAGNITUDE_MASK
    }

    /// Whether the sign bit is set.
    pub open spec fn sign_set(self) -> bool {
        self.bits & SIGN_MASK != 0
    }

    /// Whether the encoding is that of a NaN.
    pub open spec fn spec_is_nan(self) -> bool {
        self.magnitude() > INFINITY_BITS
    }

    /// Whether the number is zero, of either sign.
    pub open spec fn spec_is_zero(self) -> bool {
        self.magnitude() == 0
    }

    /// The place of a number that is no NaN in the order of all such
    /// numbers: encodings of one sign are ordered as the numbers are, and
    /// both zeros have rank zero.
    pub open spec fn rank(self) -> int {
        if self.sign_set() {
            -(self.magnitude() as int)
        } else {
            self.magnitude() as int
        }
    }

    /// Whether neither number is a NaN.
    pub open spec fn comparable(self, other: Scalar) -> bool {
        !self.spec_is_nan() && !other.spec_is_nan()
    }

    /// `self < other` as numbers; false where either is a NaN.
    pub open spec fn spec_lt(self, other: Scalar) -> bool {
        self.comparable(other) && self.rank() < other.rank()
    }

    /// `self <= other` as numbers; false where either is a NaN.
    pub open spec fn spec_le(self, other: Scalar) -> bool {
        self.comparable(other) && self.rank() <= other.rank()
    }

    /// `self > other` as numbers; false where either is a NaN.
    pub open spec fn spec_gt(self, other: Scalar) -> bool {
        other.spec_lt(self)
    }

    /// `self >= other` as numbers; false where either is a NaN.
    pub open spec fn spec_ge(self, other: Scalar) -> bool {
        other.spec_le(self)
    }

    /// `self == other` as numbers: the zeros are equal, a NaN equals nothing.
    pub open spec fn spec_same(self, other: Scalar) -> bool {
        self.comparable(other) && self.rank() == other.rank()
    }

    /// Whether the number is greater than zero.
    pub open spec fn spec_is_positive(self) -> bool {
        !self.spec_is_nan() && self.rank() > 0
    }

    /// The number with the opposite sign.
    pub open spec fn spec_neg(self) -> Scalar {
        Scalar { bits: self.bits ^ SIGN_MASK }
    }

    /// The number with the sign cleared.
    pub open spec fn spec_abs(self) -> Scalar {
        Scalar { bits: self.bits & MAGNITUDE_MASK }
    }

    pub open spec fn spec_zero() -> Scalar {
        Scalar { bits: 0 }
    }

    pub open spec fn spec_one() -> Scalar {
        Scalar { bits: ONE_BITS }
    }

    pub open spec fn spec_two() -> Scalar {
        Scalar { bits: TWO_BITS }
    }

    pub open spec fn spec_four() -> Scalar {
        Scalar { bits: FOUR_BITS }
    }

    pub open spec fn spec_half() -> Scalar {
        Scalar { bits: HALF_BITS }
    }

    pub open spec fn spec_epsilon() -> Scalar {
        Scalar { bits: EPSILON_BITS }
    }

    pub open spec fn spec_machine_epsilon() -> Scalar {
        Scalar { bits: MACHINE_EPSILON_BITS }
    }

    pub open spec fn spec_frac_pi_2() -> Scalar {
        Scalar { bits: FRAC_PI_2_BITS }
    }

    pub open spec fn spec_frac_pi_3() -> Scalar {
        Scalar { bits: FRAC_PI_3_BITS }
    }

    pub open spec fn spec_frac_pi_4() -> Scalar {
        Scalar { bits: FRAC_PI_4_BITS }
    }

    pub open spec fn spec_add(self, other: Scalar) -> Scalar {
        Scalar { bits: float_add(self.bits, other.bits) }
    }

    pub open spec fn spec_sub(self, other: Scalar) -> Scalar {
        Scalar { bits: float_sub(self.bits, other.bits) }
    }

    pub open spec fn spec_mul(self, other: Scalar) -> Scalar {
        Scalar { bits: float_mul(self.bits, other.bits) }
    }

    pub open spec fn spec_div(self, other: Scalar) -> Scalar {
        Scalar { bits: float_div(self.bits, other.bits) }
    }

    /// `self * factor + addend` with a single rounding.
    pub open spec fn spec_mul_add(self, factor: Scalar, addend: Scalar) -> Scalar {
        Scalar { bits: float_mul_add(self.bits, factor.bits, addend.bits) }
    }

    pub open spec fn spec_rem(self, other: Scalar) -> Scalar {
        Scalar { bits: float_rem(self.bits, other.bits) }
    }

    pub open spec fn spec_sqrt(self) -> Scalar {
        Scalar { bits: float_sqrt(self.bits) }
    }

    pub open spec fn spec_floor(self) -> Scalar {
        Scalar { bits: float_floor(self.bits) }
    }

    /// The exponent field of the encoding.
    pub open spec fn exponent(self) -> u64 {
        (self.bits >> SIGNIFICAND_BITS) & EXPONENT_MAX
    }

    /// The bits of the encoding that stand behind the binary point: all of
    /// the magnitude for a number below one, none for a number that has no
    /// places behind the point, an infinity or a NaN, and else the lower
    /// bits of the significand, fewer by one for each doubling.
    pub open spec fn fraction_mask(self) -> u64 {
        let e = self.exponent();
        if e < EXPONENT_BIAS {
            MAGNITUDE_MASK
        } else if e >= EXPONENT_BIAS + SIGNIFICAND_BITS {
            0
        } else {
            SIGNIFICAND_MASK >> ((e - EXPONENT_BIAS) as u64)
        }
    }

    /// The integral part: the number with the bits behind the binary point
    /// cleared.
    pub open spec fn spec_trunc(self) -> Scalar {
        Scalar { bits: self.bits & !self.fraction_mask() }
    }

    pub open spec fn spec_round(self) -> Scalar {
        Scalar { bits: float_round(self.bits) }
    }

    /// The fractional part: the number less its integral part.
    pub open spec fn spec_fract(self) -> Scalar {
        self.spec_sub(self.spec_trunc())
    }

    pub open spec fn spec_sin(self) -> Scalar {
        Scalar { bits: float_sin(self.bits) }
    }

    pub open spec fn spec_cos(self) -> Scalar {
        Scalar { bits: float_cos(self.bits) }
    }

    /// The tangent, as the quotient of sine and cosine.
    pub open spec fn spec_tan(self) -> Scalar {
        self.spec_sin().spec_div(self.spec_cos())
    }

    /// The power with a natural exponent, by repeated squaring: one for the
    /// exponent zero, else the power of the square with half the exponent,
    /// times the number itself where the exponent is odd.
    pub open spec fn spec_power(self, n: nat) -> Scalar
        decreases n,
    {
        if n == 0 {
            Scalar::spec_one()
        } else if n % 2 == 1 {
            self.spec_mul(self.spec_mul(self).spec_power(n / 2))
        } else {
            self.spec_mul(self).spec_power(n / 2)
        }
    }

    /// The power with an exponent between zero and one, by repeated roots:
    /// the fraction is read binary place by binary place, `steps` places at
    /// most; each place takes the root once more, and the root of a place
    /// that is set is a factor of the result. A fraction that is not
    /// positive gives one.
    pub open spec fn spec_root_power(self, fraction: Scalar, steps: nat) -> Scalar
        decreases steps,
    {
        if steps == 0 || !fraction.spec_is_positive() {
            Scalar::spec_one()
        } else {
            let root = self.spec_sqrt();
            let doubled = fraction.spec_mul(Scalar::spec_two());
            if doubled.spec_ge(Scalar::spec_one()) {
                root.spec_mul(
                    root.spec_root_power(doubled.spec_sub(Scalar::spec_one()), (steps - 1) as nat),
                )
            } else {
                root.spec_root_power(doubled, (steps - 1) as nat)
            }
        }
    }

    /// The power with the exponent without its sign: the power with the
    /// integral part of the exponent, times the power with its fraction
    /// where there is one.
    pub open spec fn spec_power_of_size(self, size: Scalar) -> Scalar {
        let whole = size.spec_trunc();
        let fraction = size.spec_sub(whole);
        let power = self.spec_power(whole.spec_to_int() as nat);
        if fraction.spec_is_positive() {
            power.spec_mul(self.spec_root_power(fraction, ROOT_STEPS as nat))
        } else {
            power
        }
    }

    /// The power with any exponent: the exponent itself where it is a NaN,
    /// for an exponent below zero one over the power with the opposite
    /// exponent, else the power with the exponent.
    pub open spec fn spec_powf(self, exponent: Scalar) -> Scalar {
        if exponent.spec_is_nan() {
            exponent
        } else if exponent.spec_lt(Scalar::spec_zero()) {
            Scalar::spec_one().spec_div(self.spec_power_of_size(exponent.spec_abs()))
        } else {
            self.spec_power_of_size(exponent.spec_abs())
        }
    }

    pub open spec fn spec_from_int(n: u64) -> Scalar {
        Scalar { bits: float_from_int(n) }
    }

    pub open spec fn spec_to_int(self) -> u64 {
        float_to_int(self.bits)
    }

    /// The quotient of two unsigned integers.
    pub open spec fn spec_ratio(numerator: u64, denominator: u64) -> Scalar {
        Scalar::spec_from_int(numerator).spec_div(Scalar::spec_from_int(denominator))
    }

    pub fn from_bits(bits: u64) -> (r: Scalar)
        ensures
            r.bits == bits,
    {
        Scalar { bits }
    }

    pub fn to_bits(self) -> (r: u64)
        ensures
            r == self.bits,
    {
        self.bits
    }

    pub fn zero() -> (r: Scalar)
        ensures
            r == Scalar::spec_zero(),
    {
        Scalar { bits: 0 }
    }

    pub fn one() -> (r: Scalar)
        ensures
            r == Scalar::spec_one(),
    {
        Scalar { bits: ONE_BITS }
    }

    pub fn two() -> (r: Scalar)
        ensures
            r == Scalar::spec_two(),
    {
        Scalar { bits: TWO_BITS }
    }

    pub fn four() -> (r: Scalar)
        ensures
            r == Scalar::spec_four(),
    {
        Scalar { bits: FOUR_BITS }
    }

    pub fn half() -> (r: Scalar)
        ensures
            r == Scalar::spec_half(),
    {
        Scalar { bits: HALF_BITS }
    }

    /// One millionth: the tolerance of the tangent and parallel tests, and
    /// the distance by which a shaded point is lifted off its surface.
    pub fn epsilon() -> (r: Scalar)
        ensures
            r == Scalar::spec_epsilon(),
    {
        Scalar { bits: EPSILON_BITS }
    }

    /// The gap between `1` and the next larger number.
    pub fn machine_epsilon() -> (r: Scalar)
        ensures
            r == Scalar::spec_machine_epsilon(),
    {
        Scalar { bits: MACHINE_EPSILON_BITS }
    }

    /// The number nearest to half of pi.
    pub fn frac_pi_2() -> (r: Scalar)
        ensures
            r == Scalar::spec_frac_pi_2(),
    {
        Scalar { bits: FRAC_PI_2_BITS }
    }

    /// The number nearest to a third of pi.
    pub fn frac_pi_3() -> (r: Scalar)
        ensures
            r == Scalar::spec_frac_pi_3(),
    {
        Scalar { bits: FRAC_PI_3_BITS }
    }

    /// The number nearest to a quarter of pi.
    pub fn frac_pi_4() -> (r: Scalar)
        ensures
            r == Scalar::spec_frac_pi_4(),
    {
        Scalar { bits: FRAC_PI_4_BITS }
    }

    pub fn is_nan(self) -> (r: bool)
        ensures
            r == self.spec_is_nan(),
    {
        (self.bits & MAGNITUDE_MASK) > INFINITY_BITS
    }

    pub fn is_zero(self) -> (r: bool)
        ensures
            r == self.spec_is_zero(),
    {
        (self.bits & MAGNITUDE_MASK) == 0
    }

    pub fn lt(self, other: Scalar) -> (r: bool)
        ensures
            r == self.spec_lt(other),
    {
        if self.is_nan() || other.is_nan() {
            return false;
        }
        let a: u64 = self.bits & MAGNITUDE_MASK;
        let b: u64 = other.bits & MAGNITUDE_MASK;
        let a_neg = (self.bits & SIGN_MASK) != 0;
        let b_neg = (other.bits & SIGN_MASK) != 0;
        if a_neg {
            if b_neg {
                b < a
            } else {
                a != 0 || b != 0
            }
        } else {
            if b_neg {
                false
            } else {
                a < b
            }
        }
    }

    pub fn le(self, other: Scalar) -> (r: bool)
        ensures
            r == self.spec_le(other),
    {
        if self.is_nan() || other.is_nan() {
            return false;
        }
        let a: u64 = self.bits & MAGNITUDE_MASK;
        let b: u64 = other.bits & MAGNITUDE_MASK;
        let a_neg = (self.bits & SIGN_MASK) != 0;
        let b_neg = (other.bits & SIGN_MASK) != 0;
        if a_neg {
            if b_neg {
                b <= a
            } else {
                true
            }
        } else {
            if b_neg {
                a == 0 && b == 0
            } else {
                a <= b
            }
        }
    }

    pub fn gt(self, other: Scalar) -> (r: bool)
        ensures
            r == self.spec_gt(other),
    {
        other.lt(self)
    }

    pub fn ge(self, other: Scalar) -> (r: bool)
        ensures
            r == self.spec_ge(other),
    {
        other.le(self)
    }

    /// Equality of numbers: the two zeros are the same, a NaN is the same as
    /// nothing.
    pub fn same(self, other: Scalar) -> (r: bool)
        ensures
            r == self.spec_same(other),
    {
        if self.is_nan() || other.is_nan() {
            return false;
        }
        let a: u64 = self.bits & MAGNITUDE_MASK;
        let b: u64 = other.bits & MAGNITUDE_MASK;
        let a_neg = (self.bits & SIGN_MASK) != 0;
        let b_neg = (other.bits & SIGN_MASK) != 0;
        if a_neg == b_neg {
            a == b
        } else {
            a == 0 && b == 0
        }
    }

    pub fn is_positive(self) -> (r: bool)
        ensures
            r == self.spec_is_positive(),
            r == self.spec_gt(Scalar::spec_zero()),
    {
        proof {
            assert(0u64 & MAGNITUDE_MASK == 0) by (bit_vector);
            assert(0u64 & SIGN_MASK == 0) by (bit_vector);
        }
        !self.is_nan() && (self.bits & SIGN_MASK) == 0 && (self.bits & MAGNITUDE_MASK) != 0
    }

    /// The number with the opposite sign: a NaN stays a NaN, and the rank of
    /// any other number is negated.
    pub fn neg(self) -> (r: Scalar)
        ensures
            r == self.spec_neg(),
            r.spec_is_nan() == self.spec_is_nan(),
            r.rank() == -self.rank(),
    {
        proof {
            lemma_neg(self);
        }
        Scalar { bits: self.bits ^ SIGN_MASK }
    }

    /// The number without its sign: a NaN stays a NaN, and the rank of any
    /// other number becomes its distance from zero.
    pub fn abs(self) -> (r: Scalar)
        ensures
            r == self.spec_abs(),
            r.spec_is_nan() == self.spec_is_nan(),
            r.rank() == (if self.rank() < 0 {
                -self.rank()
            } else {
                self.rank()
            }),
    {
        proof {
            lemma_abs(self);
        }
        Scalar { bits: self.bits & MAGNITUDE_MASK }
    }

    pub fn add(self, other: Scalar) -> (r: Scalar)
        ensures
            r == self.spec_add(other),
    {
        Scalar { bits: add_bits(self.bits, other.bits) }
    }

    pub fn sub(self, other: Scalar) -> (r: Scalar)
        ensures
            r == self.spec_sub(other),
    {
        Scalar { bits: sub_bits(self.bits, other.bits) }
    }

    pub fn mul(self, other: Scalar) -> (r: Scalar)
        ensures
            r == self.spec_mul(other),
    {
        Scalar { bits: mul_bits(self.bits, other.bits) }
    }

    pub fn div(self, other: Scalar) -> (r: Scalar)
        ensures
            r == self.spec_div(other),
    {
        Scalar { bits: div_bits(self.bits, other.bits) }
    }

    /// `self * factor + addend` with a single rounding.
    pub fn mul_add(self, factor: Scalar, addend: Scalar) -> (r: Scalar)
        ensures
            r == self.spec_mul_add(factor, addend),
    {
        Scalar { bits: mul_add_bits(self.bits, factor.bits, addend.bits) }
    }

    /// The remainder of the division that has the sign of `self`.
    pub fn rem(self, other: Scalar) -> (r: Scalar)
        ensures
            r == self.spec_rem(other),
    {
        Scalar { bits: rem_bits(self.bits, other.bits) }
    }

    pub fn sqrt(self) -> (r: Scalar)
        ensures
            r == self.spec_sqrt(),
    {
        Scalar { bits: sqrt_bits(self.bits) }
    }

    pub fn floor(self) -> (r: Scalar)
        ensures
            r == self.spec_floor(),
    {
        Scalar { bits: floor_bits(self.bits) }
    }

    /// The integral part: the sign stays, the magnitude does not grow, a
    /// NaN stays a NaN, and the integral part of the result is the result.
    pub fn trunc(self) -> (r: Scalar)
        ensures
            r == self.spec_trunc(),
            r.sign_set() == self.sign_set(),
            r.magnitude() <= self.magnitude(),
            r.spec_is_nan() == self.spec_is_nan(),
            r.spec_trunc() == r,
    {
        proof {
            lemma_trunc(self);
        }
        let e: u64 = (self.bits >> SIGNIFICAND_BITS) & EXPONENT_MAX;
        let mask: u64 = if e < EXPONENT_BIAS {
            MAGNITUDE_MASK
        } else if e >= EXPONENT_BIAS + SIGNIFICAND_BITS {
            0
        } else {
            SIGNIFICAND_MASK >> (e - EXPONENT_BIAS)
        };
        Scalar { bits: self.bits & !mask }
    }

    pub fn round(self) -> (r: Scalar)
        ensures
            r == self.spec_round(),
    {
        Scalar { bits: round_bits(self.bits) }
    }

    pub fn fract(self) -> (r: Scalar)
        ensures
            r == self.spec_fract(),
    {
        self.sub(self.trunc())
    }

    pub fn sin(self) -> (r: Scalar)
        ensures
            r == self.spec_sin(),
    {
        Scalar { bits: sin_bits(self.bits) }
    }

    pub fn cos(self) -> (r: Scalar)
        ensures
            r == self.spec_cos(),
    {
        Scalar { bits: cos_bits(self.bits) }
    }

    pub fn tan(self) -> (r: Scalar)
        ensures
            r == self.spec_tan(),
    {
        self.sin().div(self.cos())
    }

    /// The power with a natural exponent, by repeated squaring.
    pub fn power(self, n: u64) -> (r: Scalar)
        ensures
            r == self.spec_power(n as nat),
        decreases n,
    {
        if n == 0 {
            Scalar::one()
        } else if n % 2 == 1 {
            self.mul(self.mul(self).power(n / 2))
        } else {
            self.mul(self).power(n / 2)
        }
    }

    /// The power with an exponent between zero and one, read to `steps`
    /// binary places, by repeated roots.
    pub fn root_power(self, fraction: Scalar, steps: u64) -> (r: Scalar)
        ensures
            r == self.spec_root_power(fraction, steps as nat),
        decreases steps,
    {
        if steps == 0 || !fraction.is_positive() {
            Scalar::one()
        } else {
            let root = self.sqrt();
            let doubled = fraction.mul(Scalar::two());
            if doubled.ge(Scalar::one()) {
                root.mul(root.root_power(doubled.sub(Scalar::one()), steps - 1))
            } else {
                root.root_power(doubled, steps - 1)
            }
        }
    }

    /// The power with any exponent, whole or not, by repeated squaring for
    /// the integral part of the exponent and repeated roots for its
    /// fraction.
    pub fn powf(self, exponent: Scalar) -> (r: Scalar)
        ensures
            r == self.spec_powf(exponent),
    {
        if exponent.is_nan() {
            return exponent;
        }
        let size = exponent.abs();
        let whole = size.trunc();
        let fraction = size.sub(whole);
        let power = self.power(whole.to_int());
        let of_size = if fraction.is_positive() {
            power.mul(self.root_power(fraction, ROOT_STEPS))
        } else {
            power
        };
        if exponent.lt(Scalar::zero()) {
            Scalar::one().div(of_size)
        } else {
            of_size
        }
    }

    pub fn from_int(n: u64) -> (r: Scalar)
        ensures
            r == Scalar::spec_from_int(n),
    {
        Scalar { bits: from_int_bits(n) }
    }

    /// The integral part as an unsigned integer.
    pub fn to_int(self) -> (r: u64)
        ensures
            r == self.spec_to_int(),
    {
        to_int_bits(self.bits)
    }

    /// The quotient of two unsigned integers, by which decimal constants
    /// are written: `ratio(7, 10)` is the number nearest to seven tenths.
    pub fn ratio(numerator: u64, denominator: u64) -> (r: Scalar)
        ensures
            r == Scalar::spec_ratio(numerator, denominator),
    {
        Scalar::from_int(numerator).div(Scalar::from_int(denominator))
    }
}

impl PartialEq for Scalar {
    fn eq(&self, other: &Scalar) -> (r: bool) {
        self.same(*other)
    }
}

impl vstd::std_specs::cmp::PartialEqSpecImpl for Scalar {
    open spec fn obeys_eq_spec() -> bool {
        true
    }

    open spec fn eq_spec(&self, other: &Scalar) -> bool {
        self.spec_same(*other)
    }
}

/// Negation changes the sign and nothing else: the magnitude stays, a NaN
/// stays a NaN, and the rank of any other number is negated.
pub proof fn lemma_neg(a: Scalar)
    ensures
        a.spec_neg().magnitude() == a.magnitude(),
        a.spec_neg().sign_set() == !a.sign_set(),
        a.spec_neg().spec_is_nan() == a.spec_is_nan(),
        a.spec_neg().rank() == -a.rank(),
        a.spec_neg().spec_neg() == a,
{
    let b = a.bits;
    assert((b ^ SIGN_MASK) & MAGNITUDE_MASK == b & MAGNITUDE_MASK) by (bit_vector);
    assert(((b ^ SIGN_MASK) & SIGN_MASK != 0) == !(b & SIGN_MASK != 0)) by (bit_vector);
    assert((b ^ SIGN_MASK) ^ SIGN_MASK == b) by (bit_vector);
}

/// Taking the integral part keeps the sign, does not let the magnitude
/// grow, keeps a NaN a NaN, and changes nothing when done again.
pub proof fn lemma_trunc(a: Scalar)
    ensures
        a.spec_trunc().sign_set() == a.sign_set(),
        a.spec_trunc().magnitude() <= a.magnitude(),
        a.spec_trunc().spec_is_nan() == a.spec_is_nan(),
        a.spec_trunc().spec_trunc() == a.spec_trunc(),
{
    let b = a.bits;
    let e = a.exponent();
    let m = a.fraction_mask();
    assert(e == (b >> 52) & 0x7FF);
    if e < EXPONENT_BIAS {
        assert(m == MAGNITUDE_MASK);
        assert((b & !0x7FFF_FFFF_FFFF_FFFFu64) & 0x8000_0000_0000_0000u64 == b
            & 0x8000_0000_0000_0000u64) by (bit_vector);
        assert((b & !0x7FFF_FFFF_FFFF_FFFFu64) & 0x7FFF_FFFF_FFFF_FFFFu64 == 0) by (bit_vector);
        assert(((b & !0x7FFF_FFFF_FFFF_FFFFu64) >> 52) & 0x7FF == 0) by (bit_vector);
        assert(((b >> 52) & 0x7FF) < 1023 ==> (b & 0x7FFF_FFFF_FFFF_FFFFu64)
            <= 0x7FF0_0000_0000_0000u64) by (bit_vector);
        assert((b & !0x7FFF_FFFF_FFFF_FFFFu64) & !0x7FFF_FFFF_FFFF_FFFFu64 == b
            & !0x7FFF_FFFF_FFFF_FFFFu64) by (bit_vector);
    } else if e >= EXPONENT_BIAS + SIGNIFICAND_BITS {
        assert(m == 0);
        assert(b & !0u64 == b) by (bit_vector);
    } else {
        let k = (e - EXPONENT_BIAS) as u64;
        assert(k < 52);
        assert(m == 0x000F_FFFF_FFFF_FFFFu64 >> k);
        assert(k < 52 ==> (b & !(0x000F_FFFF_FFFF_FFFFu64 >> k)) & 0x8000_0000_0000_0000u64 == b
            & 0x8000_0000_0000_0000u64) by (bit_vector);
        assert(k < 52 ==> (b & !(0x000F_FFFF_FFFF_FFFFu64 >> k)) & 0x7FFF_FFFF_FFFF_FFFFu64 <= b
            & 0x7FFF_FFFF_FFFF_FFFFu64) by (bit_vector);
        assert(k < 52 ==> ((b & !(0x000F_FFFF_FFFF_FFFFu64 >> k)) >> 52) & 0x7FF == (b >> 52)
            & 0x7FF) by (bit_vector);
        assert(k < 52 ==> (b & !(0x000F_FFFF_FFFF_FFFFu64 >> k)) & !(0x000F_FFFF_FFFF_FFFFu64
            >> k) == b & !(0x000F_FFFF_FFFF_FFFFu64 >> k)) by (bit_vector);
        assert(((b >> 52) & 0x7FF) < 1075 ==> (b & 0x7FFF_FFFF_FFFF_FFFFu64)
            <= 0x7FF0_0000_0000_0000u64) by (bit_vector);
        assert(k < 52 && ((b >> 52) & 0x7FF) < 1075 ==> (b & !(0x000F_FFFF_FFFF_FFFFu64 >> k))
            & 0x7FFF_FFFF_FFFF_FFFFu64 <= 0x7FF0_0000_0000_0000u64) by (bit_vector);
    }
}

/// The absolute value has no sign and the same magnitude, so its rank is
/// the distance of the rank from zero.
pub proof fn lemma_abs(a: Scalar)
    ensures
        a.spec_abs().magnitude() == a.magnitude(),
        !a.spec_abs().sign_set(),
        a.spec_abs().spec_is_nan() == a.spec_is_nan(),
        a.spec_abs().rank() == (if a.rank() < 0 { -a.rank() } else { a.rank() }),
{
    let b = a.bits;
    assert((b & MAGNITUDE_MASK) & MAGNITUDE_MASK == b & MAGNITUDE_MASK) by (bit_vector);
    assert((b & MAGNITUDE_MASK) & SIGN_MASK == 0) by (bit_vector);
}

/// Two numbers that are no NaN are ordered one way or the other, or are the
/// same.
pub proof fn lemma_order_total(a: Scalar, b: Scalar)
    requires
        a.comparable(b),
    ensures
        a.spec_lt(b) || b.spec_lt(a) || a.spec_same(b),
        a.spec_le(b) <==> !b.spec_lt(a),
        a.spec_le(b) <==> (a.spec_lt(b) || a.spec_same(b)),
{
}

/// The order of numbers is transitive.
pub proof fn lemma_order_transitive(a: Scalar, b: Scalar, c: Scalar)
    requires
        a.spec_le(b),
        b.spec_le(c),
    ensures
        a.spec_le(c),
        a.spec_lt(b) || b.spec_lt(c) ==> a.spec_lt(c),
{
}

} // verus!
