//! The scalar type: an IEEE-754 binary64 value held as its bit pattern.
//!
//! Sign, magnitude, classification, comparison and the snapping tolerance are
//! defined arithmetically over the bit pattern and verified; only the four
//! rounding arithmetic operations call into the outside soft-float crate.

use vstd::prelude::*;
use rustc_apfloat::Float;
use core::cmp::Ordering;

verus! {

/// The sign bit of a binary64 pattern, as a power of two.
pub const SIGN_MASK: u64 = 0x8000_0000_0000_0000;

/// Magnitude of an infinity: exponent field all ones, fraction zero.
pub const INF_MAG: u64 = 0x7FF0_0000_0000_0000;

/// Magnitude of the snapping tolerance 1e-10: computed values closer to zero
/// than this are snapped to exact zero by the robustness layer.
pub const SNAP_MAG: u64 = 0x3DDB_7CDF_D9D7_BDBB;

/// Bit pattern of positive zero.
pub const POS_ZERO: u64 = 0x0000_0000_0000_0000;

/// Bit pattern of one.
pub const ONE_BITS: u64 = 0x3FF0_0000_0000_0000;

/// Bit pattern of two.
pub const TWO_BITS: u64 = 0x4000_0000_0000_0000;

/// Bit pattern of one half.
pub const HALF_BITS: u64 = 0x3FE0_0000_0000_0000;

/// Bit pattern of the canonical quiet NaN.
pub const QNAN_BITS: u64 = 0x7FF8_0000_0000_0000;

pub open spec fn sign_of(b: u64) -> bool {
    b / SIGN_MASK == 1
}

pub open spec fn mag_of(b: u64) -> u64 {
    b % SIGN_MASK
}

pub open spec fn is_nan_b(b: u64) -> bool {
    mag_of(b) > INF_MAG
}

pub open spec fn is_inf_b(b: u64) -> bool {
    mag_of(b) == INF_MAG
}

pub open spec fn is_finite_b(b: u64) -> bool {
    mag_of(b) < INF_MAG
}

pub open spec fn is_zero_b(b: u64) -> bool {
    mag_of(b) == 0
}

/// Within the snapping tolerance of zero (this excludes NaN and infinities,
/// whose magnitude field is larger than any finite magnitude).
pub open spec fn is_tiny_b(b: u64) -> bool {
    mag_of(b) < SNAP_MAG
}

/// IEEE equality: NaN equals nothing, the two zeros are equal.
pub open spec fn float_eq(a: u64, b: u64) -> bool {
    &&& !is_nan_b(a)
    &&& !is_nan_b(b)
    &&& (a == b || (is_zero_b(a) && is_zero_b(b)))
}

/// IEEE ordering: NaN is unordered; otherwise compare by sign, then by
/// magnitude (reversed for negatives); the two zeros are equal.
pub open spec fn float_lt(a: u64, b: u64) -> bool {
    &&& !is_nan_b(a)
    &&& !is_nan_b(b)
    &&& (if sign_of(a) != sign_of(b) {
        sign_of(a) && !(is_zero_b(a) && is_zero_b(b))
    } else if !sign_of(a) {
        mag_of(a) < mag_of(b)
    } else {
        mag_of(a) > mag_of(b)
    })
}

pub open spec fn float_le(a: u64, b: u64) -> bool {
    float_lt(a, b) || float_eq(a, b)
}

pub open spec fn float_gt(a: u64, b: u64) -> bool {
    float_lt(b, a)
}

pub open spec fn float_ge(a: u64, b: u64) -> bool {
    float_le(b, a)
}

/// Epsilon snapping: a value within the snapping tolerance of zero becomes
/// exact positive zero.
pub open spec fn snap_b(b: u64) -> u64 {
    if is_tiny_b(b) {
        POS_ZERO
    } else {
        b
    }
}

/// The robustness guard: NaN and infinities become zero, and a value within
/// the snapping tolerance of zero is snapped to exact zero.
pub open spec fn guarded(b: u64) -> u64 {
    if is_nan_b(b) || is_inf_b(b) {
        POS_ZERO
    } else {
        snap_b(b)
    }
}

/// The same pattern with the sign flipped; magnitude is kept.
pub open spec fn flip_sign(b: u64) -> u64 {
    if b >= SIGN_MASK {
        (b - SIGN_MASK) as u64
    } else {
        (b + SIGN_MASK) as u64
    }
}

/// A binary64 scalar, held as its bit pattern.
#[derive(Clone, Copy, Debug, Hash)]
pub struct Scalar {
    pub bits: u64,
}

pub uninterp spec fn add_bits(a: u64, b: u64) -> u64;

pub uninterp spec fn sub_bits(a: u64, b: u64) -> u64;

pub uninterp spec fn mul_bits(a: u64, b: u64) -> u64;

pub uninterp spec fn div_bits(a: u64, b: u64) -> u64;

/// Relies on `rustc_apfloat::ieee::Double::add_r` (round to nearest, ties to
/// even): the sum's bits depend on the operand bits alone.  The listed
/// special cases are read off `add_r`'s source: a zero operand leaves a
/// non-zero non-NaN operand unchanged, a sum of two zeros is a zero whose
/// sign is negative only when both operands are negative, and on non-NaN
/// operands the sum is commutative (every non-NaN arm of the source is
/// symmetric in the operands, including the invalid sum of opposite
/// infinities, which is the one fixed NaN either way).
#[verifier::external_body]
fn apf_add(a: u64, b: u64) -> (r: u64)
    ensures
        r == add_bits(a, b),
        !is_nan_b(a) && !is_nan_b(b) ==> r == add_bits(b, a),
        is_zero_b(a) && is_zero_b(b) ==> is_zero_b(r) && (sign_of(r) <==> (sign_of(a)
            && sign_of(b))),
        !is_nan_b(a) && !is_zero_b(a) && is_zero_b(b) ==> r == a,
        is_zero_b(a) && !is_nan_b(b) && !is_zero_b(b) ==> r == b,
{
    let x = rustc_apfloat::ieee::Double::from_bits(a as u128);
    let y = rustc_apfloat::ieee::Double::from_bits(b as u128);
    (x + y).value.to_bits() as u64
}

/// Relies on `rustc_apfloat::ieee::Double::sub_r` (round to nearest, ties to
/// even): the difference's bits depend on the operand bits alone.  The listed
/// special cases are read off the source: subtracting a value from an equal
/// finite value gives a zero, subtracting a zero leaves a non-zero non-NaN
/// operand unchanged, and on finite operands the difference taken the other
/// way around is the exact negation, except that an exact cancellation is a
/// zero either way.
#[verifier::external_body]
fn apf_sub(a: u64, b: u64) -> (r: u64)
    ensures
        r == sub_bits(a, b),
        is_finite_b(a) && is_finite_b(b) && float_eq(a, b) ==> is_zero_b(r),
        !is_nan_b(a) && !is_zero_b(a) && is_zero_b(b) ==> r == a,
        is_finite_b(a) && is_finite_b(b) ==> (r == flip_sign(sub_bits(b, a)) || (is_zero_b(r)
            && is_zero_b(sub_bits(b, a)))),
{
    let x = rustc_apfloat::ieee::Double::from_bits(a as u128);
    let y = rustc_apfloat::ieee::Double::from_bits(b as u128);
    (x - y).value.to_bits() as u64
}

/// Relies on `rustc_apfloat::ieee::Double::mul_r` (round to nearest, ties to
/// even): the product's bits depend on the operand bits alone.  The listed
/// special cases are read off the source: the sign of a product of non-NaN
/// operands is the exclusive or of the operand signs, a finite product of
/// finite operands is never NaN, a product with a zero and a finite operand
/// is a zero, multiplying by one is the identity, negating both finite
/// operands leaves the product unchanged, and on non-NaN operands the
/// product is commutative (every non-NaN arm of the source is symmetric in
/// the operands, including the invalid zero-times-infinity product, which is
/// the one fixed NaN either way).
#[verifier::external_body]
fn apf_mul(a: u64, b: u64) -> (r: u64)
    ensures
        r == mul_bits(a, b),
        !is_nan_b(a) && !is_nan_b(b) ==> r == mul_bits(b, a),
        is_finite_b(a) && is_finite_b(b) ==> r == mul_bits(flip_sign(a), flip_sign(b)),
        is_finite_b(a) && is_finite_b(b) ==> !is_nan_b(r) && (sign_of(r) <==> (sign_of(a)
            != sign_of(b))),
        is_finite_b(a) && is_finite_b(b) && (is_zero_b(a) || is_zero_b(b)) ==> is_zero_b(r),
        a == ONE_BITS && !is_nan_b(b) ==> r == b,
        b == ONE_BITS && !is_nan_b(a) ==> r == a,
{
    let x = rustc_apfloat::ieee::Double::from_bits(a as u128);
    let y = rustc_apfloat::ieee::Double::from_bits(b as u128);
    (x * y).value.to_bits() as u64
}

/// Relies on `rustc_apfloat::ieee::Double::div_r` (round to nearest, ties to
/// even): the quotient's bits depend on the operand bits alone.
#[verifier::external_body]
fn apf_div(a: u64, b: u64) -> (r: u64)
    ensures
        r == div_bits(a, b),
{
    let x = rustc_apfloat::ieee::Double::from_bits(a as u128);
    let y = rustc_apfloat::ieee::Double::from_bits(b as u128);
    (x / y).value.to_bits() as u64
}

impl Scalar {
    pub fn from_bits(bits: u64) -> (r: Scalar)
        ensures
            r.bits == bits,
    {
        Scalar { bits }
    }

    pub fn to_bits(&self) -> (r: u64)
        ensures
            r == self.bits,
    {
        self.bits
    }

    pub fn zero() -> (r: Scalar)
        ensures
            r.bits == POS_ZERO,
    {
        Scalar { bits: POS_ZERO }
    }

    pub fn one() -> (r: Scalar)
        ensures
            r.bits == ONE_BITS,
    {
        Scalar { bits: ONE_BITS }
    }

    pub fn two() -> (r: Scalar)
        ensures
            r.bits == TWO_BITS,
    {
        Scalar { bits: TWO_BITS }
    }

    pub fn infinity() -> (r: Scalar)
        ensures
            r.bits == INF_MAG,
    {
        Scalar { bits: INF_MAG }
    }

    pub fn is_sign_negative(&self) -> (r: bool)
        ensures
            r == sign_of(self.bits),
    {
        self.bits / SIGN_MASK == 1
    }

    pub fn magnitude_bits(&self) -> (r: u64)
        ensures
            r == mag_of(self.bits),
    {
        self.bits % SIGN_MASK
    }

    pub fn is_nan(&self) -> (r: bool)
        ensures
            r == is_nan_b(self.bits),
    {
        self.bits % SIGN_MASK > INF_MAG
    }

    pub fn is_infinite(&self) -> (r: bool)
        ensures
            r == is_inf_b(self.bits),
    {
        self.bits % SIGN_MASK == INF_MAG
    }

    pub fn is_finite(&self) -> (r: bool)
        ensures
            r == is_finite_b(self.bits),
    {
        self.bits % SIGN_MASK < INF_MAG
    }

    pub fn is_zero(&self) -> (r: bool)
        ensures
            r == is_zero_b(self.bits),
    {
        self.bits % SIGN_MASK == 0
    }

    /// Whether the value lies strictly within the snapping tolerance of zero.
    pub fn is_tiny(&self) -> (r: bool)
        ensures
            r == is_tiny_b(self.bits),
    {
        self.bits % SIGN_MASK < SNAP_MAG
    }

    /// Exact negation: the sign bit flips, the magnitude is kept.
    pub fn neg(&self) -> (r: Scalar)
        ensures
            r.bits == flip_sign(self.bits),
            mag_of(r.bits) == mag_of(self.bits),
            sign_of(r.bits) == !sign_of(self.bits),
    {
        proof {
            lemma_flip_sign(self.bits);
        }
        if self.bits >= SIGN_MASK {
            Scalar { bits: self.bits - SIGN_MASK }
        } else {
            Scalar { bits: self.bits + SIGN_MASK }
        }
    }

    /// Exact absolute value: the sign bit is cleared.
    pub fn abs(&self) -> (r: Scalar)
        ensures
            r.bits == mag_of(self.bits),
            sign_of(r.bits) == false,
            mag_of(r.bits) == mag_of(self.bits),
    {
        proof {
            lemma_sign_mag(self.bits);
        }
        Scalar { bits: self.bits % SIGN_MASK }
    }

    pub fn eq_val(&self, other: &Scalar) -> (r: bool)
        ensures
            r == float_eq(self.bits, other.bits),
    {
        if self.is_nan() || other.is_nan() {
            false
        } else {
            self.bits == other.bits || (self.is_zero() && other.is_zero())
        }
    }

    pub fn lt(&self, other: &Scalar) -> (r: bool)
        ensures
            r == float_lt(self.bits, other.bits),
    {
        if self.is_nan() || other.is_nan() {
            false
        } else {
            let sa = self.is_sign_negative();
            let sb = other.is_sign_negative();
            if sa != sb {
                sa && !(self.is_zero() && other.is_zero())
            } else if !sa {
                self.magnitude_bits() < other.magnitude_bits()
            } else {
                self.magnitude_bits() > other.magnitude_bits()
            }
        }
    }

    pub fn le(&self, other: &Scalar) -> (r: bool)
        ensures
            r == float_le(self.bits, other.bits),
    {
        self.lt(other) || self.eq_val(other)
    }

    pub fn gt(&self, other: &Scalar) -> (r: bool)
        ensures
            r == float_gt(self.bits, other.bits),
    {
        other.lt(self)
    }

    pub fn ge(&self, other: &Scalar) -> (r: bool)
        ensures
            r == float_ge(self.bits, other.bits),
    {
        other.le(self)
    }

    /// Binary64 addition, rounded to nearest.
    pub fn add(self, other: Scalar) -> (r: Scalar)
        ensures
            r.bits == add_bits(self.bits, other.bits),
            is_zero_b(self.bits) && is_zero_b(other.bits) ==> is_zero_b(r.bits) && (sign_of(r.bits)
                <==> (sign_of(self.bits) && sign_of(other.bits))),
            !is_nan_b(self.bits) && !is_zero_b(self.bits) && is_zero_b(other.bits) ==> r.bits
                == self.bits,
            is_zero_b(self.bits) && !is_nan_b(other.bits) && !is_zero_b(other.bits) ==> r.bits
                == other.bits,
            !is_nan_b(self.bits) && !is_nan_b(other.bits) ==> r.bits == add_bits(
                other.bits,
                self.bits,
            ),
    {
        Scalar { bits: apf_add(self.bits, other.bits) }
    }

    /// Binary64 subtraction, rounded to nearest.
    pub fn sub(self, other: Scalar) -> (r: Scalar)
        ensures
            r.bits == sub_bits(self.bits, other.bits),
            is_finite_b(self.bits) && is_finite_b(other.bits) && float_eq(self.bits, other.bits)
                ==> is_zero_b(r.bits),
            !is_nan_b(self.bits) && !is_zero_b(self.bits) && is_zero_b(other.bits) ==> r.bits
                == self.bits,
            is_finite_b(self.bits) && is_finite_b(other.bits) ==> (r.bits == flip_sign(
                sub_bits(other.bits, self.bits),
            ) || (is_zero_b(r.bits) && is_zero_b(sub_bits(other.bits, self.bits)))),
    {
        Scalar { bits: apf_sub(self.bits, other.bits) }
    }

    /// Binary64 multiplication, rounded to nearest.
    pub fn mul(self, other: Scalar) -> (r: Scalar)
        ensures
            r.bits == mul_bits(self.bits, other.bits),
            is_finite_b(self.bits) && is_finite_b(other.bits) ==> !is_nan_b(r.bits) && (sign_of(
                r.bits,
            ) <==> (sign_of(self.bits) != sign_of(other.bits))),
            is_finite_b(self.bits) && is_finite_b(other.bits) && (is_zero_b(self.bits) || is_zero_b(
                other.bits,
            )) ==> is_zero_b(r.bits),
            self.bits == ONE_BITS && !is_nan_b(other.bits) ==> r.bits == other.bits,
            other.bits == ONE_BITS && !is_nan_b(self.bits) ==> r.bits == self.bits,
            is_finite_b(self.bits) && is_finite_b(other.bits) ==> r.bits == mul_bits(
                flip_sign(self.bits),
                flip_sign(other.bits),
            ),
            !is_nan_b(self.bits) && !is_nan_b(other.bits) ==> r.bits == mul_bits(
                other.bits,
                self.bits,
            ),
    {
        Scalar { bits: apf_mul(self.bits, other.bits) }
    }

    /// Binary64 division, rounded to nearest.
    pub fn div(self, other: Scalar) -> (r: Scalar)
        ensures
            r.bits == div_bits(self.bits, other.bits),
    {
        Scalar { bits: apf_div(self.bits, other.bits) }
    }

    /// Snapping alone: a value within the tolerance of zero becomes exact
    /// zero; everything else is kept, NaN and infinities included.
    pub fn snap(self) -> (r: Scalar)
        ensures
            r.bits == snap_b(self.bits),
    {
        if self.is_tiny() {
            Scalar { bits: POS_ZERO }
        } else {
            self
        }
    }

    /// The robustness guard: NaN and infinities become zero, and a value
    /// within the snapping tolerance of zero is snapped to exact zero.
    pub fn guard(self) -> (r: Scalar)
        ensures
            r.bits == guarded(self.bits),
            is_finite_b(r.bits),
            r.bits == POS_ZERO || mag_of(r.bits) >= SNAP_MAG,
    {
        if self.is_nan() || self.is_infinite() {
            Scalar { bits: POS_ZERO }
        } else {
            self.snap()
        }
    }

    /// The larger of two values, ignoring NaN: with a NaN operand the other
    /// operand is returned; of two equal values the first is returned.
    pub fn max(self, other: Scalar) -> (r: Scalar)
        ensures
            r.bits == max_b(self.bits, other.bits),
    {
        if self.is_nan() {
            other
        } else if other.is_nan() {
            self
        } else if self.lt(&other) {
            other
        } else {
            self
        }
    }

    /// The smaller of two values, ignoring NaN: with a NaN operand the other
    /// operand is returned; of two equal values the first is returned.
    pub fn min(self, other: Scalar) -> (r: Scalar)
        ensures
            r.bits == min_b(self.bits, other.bits),
    {
        if self.is_nan() {
            other
        } else if other.is_nan() {
            self
        } else if other.lt(&self) {
            other
        } else {
            self
        }
    }
}

/// The larger value, NaN ignored; of equals, the first.
pub open spec fn max_b(a: u64, b: u64) -> u64 {
    if is_nan_b(a) {
        b
    } else if is_nan_b(b) {
        a
    } else if float_lt(a, b) {
        b
    } else {
        a
    }
}

/// The smaller value, NaN ignored; of equals, the first.
pub open spec fn min_b(a: u64, b: u64) -> u64 {
    if is_nan_b(a) {
        b
    } else if is_nan_b(b) {
        a
    } else if float_lt(b, a) {
        b
    } else {
        a
    }
}

/// Flipping the sign bit keeps the magnitude and flips the sign.
proof fn lemma_flip_sign(b: u64)
    ensures
        mag_of(flip_sign(b)) == mag_of(b),
        sign_of(flip_sign(b)) == !sign_of(b),
{
    lemma_sign_mag(b);
    lemma_sign_mag(flip_sign(b));
}

/// A pattern decomposes as sign times 2^63 plus magnitude.
pub proof fn lemma_sign_mag(b: u64)
    ensures
        b == (if sign_of(b) {
            SIGN_MASK as int
        } else {
            0
        }) + mag_of(b),
        mag_of(b) < SIGN_MASK,
{
    assert(b == SIGN_MASK * (b / SIGN_MASK) + b % SIGN_MASK) by {
        vstd::arithmetic::div_mod::lemma_fundamental_div_mod(b as int, SIGN_MASK as int);
    };
    assert(b / SIGN_MASK == 0 || b / SIGN_MASK == 1) by {
        assert(b < 2 * SIGN_MASK);
    };
}

impl PartialEq for Scalar {
    fn eq(&self, other: &Scalar) -> (r: bool) {
        self.eq_val(other)
    }
}

impl vstd::std_specs::cmp::PartialEqSpecImpl for Scalar {
    open spec fn obeys_eq_spec() -> bool {
        true
    }

    open spec fn eq_spec(&self, other: &Scalar) -> bool {
        float_eq(self.bits, other.bits)
    }
}

impl PartialOrd for Scalar {
    fn partial_cmp(&self, other: &Scalar) -> (r: Option<Ordering>) {
        if self.is_nan() || other.is_nan() {
            None
        } else if self.eq_val(other) {
            Some(Ordering::Equal)
        } else if self.lt(other) {
            Some(Ordering::Less)
        } else {
            Some(Ordering::Greater)
        }
    }
}

impl vstd::std_specs::cmp::PartialOrdSpecImpl for Scalar {
    open spec fn obeys_partial_cmp_spec() -> bool {
        true
    }

    open spec fn partial_cmp_spec(&self, other: &Scalar) -> Option<Ordering> {
        if is_nan_b(self.bits) || is_nan_b(other.bits) {
            None
        } else if float_eq(self.bits, other.bits) {
            Some(Ordering::Equal)
        } else if float_lt(self.bits, other.bits) {
            Some(Ordering::Less)
        } else {
            Some(Ordering::Greater)
        }
    }
}

} // verus!
