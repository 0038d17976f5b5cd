//! Verified binary64 square root.
//!
//! The significand is extracted from the bit pattern, scaled, and an integer
//! square root is taken; rounding to nearest needs no tie handling because a
//! scaled significand is never exactly halfway between two squares.
//! Everything here is integer logic proved by Verus.

use vstd::prelude::*;
use vstd::arithmetic::power2::{pow2, lemma_pow2_unfold, lemma_pow2_strictly_increases};
use crate::scalar::{
    Scalar, mag_of, sign_of, is_nan_b, is_zero_b, is_inf_b, is_finite_b, QNAN_BITS, INF_MAG,
    SIGN_MASK,
};

verus! {

/// One unit of the fraction field: 2^52.
pub const FRAC_UNIT: u64 = 0x0010_0000_0000_0000;

/// 2^53, one past the largest normalized significand.
pub const SIG_LIMIT: u64 = 0x0020_0000_0000_0000;

/// The integer square root: the unique s with s^2 <= n < (s+1)^2.
pub open spec fn nat_sqrt(n: nat) -> nat {
    choose|s: nat| #[trigger] (s * s) <= n && n < (s + 1) * (s + 1)
}

proof fn lemma_nat_sqrt_unique(n: nat, s1: nat, s2: nat)
    requires
        s1 * s1 <= n && n < (s1 + 1) * (s1 + 1),
        s2 * s2 <= n && n < (s2 + 1) * (s2 + 1),
    ensures
        s1 == s2,
{
    if s1 < s2 {
        assert((s1 + 1) * (s1 + 1) <= s2 * s2) by (nonlinear_arith)
            requires
                s1 + 1 <= s2,
        ;
    }
    if s2 < s1 {
        assert((s2 + 1) * (s2 + 1) <= s1 * s1) by (nonlinear_arith)
            requires
                s2 + 1 <= s1,
        ;
    }
}

/// Integer square root of a 128-bit value below 2^106, by bisection.
fn isqrt128(n: u128) -> (r: u128)
    requires
        n < 0x400_0000_0000_0000_0000_0000_0000,
    ensures
        r * r <= n,
        n < (r + 1) * (r + 1),
        r as nat == nat_sqrt(n as nat),
{
    let mut lo: u128 = 0;
    let mut hi: u128 = 0x20_0000_0000_0000;
    while lo + 1 < hi
        invariant
            lo < hi,
            hi <= 0x20_0000_0000_0000,
            lo * lo <= n,
            n < hi * hi,
        decreases hi - lo,
    {
        let mid = lo + (hi - lo) / 2;
        assert(mid * mid <= 0x20_0000_0000_0000 * 0x20_0000_0000_0000) by (nonlinear_arith)
            requires
                mid <= 0x20_0000_0000_0000,
        ;
        if mid * mid <= n {
            lo = mid;
        } else {
            hi = mid;
        }
    }
    proof {
        let ln = lo as nat;
        let nn = n as nat;
        assert(ln * ln <= nn && nn < (ln + 1) * (ln + 1));
        let w = nat_sqrt(nn);
        assert(w * w <= nn && nn < (w + 1) * (w + 1)) by {
            assert(exists|s: nat| #[trigger] (s * s) <= nn && nn < (s + 1) * (s + 1)) by {
                assert(ln * ln <= nn && nn < (ln + 1) * (ln + 1));
            };
        };
        lemma_nat_sqrt_unique(nn, w, ln);
    }
    lo
}

/// Normalization of a nonzero significand: double until the integer bit is
/// set, lowering the (biased) exponent in step.
pub open spec fn norm_sig(m: u64, eb: u64) -> (u64, u64)
    decreases SIG_LIMIT - m,
    when 1 <= m && m < SIG_LIMIT
{
    if m >= FRAC_UNIT {
        (m, eb)
    } else {
        norm_sig((m * 2) as u64, (eb - 1) as u64)
    }
}

/// The square root of a positive finite nonzero pattern, mirrored from the
/// executable computation: normalize, make the exponent even, take the
/// integer square root of the significand scaled by 2^52, round to nearest.
pub open spec fn sqrt_pos_bits(mag: u64) -> u64 {
    let exp_field = mag / FRAC_UNIT;
    let frac = mag % FRAC_UNIT;
    let m0: u64 = if exp_field == 0 {
        frac
    } else {
        (FRAC_UNIT + frac) as u64
    };
    let eb0: u64 = if exp_field == 0 {
        126
    } else {
        (exp_field + 125) as u64
    };
    let norm = norm_sig(m0, eb0);
    let m2: int = if norm.1 % 2 != 0 {
        norm.0 * 2
    } else {
        norm.0 as int
    };
    let eb2: int = if norm.1 % 2 != 0 {
        norm.1 - 1
    } else {
        norm.1 as int
    };
    let scaled = m2 * FRAC_UNIT;
    let s = nat_sqrt(scaled as nat) as int;
    let rm: int = if scaled - s * s <= s {
        s
    } else {
        s + 1
    };
    let rm2: int = if rm == SIG_LIMIT {
        FRAC_UNIT as int
    } else {
        rm
    };
    let re: int = if rm == SIG_LIMIT {
        (eb2 + 898) / 2 + 1
    } else {
        (eb2 + 898) / 2
    };
    (re * FRAC_UNIT + (rm2 - FRAC_UNIT)) as u64
}

/// The square root of any pattern: NaN for NaN or negative nonzero input,
/// the input itself for zeros and positive infinity, and the rounded root of
/// a positive finite value.
pub open spec fn sqrt_bits(b: u64) -> u64 {
    if is_nan_b(b) {
        QNAN_BITS
    } else if sign_of(b) && !is_zero_b(b) {
        QNAN_BITS
    } else if is_zero_b(b) {
        b
    } else if is_inf_b(b) {
        b
    } else {
        sqrt_pos_bits(b)
    }
}

impl Scalar {
    /// Binary64 square root, rounded to nearest.  The root of a negative
    /// nonzero value or of a NaN is NaN; the root of a zero is that zero;
    /// the root of a positive finite nonzero value is positive, finite and
    /// nonzero.
    pub fn sqrt(&self) -> (r: Scalar)
        ensures
            r.bits == sqrt_bits(self.bits),
            is_nan_b(self.bits) ==> is_nan_b(r.bits),
            sign_of(self.bits) && !is_zero_b(self.bits) ==> is_nan_b(r.bits),
            is_zero_b(self.bits) ==> r.bits == self.bits,
            !sign_of(self.bits) && !is_zero_b(self.bits) && is_finite_b(self.bits) ==> is_finite_b(
                r.bits,
            ) && !sign_of(r.bits) && !is_zero_b(r.bits),
    {
        proof {
            vstd::arithmetic::div_mod::lemma_fundamental_div_mod(
                self.bits as int,
                SIGN_MASK as int,
            );
        }
        let mag = self.bits % SIGN_MASK;
        let neg = self.bits / SIGN_MASK == 1;
        if mag > INF_MAG {
            return Scalar { bits: QNAN_BITS };
        }
        if neg && mag != 0 {
            return Scalar { bits: QNAN_BITS };
        }
        if mag == 0 {
            return Scalar { bits: self.bits };
        }
        if mag == INF_MAG {
            return Scalar { bits: self.bits };
        }
        assert(self.bits == mag);
        proof {
            vstd::arithmetic::div_mod::lemma_fundamental_div_mod(mag as int, FRAC_UNIT as int);
        }
        let exp_field = mag / FRAC_UNIT;
        let frac = mag % FRAC_UNIT;
        assert(exp_field <= 2046);
        let mut m: u64 = if exp_field == 0 {
            frac
        } else {
            FRAC_UNIT + frac
        };
        let mut eb: u64 = if exp_field == 0 {
            126
        } else {
            exp_field + 125
        };
        assert(1 <= m && m < SIG_LIMIT);
        let ghost m0 = m;
        let ghost eb0 = eb;
        proof {
            vstd::arithmetic::power2::lemma2_to64();
            assert(m0 * pow2(0) == m0) by (nonlinear_arith)
                requires
                    pow2(0) == 1,
            ;
        }
        while m < FRAC_UNIT
            invariant
                1 <= m && m < SIG_LIMIT,
                74 <= eb <= eb0,
                126 <= eb0 <= 2171,
                m == m0 * pow2((eb0 - eb) as nat),
                m0 >= 1,
                norm_sig(m0, eb0) == norm_sig(m, eb),
            decreases SIG_LIMIT - m,
        {
            proof {
                vstd::arithmetic::power2::lemma2_to64();
                vstd::arithmetic::power2::lemma2_to64_rest();
                let k = (eb0 - eb) as nat;
                assert(pow2(k) <= m0 * pow2(k)) by (nonlinear_arith)
                    requires
                        m0 >= 1,
                        pow2(k) >= 0,
                ;
                assert(pow2(k) < pow2(52));
                assert(k < 52) by {
                    if k >= 52 {
                        if k == 52 {
                        } else {
                            lemma_pow2_strictly_increases(52, k);
                        }
                    }
                };
                assert(eb > eb0 - 52);
                lemma_pow2_unfold((k + 1) as nat);
                assert(m * 2 == m0 * pow2((k + 1) as nat)) by (nonlinear_arith)
                    requires
                        m == m0 * pow2(k),
                        pow2((k + 1) as nat) == 2 * pow2(k),
                ;
            }
            m = m * 2;
            eb = eb - 1;
        }
        assert((m, eb) == norm_sig(m0, eb0));
        assert(74 <= eb);
        if eb % 2 != 0 {
            m = m * 2;
            eb = eb - 1;
        }
        let scaled: u128 = (m as u128) * (FRAC_UNIT as u128);
        assert(scaled < 0x400_0000_0000_0000_0000_0000_0000 && scaled >= (FRAC_UNIT as u128) * (
        FRAC_UNIT as u128)) by (nonlinear_arith)
            requires
                scaled == (m as u128) * (FRAC_UNIT as u128),
                FRAC_UNIT <= m && m < 4 * FRAC_UNIT,
                FRAC_UNIT == 0x0010_0000_0000_0000,
        ;
        let s: u128 = isqrt128(scaled);
        proof {
            lemma_isqrt_range(scaled as nat, s as nat);
        }
        let rem: u128 = scaled - s * s;
        let mut rm: u64 = if rem <= s {
            s as u64
        } else {
            s as u64 + 1
        };
        let mut re: u64 = (eb + 898) / 2;
        if rm == SIG_LIMIT {
            rm = FRAC_UNIT;
            re = re + 1;
        }
        assert(486 <= re && re <= 1535);
        assert(FRAC_UNIT <= rm && rm < SIG_LIMIT);
        let out = Scalar { bits: re * FRAC_UNIT + (rm - FRAC_UNIT) };
        proof {
            assert(out.bits == sqrt_pos_bits(self.bits));
            assert(out.bits < INF_MAG);
            assert(out.bits / SIGN_MASK == 0);
            assert(out.bits % SIGN_MASK == out.bits);
        }
        out
    }
}

/// The integer square root of a value in [2^104, 2^106) lies in [2^52, 2^53).
proof fn lemma_isqrt_range(n: nat, s: nat)
    requires
        s * s <= n,
        n < (s + 1) * (s + 1),
        n >= 0x100_0000_0000_0000_0000_0000_0000,
        n < 0x400_0000_0000_0000_0000_0000_0000,
    ensures
        0x10_0000_0000_0000 <= s && s < 0x20_0000_0000_0000,
{
    if s < 0x10_0000_0000_0000 {
        assert((s + 1) * (s + 1) <= 0x10_0000_0000_0000 * 0x10_0000_0000_0000) by (nonlinear_arith)
            requires
                s + 1 <= 0x10_0000_0000_0000,
        ;
    }
    if s >= 0x20_0000_0000_0000 {
        assert(s * s >= 0x20_0000_0000_0000 * 0x20_0000_0000_0000) by (nonlinear_arith)
            requires
                s >= 0x20_0000_0000_0000,
        ;
    }
}

} // verus!
