//! Verified binary64 trigonometry: sine, cosine, arctangent and arccosine.
//!
//! The classical msun argument-reduction and polynomial-approximation method,
//! evaluated with the library's rounding arithmetic.  Every branch decision is
//! integer logic on bit patterns; each function's contract states its result
//! exactly as a composition of the named arithmetic operations, so the result
//! is pinned bit for bit.  Argument reduction covers magnitudes below
//! 2^20 * pi/2; beyond that the same medium reduction is reused.

use vstd::prelude::*;
use vstd::arithmetic::power2::{pow2, lemma_pow2_unfold, lemma_pow2_strictly_increases};
use crate::scalar::{
    Scalar, mag_of, sign_of, is_nan_b, flip_sign, add_bits, sub_bits, mul_bits, div_bits,
    SIGN_MASK, INF_MAG, POS_ZERO, ONE_BITS, TWO_BITS, HALF_BITS,
};
use crate::sqrt::{sqrt_bits, FRAC_UNIT};

verus! {

// Polynomial coefficients for the arctangent on [0, 7/16].
pub const AT0: u64 = 0x3FD555555555550D;

pub const AT1: u64 = 0xBFC999999998EBC4;

pub const AT2: u64 = 0x3FC24924920083FF;

pub const AT3: u64 = 0xBFBC71C6FE231671;

pub const AT4: u64 = 0x3FB745CDC54C206E;

pub const AT5: u64 = 0xBFB3B0F2AF749A6D;

pub const AT6: u64 = 0x3FB10D66A0D03D51;

pub const AT7: u64 = 0xBFADDE2D52DEFD9A;

pub const AT8: u64 = 0x3FA97B4B24760DEB;

pub const AT9: u64 = 0xBFA2B4442C6A6C2F;

pub const AT10: u64 = 0x3F90AD3AE322DA11;

// Arctangents of 0.5, 1, 1.5 and infinity, in high and low parts.
pub const ATANHI0: u64 = 0x3FDDAC670561BB4F;

pub const ATANHI1: u64 = 0x3FE921FB54442D18;

pub const ATANHI2: u64 = 0x3FEF730BD281F69B;

pub const ATANHI3: u64 = 0x3FF921FB54442D18;

pub const ATANLO0: u64 = 0x3C7A2B7F222F65E2;

pub const ATANLO1: u64 = 0x3C81A62633145C07;

pub const ATANLO2: u64 = 0x3C7007887AF0CBBD;

pub const ATANLO3: u64 = 0x3C91A62633145C07;

/// A tiny value added to arctangents of huge arguments.
pub const TINY_ATAN: u64 = 0x0000000003800000;

pub const ONE_HALF_BITS: u64 = 0x3FF8000000000000;

pub const NEG_ONE_BITS: u64 = 0xBFF0000000000000;

/// Pi and a low-order correction term.
pub const PI_BITS: u64 = 0x400921FB54442D18;

pub const PI_LO_BITS: u64 = 0x3CA1A62633145C07;

pub const PI_O_2_BITS: u64 = 0x3FF921FB54442D18;

pub const PI_O_4_BITS: u64 = 0x3FE921FB54442D18;

pub const THREE_PI_O_4_BITS: u64 = 0x4002D97C7F3321D2;

// Polynomial coefficients for the sine kernel on [-pi/4, pi/4].
pub const KS1: u64 = 0xBFC5555555555549;

pub const KS2: u64 = 0x3F8111111110F8A6;

pub const KS3: u64 = 0xBF2A01A019C161D5;

pub const KS4: u64 = 0x3EC71DE357B1FE7D;

pub const KS5: u64 = 0xBE5AE5E68A2B9CEB;

pub const KS6: u64 = 0x3DE5D93A5ACFD57C;

// Polynomial coefficients for the cosine kernel on [-pi/4, pi/4].
pub const KC1: u64 = 0x3FA555555555554C;

pub const KC2: u64 = 0xBF56C16C16C15177;

pub const KC3: u64 = 0x3EFA01A019CB1590;

pub const KC4: u64 = 0xBE927E4F809C52AD;

pub const KC5: u64 = 0x3E21EE9EBDB4B1C4;

pub const KC6: u64 = 0xBDA8FAE9BE8838D4;

// Argument reduction: 2/pi, pi/2 split into parts, and their small multiples.
pub const TO_INT: u64 = 0x4338000000000000;

pub const INV_PIO2: u64 = 0x3FE45F306DC9C883;

pub const PIO2_1: u64 = 0x3FF921FB54400000;

pub const PIO2_1T: u64 = 0x3DD0B4611A626331;

pub const PIO2_2: u64 = 0x3DD0B4611A600000;

pub const PIO2_2T: u64 = 0x3BA3198A2E037073;

pub const PIO2_3: u64 = 0x3BA3198A2E000000;

pub const PIO2_3T: u64 = 0x397B839A252049C1;

pub const PIO2_1X2: u64 = 0x400921FB54400000;

pub const PIO2_1X3: u64 = 0x4012D97C7F300000;

pub const PIO2_1X4: u64 = 0x401921FB54400000;

pub const PIO2_1TX2: u64 = 0x3DE0B4611A626331;

pub const PIO2_1TX3: u64 = 0x3DE90E91A79394CA;

pub const PIO2_1TX4: u64 = 0x3DF0B4611A626331;

// Rational approximation coefficients for the arccosine.
pub const PS0: u64 = 0x3FC5555555555555;

pub const PS1: u64 = 0xBFD4D61203EB6F7D;

pub const PS2: u64 = 0x3FC9C1550E884455;

pub const PS3: u64 = 0xBFA48228B5688F3B;

pub const PS4: u64 = 0x3F49EFE07501B288;

pub const PS5: u64 = 0x3F023DE10DFDF709;

pub const QS1: u64 = 0xC0033A271C8A2D4B;

pub const QS2: u64 = 0x40002AE59C598AC8;

pub const QS3: u64 = 0xBFE6066C1B8D0159;

pub const QS4: u64 = 0x3FB3B8C5B12E9282;

/// A tiny value added to arccosines at the domain edge.
pub const TINY_ACOS: u64 = 0x3870000000000000;

/// The high 32 bits of the magnitude: the sign-free exponent word.
pub open spec fn hi_abs(b: u64) -> u64 {
    mag_of(b) / 0x1_0000_0000
}

/// Truncation of a binary64 value toward zero, saturating at the 64-bit
/// signed bounds; NaN truncates to zero.
pub open spec fn trunc_i64_b(b: u64) -> i64 {
    let mag = mag_of(b);
    let neg = sign_of(b);
    if mag > INF_MAG {
        0
    } else {
        let e = mag / FRAC_UNIT;
        if e < 1023 {
            0
        } else if e >= 1086 {
            if neg {
                i64::MIN
            } else {
                i64::MAX
            }
        } else {
            let m = (FRAC_UNIT + mag % FRAC_UNIT) as u64;
            let v: int = if e >= 1075 {
                m * pow2((e - 1075) as nat)
            } else {
                m as int / pow2((1075 - e) as nat) as int
            };
            if neg {
                (-v) as i64
            } else {
                v as i64
            }
        }
    }
}

pub open spec fn mod4_b(n: i64) -> int {
    n as int % 4
}

/// The sine kernel on [-pi/4, pi/4]; y is the tail of x, used when tail
/// is set.
pub open spec fn k_sin_b(x: u64, y: u64, tail: bool) -> u64 {
    let z = mul_bits(x, x);
    let w = mul_bits(z, z);
    let r = add_bits(
        add_bits(KS2, mul_bits(z, add_bits(KS3, mul_bits(z, KS4)))),
        mul_bits(mul_bits(z, w), add_bits(KS5, mul_bits(z, KS6))),
    );
    let v = mul_bits(z, x);
    if !tail {
        add_bits(x, mul_bits(v, add_bits(KS1, mul_bits(z, r))))
    } else {
        sub_bits(
            x,
            sub_bits(
                sub_bits(mul_bits(z, sub_bits(mul_bits(HALF_BITS, y), mul_bits(v, r))), y),
                mul_bits(v, KS1),
            ),
        )
    }
}

/// The cosine kernel on [-pi/4, pi/4]; y is the tail of x.
pub open spec fn k_cos_b(x: u64, y: u64) -> u64 {
    let z = mul_bits(x, x);
    let w = mul_bits(z, z);
    let r = add_bits(
        mul_bits(z, add_bits(KC1, mul_bits(z, add_bits(KC2, mul_bits(z, KC3))))),
        mul_bits(mul_bits(w, w), add_bits(KC4, mul_bits(z, add_bits(KC5, mul_bits(z, KC6))))),
    );
    let hz = mul_bits(HALF_BITS, z);
    let w2 = sub_bits(ONE_BITS, hz);
    add_bits(
        w2,
        add_bits(
            sub_bits(sub_bits(ONE_BITS, w2), hz),
            sub_bits(mul_bits(z, r), mul_bits(x, y)),
        ),
    )
}

/// Medium-size argument reduction by pi/2, with up to three rounds of
/// correction.
pub open spec fn medium_b(x: u64) -> (i64, u64, u64) {
    let tmp = add_bits(mul_bits(x, INV_PIO2), TO_INT);
    let f_n = sub_bits(tmp, TO_INT);
    let n = trunc_i64_b(f_n);
    let r0 = sub_bits(x, mul_bits(f_n, PIO2_1));
    let w0 = mul_bits(f_n, PIO2_1T);
    let y0a = sub_bits(r0, w0);
    let ey0 = mag_of(y0a) / FRAC_UNIT;
    let ex = mag_of(x) / FRAC_UNIT;
    if ex > ey0 + 16 {
        let w1 = mul_bits(f_n, PIO2_2);
        let r1 = sub_bits(r0, w1);
        let w2 = sub_bits(mul_bits(f_n, PIO2_2T), sub_bits(sub_bits(r0, r1), w1));
        let y0b = sub_bits(r1, w2);
        let ey1 = mag_of(y0b) / FRAC_UNIT;
        if ex > ey1 + 49 {
            let w3 = mul_bits(f_n, PIO2_3);
            let r2 = sub_bits(r1, w3);
            let w4 = sub_bits(mul_bits(f_n, PIO2_3T), sub_bits(sub_bits(r1, r2), w3));
            let y0c = sub_bits(r2, w4);
            (n, y0c, sub_bits(sub_bits(r2, y0c), w4))
        } else {
            (n, y0b, sub_bits(sub_bits(r1, y0b), w2))
        }
    } else {
        (n, y0a, sub_bits(sub_bits(r0, y0a), w0))
    }
}

/// Reduction of x modulo pi/2: a quadrant count and the remainder in high
/// and low parts.  Small multiples of pi/2 are handled directly; infinities
/// and NaN give NaN; everything else goes through the medium reduction.
pub open spec fn rem_pio2_b(x: u64) -> (i64, u64, u64) {
    let ix = hi_abs(x);
    let neg = sign_of(x);
    if ix <= 0x400f6a7a {
        if ix % 0x100000 == 0x921fb {
            medium_b(x)
        } else if ix <= 0x4002d97c {
            if !neg {
                let z = sub_bits(x, PIO2_1);
                let y0 = sub_bits(z, PIO2_1T);
                (1, y0, sub_bits(sub_bits(z, y0), PIO2_1T))
            } else {
                let z = add_bits(x, PIO2_1);
                let y0 = add_bits(z, PIO2_1T);
                ((-1) as i64, y0, add_bits(sub_bits(z, y0), PIO2_1T))
            }
        } else if !neg {
            let z = sub_bits(x, PIO2_1X2);
            let y0 = sub_bits(z, PIO2_1TX2);
            (2, y0, sub_bits(sub_bits(z, y0), PIO2_1TX2))
        } else {
            let z = add_bits(x, PIO2_1X2);
            let y0 = add_bits(z, PIO2_1TX2);
            ((-2) as i64, y0, add_bits(sub_bits(z, y0), PIO2_1TX2))
        }
    } else if ix <= 0x401c463b {
        if ix <= 0x4015fdbc {
            if ix == 0x4012d97c {
                medium_b(x)
            } else if !neg {
                let z = sub_bits(x, PIO2_1X3);
                let y0 = sub_bits(z, PIO2_1TX3);
                (3, y0, sub_bits(sub_bits(z, y0), PIO2_1TX3))
            } else {
                let z = add_bits(x, PIO2_1X3);
                let y0 = add_bits(z, PIO2_1TX3);
                ((-3) as i64, y0, add_bits(sub_bits(z, y0), PIO2_1TX3))
            }
        } else if ix == 0x401921fb {
            medium_b(x)
        } else if !neg {
            let z = sub_bits(x, PIO2_1X4);
            let y0 = sub_bits(z, PIO2_1TX4);
            (4, y0, sub_bits(sub_bits(z, y0), PIO2_1TX4))
        } else {
            let z = add_bits(x, PIO2_1X4);
            let y0 = add_bits(z, PIO2_1TX4);
            ((-4) as i64, y0, add_bits(sub_bits(z, y0), PIO2_1TX4))
        }
    } else if ix >= 0x7ff00000 {
        let y0 = sub_bits(x, x);
        (0, y0, y0)
    } else {
        medium_b(x)
    }
}

/// The sine: kernels for small arguments, reduction by pi/2 otherwise.
pub open spec fn sin_b(x: u64) -> u64 {
    let ix = hi_abs(x);
    if ix <= 0x3fe921fb {
        if ix < 0x3e500000 {
            x
        } else {
            k_sin_b(x, POS_ZERO, false)
        }
    } else if ix >= 0x7ff00000 {
        sub_bits(x, x)
    } else {
        let red = rem_pio2_b(x);
        let q = mod4_b(red.0);
        if q == 0 {
            k_sin_b(red.1, red.2, true)
        } else if q == 1 {
            k_cos_b(red.1, red.2)
        } else if q == 2 {
            flip_sign(k_sin_b(red.1, red.2, true))
        } else {
            flip_sign(k_cos_b(red.1, red.2))
        }
    }
}

/// The cosine: kernels for small arguments, reduction by pi/2 otherwise.
pub open spec fn cos_b(x: u64) -> u64 {
    let ix = hi_abs(x);
    if ix <= 0x3fe921fb {
        if ix < 0x3e46a09e {
            ONE_BITS
        } else {
            k_cos_b(x, POS_ZERO)
        }
    } else if ix >= 0x7ff00000 {
        sub_bits(x, x)
    } else {
        let red = rem_pio2_b(x);
        let q = mod4_b(red.0);
        if q == 0 {
            k_cos_b(red.1, red.2)
        } else if q == 1 {
            flip_sign(k_sin_b(red.1, red.2, true))
        } else if q == 2 {
            flip_sign(k_cos_b(red.1, red.2))
        } else {
            k_sin_b(red.1, red.2, true)
        }
    }
}

pub open spec fn atanhi(id: int) -> u64 {
    if id == 0 {
        ATANHI0
    } else if id == 1 {
        ATANHI1
    } else if id == 2 {
        ATANHI2
    } else {
        ATANHI3
    }
}

pub open spec fn atanlo(id: int) -> u64 {
    if id == 0 {
        ATANLO0
    } else if id == 1 {
        ATANLO1
    } else if id == 2 {
        ATANLO2
    } else {
        ATANLO3
    }
}

/// The arctangent polynomial applied to a reduced argument; id picks the
/// table entry added back, and neg restores the sign.
pub open spec fn atan_poly_b(xt: u64, id: int, neg: bool) -> u64 {
    let z = mul_bits(xt, xt);
    let w = mul_bits(z, z);
    let s1 = mul_bits(
        z,
        add_bits(
            AT0,
            mul_bits(
                w,
                add_bits(
                    AT2,
                    mul_bits(
                        w,
                        add_bits(AT4, mul_bits(w, add_bits(AT6, mul_bits(w, add_bits(AT8, mul_bits(w, AT10)))))),
                    ),
                ),
            ),
        ),
    );
    let s2 = mul_bits(
        w,
        add_bits(
            AT1,
            mul_bits(
                w,
                add_bits(AT3, mul_bits(w, add_bits(AT5, mul_bits(w, add_bits(AT7, mul_bits(w, AT9)))))),
            ),
        ),
    );
    if id < 0 {
        sub_bits(xt, mul_bits(xt, add_bits(s1, s2)))
    } else {
        let zz = sub_bits(
            atanhi(id),
            sub_bits(sub_bits(mul_bits(xt, add_bits(s1, s2)), atanlo(id)), xt),
        );
        if neg {
            flip_sign(zz)
        } else {
            zz
        }
    }
}

/// The arctangent: interval reduction to [0, 7/16] and the polynomial.
pub open spec fn atan_b(x: u64) -> u64 {
    let ix = hi_abs(x);
    let neg = sign_of(x);
    if ix >= 0x44100000 {
        if is_nan_b(x) {
            x
        } else {
            let z = add_bits(ATANHI3, TINY_ATAN);
            if neg {
                flip_sign(z)
            } else {
                z
            }
        }
    } else if ix < 0x3fdc0000 {
        if ix < 0x3e400000 {
            x
        } else {
            atan_poly_b(x, -1, neg)
        }
    } else {
        let xa = mag_of(x);
        if ix < 0x3ff30000 {
            if ix < 0x3fe60000 {
                atan_poly_b(
                    div_bits(sub_bits(mul_bits(TWO_BITS, xa), ONE_BITS), add_bits(TWO_BITS, xa)),
                    0,
                    neg,
                )
            } else {
                atan_poly_b(div_bits(sub_bits(xa, ONE_BITS), add_bits(xa, ONE_BITS)), 1, neg)
            }
        } else if ix < 0x40038000 {
            atan_poly_b(
                div_bits(sub_bits(xa, ONE_HALF_BITS), add_bits(ONE_BITS, mul_bits(ONE_HALF_BITS, xa))),
                2,
                neg,
            )
        } else {
            atan_poly_b(div_bits(NEG_ONE_BITS, xa), 3, neg)
        }
    }
}

/// The quadrant selector: the sign of y plus twice the sign of x.
pub open spec fn quadrant_m(y: u64, x: u64) -> int {
    (if sign_of(y) {
        1int
    } else {
        0int
    }) + (if sign_of(x) {
        2int
    } else {
        0int
    })
}

/// The two-argument arctangent of y/x, in (-pi, pi].
pub open spec fn atan2_b(y: u64, x: u64) -> u64 {
    if is_nan_b(x) || is_nan_b(y) {
        add_bits(x, y)
    } else if x == ONE_BITS {
        atan_b(y)
    } else {
        let ix = hi_abs(x);
        let iy = hi_abs(y);
        let m = quadrant_m(y, x);
        if mag_of(y) == 0 {
            if m == 0 || m == 1 {
                y
            } else if m == 2 {
                PI_BITS
            } else {
                flip_sign(PI_BITS)
            }
        } else if mag_of(x) == 0 {
            if m % 2 == 1 {
                flip_sign(PI_O_2_BITS)
            } else {
                PI_O_2_BITS
            }
        } else if ix == 0x7ff00000 {
            if iy == 0x7ff00000 {
                if m == 0 {
                    PI_O_4_BITS
                } else if m == 1 {
                    flip_sign(PI_O_4_BITS)
                } else if m == 2 {
                    THREE_PI_O_4_BITS
                } else {
                    flip_sign(THREE_PI_O_4_BITS)
                }
            } else {
                if m == 0 {
                    POS_ZERO
                } else if m == 1 {
                    SIGN_MASK
                } else if m == 2 {
                    PI_BITS
                } else {
                    flip_sign(PI_BITS)
                }
            }
        } else if ix + 0x4000000 < iy || iy == 0x7ff00000 {
            if m % 2 == 1 {
                flip_sign(PI_O_2_BITS)
            } else {
                PI_O_2_BITS
            }
        } else {
            let z = if m >= 2 && iy + 0x4000000 < ix {
                POS_ZERO
            } else {
                atan_b(mag_of(div_bits(y, x)))
            };
            if m == 0 {
                z
            } else if m == 1 {
                flip_sign(z)
            } else if m == 2 {
                sub_bits(PI_BITS, sub_bits(z, PI_LO_BITS))
            } else {
                sub_bits(sub_bits(z, PI_LO_BITS), PI_BITS)
            }
        }
    }
}

/// The rational approximation used by the arccosine.
pub open spec fn acos_r_b(z: u64) -> u64 {
    let p = mul_bits(
        z,
        add_bits(
            PS0,
            mul_bits(
                z,
                add_bits(
                    PS1,
                    mul_bits(z, add_bits(PS2, mul_bits(z, add_bits(PS3, mul_bits(z, add_bits(PS4, mul_bits(z, PS5))))))),
                ),
            ),
        ),
    );
    let q = add_bits(
        ONE_BITS,
        mul_bits(z, add_bits(QS1, mul_bits(z, add_bits(QS2, mul_bits(z, add_bits(QS3, mul_bits(z, QS4))))))),
    );
    div_bits(p, q)
}

/// The arccosine on [-1, 1]; outside the domain the result is NaN.
pub open spec fn acos_b(x: u64) -> u64 {
    let ix = hi_abs(x);
    let neg = sign_of(x);
    if ix >= 0x3ff00000 {
        if mag_of(x) == ONE_BITS {
            if neg {
                add_bits(PI_BITS, TINY_ACOS)
            } else {
                POS_ZERO
            }
        } else {
            div_bits(POS_ZERO, sub_bits(x, x))
        }
    } else if ix < 0x3fe00000 {
        if ix <= 0x3c600000 {
            add_bits(PI_O_2_BITS, TINY_ACOS)
        } else {
            sub_bits(
                PI_O_2_BITS,
                sub_bits(x, sub_bits(ATANLO3, mul_bits(x, acos_r_b(mul_bits(x, x))))),
            )
        }
    } else if neg {
        let z = mul_bits(add_bits(ONE_BITS, x), HALF_BITS);
        let s = sqrt_bits(z);
        let w = sub_bits(mul_bits(acos_r_b(z), s), ATANLO3);
        mul_bits(TWO_BITS, sub_bits(PI_O_2_BITS, add_bits(s, w)))
    } else {
        let z = mul_bits(sub_bits(ONE_BITS, x), HALF_BITS);
        let s = sqrt_bits(z);
        let df = ((s / 0x1_0000_0000) * 0x1_0000_0000) as u64;
        let c = div_bits(sub_bits(z, mul_bits(df, df)), add_bits(s, df));
        let w = add_bits(mul_bits(acos_r_b(z), s), c);
        mul_bits(TWO_BITS, add_bits(df, w))
    }
}

fn hi_abs_x(s: Scalar) -> (r: u64)
    ensures
        r == hi_abs(s.bits),
{
    (s.bits % SIGN_MASK) / 0x1_0000_0000
}

/// Truncation toward zero with saturation, mirroring `trunc_i64_b`.
fn trunc_to_i64(s: Scalar) -> (r: i64)
    ensures
        r == trunc_i64_b(s.bits),
{
    let mag = s.bits % SIGN_MASK;
    let neg = s.bits / SIGN_MASK == 1;
    if mag > INF_MAG {
        return 0;
    }
    let e = mag / FRAC_UNIT;
    if e < 1023 {
        return 0;
    }
    if e >= 1086 {
        return if neg {
            i64::MIN
        } else {
            i64::MAX
        };
    }
    let m: u64 = FRAC_UNIT + mag % FRAC_UNIT;
    assert(m < 2 * FRAC_UNIT) by {
        vstd::arithmetic::div_mod::lemma_fundamental_div_mod(mag as int, FRAC_UNIT as int);
    };
    if e >= 1075 {
        let k = e - 1075;
        let mut p: u64 = 1;
        let mut i: u64 = 0;
        proof {
            vstd::arithmetic::power2::lemma2_to64();
        }
        while i < k
            invariant
                i <= k,
                k <= 10,
                p == pow2(i as nat),
                1 <= p <= 1024,
            decreases k - i,
        {
            proof {
                vstd::arithmetic::power2::lemma2_to64();
                lemma_pow2_unfold((i + 1) as nat);
                assert(pow2((i + 1) as nat) <= 1024) by {
                    if i + 1 < 10 {
                        lemma_pow2_strictly_increases((i + 1) as nat, 10);
                    }
                };
            }
            p = p * 2;
            i = i + 1;
        }
        proof {
            assert(m * p < 0x8000_0000_0000_0000) by (nonlinear_arith)
                requires
                    m < 2 * FRAC_UNIT,
                    1 <= p <= 1024,
                    FRAC_UNIT == 0x0010_0000_0000_0000,
            ;
        }
        let v: u64 = m * p;
        if neg {
            -(v as i64)
        } else {
            v as i64
        }
    } else {
        let k = 1075 - e;
        let mut p: u64 = 1;
        let mut i: u64 = 0;
        proof {
            vstd::arithmetic::power2::lemma2_to64();
        }
        while i < k
            invariant
                i <= k,
                k <= 52,
                p == pow2(i as nat),
                1 <= p <= 0x10_0000_0000_0000,
            decreases k - i,
        {
            proof {
                vstd::arithmetic::power2::lemma2_to64();
                vstd::arithmetic::power2::lemma2_to64_rest();
                lemma_pow2_unfold((i + 1) as nat);
                assert(pow2((i + 1) as nat) <= 0x10_0000_0000_0000) by {
                    if i + 1 < 52 {
                        lemma_pow2_strictly_increases((i + 1) as nat, 52);
                    }
                };
            }
            p = p * 2;
            i = i + 1;
        }
        let v: u64 = m / p;
        if neg {
            -(v as i64)
        } else {
            v as i64
        }
    }
}

/// The quadrant count modulo four, non-negative.
fn mod4(n: i64) -> (r: u64)
    ensures
        r as int == mod4_b(n),
{
    if n >= 0 {
        (n as u64) % 4
    } else {
        let m: u64 = (-(n + 1)) as u64;
        let rm: u64 = m % 4;
        proof {
            vstd::arithmetic::div_mod::lemma_fundamental_div_mod(m as int, 4);
            let q = m as int / 4;
            assert(n as int == 4 * (-q - 1) + (3 - rm));
            vstd::arithmetic::div_mod::lemma_fundamental_div_mod_converse(
                n as int,
                4,
                -q - 1,
                3 - rm,
            );
        }
        3 - rm
    }
}

fn k_sin(x: Scalar, y: Scalar, tail: bool) -> (r: Scalar)
    ensures
        r.bits == k_sin_b(x.bits, y.bits, tail),
{
    let s1 = Scalar { bits: KS1 };
    let s2 = Scalar { bits: KS2 };
    let s3 = Scalar { bits: KS3 };
    let s4 = Scalar { bits: KS4 };
    let s5 = Scalar { bits: KS5 };
    let s6 = Scalar { bits: KS6 };
    let half = Scalar { bits: HALF_BITS };
    let z = x.mul(x);
    let w = z.mul(z);
    let r = s2.add(z.mul(s3.add(z.mul(s4)))).add(z.mul(w).mul(s5.add(z.mul(s6))));
    let v = z.mul(x);
    if !tail {
        x.add(v.mul(s1.add(z.mul(r))))
    } else {
        x.sub(z.mul(half.mul(y).sub(v.mul(r))).sub(y).sub(v.mul(s1)))
    }
}

fn k_cos(x: Scalar, y: Scalar) -> (r: Scalar)
    ensures
        r.bits == k_cos_b(x.bits, y.bits),
{
    let c1 = Scalar { bits: KC1 };
    let c2 = Scalar { bits: KC2 };
    let c3 = Scalar { bits: KC3 };
    let c4 = Scalar { bits: KC4 };
    let c5 = Scalar { bits: KC5 };
    let c6 = Scalar { bits: KC6 };
    let half = Scalar { bits: HALF_BITS };
    let one = Scalar { bits: ONE_BITS };
    let z = x.mul(x);
    let w = z.mul(z);
    let r = z.mul(c1.add(z.mul(c2.add(z.mul(c3))))).add(w.mul(w).mul(c4.add(z.mul(c5.add(z.mul(
        c6,
    ))))));
    let hz = half.mul(z);
    let w2 = one.sub(hz);
    w2.add(one.sub(w2).sub(hz).add(z.mul(r).sub(x.mul(y))))
}

#[verifier::rlimit(100)]
fn medium(x: Scalar) -> (r: (i64, Scalar, Scalar))
    ensures
        (r.0, r.1.bits, r.2.bits) == medium_b(x.bits),
{
    let to_int = Scalar { bits: TO_INT };
    let inv_pio2 = Scalar { bits: INV_PIO2 };
    let pio2_1 = Scalar { bits: PIO2_1 };
    let pio2_1t = Scalar { bits: PIO2_1T };
    let tmp = x.mul(inv_pio2).add(to_int);
    let f_n = tmp.sub(to_int);
    let n = trunc_to_i64(f_n);
    let r0 = x.sub(f_n.mul(pio2_1));
    let w0 = f_n.mul(pio2_1t);
    let y0a = r0.sub(w0);
    let ey0 = (y0a.bits % SIGN_MASK) / FRAC_UNIT;
    let ex = (x.bits % SIGN_MASK) / FRAC_UNIT;
    if ex > ey0 + 16 {
        let pio2_2 = Scalar { bits: PIO2_2 };
        let pio2_2t = Scalar { bits: PIO2_2T };
        let w1 = f_n.mul(pio2_2);
        let r1 = r0.sub(w1);
        let w2 = f_n.mul(pio2_2t).sub(r0.sub(r1).sub(w1));
        let y0b = r1.sub(w2);
        let ey1 = (y0b.bits % SIGN_MASK) / FRAC_UNIT;
        if ex > ey1 + 49 {
            let pio2_3 = Scalar { bits: PIO2_3 };
            let pio2_3t = Scalar { bits: PIO2_3T };
            let w3 = f_n.mul(pio2_3);
            let r2 = r1.sub(w3);
            let w4 = f_n.mul(pio2_3t).sub(r1.sub(r2).sub(w3));
            let y0c = r2.sub(w4);
            (n, y0c, r2.sub(y0c).sub(w4))
        } else {
            (n, y0b, r1.sub(y0b).sub(w2))
        }
    } else {
        (n, y0a, r0.sub(y0a).sub(w0))
    }
}

#[verifier::rlimit(100)]
fn rem_pio2(x: Scalar) -> (r: (i64, Scalar, Scalar))
    ensures
        (r.0, r.1.bits, r.2.bits) == rem_pio2_b(x.bits),
{
    let ix = hi_abs_x(x);
    let neg = x.is_sign_negative();
    let pio2_1 = Scalar { bits: PIO2_1 };
    let pio2_1t = Scalar { bits: PIO2_1T };
    if ix <= 0x400f6a7a {
        if ix % 0x100000 == 0x921fb {
            return medium(x);
        }
        if ix <= 0x4002d97c {
            if !neg {
                let z = x.sub(pio2_1);
                let y0 = z.sub(pio2_1t);
                return (1, y0, z.sub(y0).sub(pio2_1t));
            } else {
                let z = x.add(pio2_1);
                let y0 = z.add(pio2_1t);
                return (-1, y0, z.sub(y0).add(pio2_1t));
            }
        }
        let p2 = Scalar { bits: PIO2_1X2 };
        let p2t = Scalar { bits: PIO2_1TX2 };
        if !neg {
            let z = x.sub(p2);
            let y0 = z.sub(p2t);
            return (2, y0, z.sub(y0).sub(p2t));
        } else {
            let z = x.add(p2);
            let y0 = z.add(p2t);
            return (-2, y0, z.sub(y0).add(p2t));
        }
    }
    if ix <= 0x401c463b {
        if ix <= 0x4015fdbc {
            if ix == 0x4012d97c {
                return medium(x);
            }
            let p3 = Scalar { bits: PIO2_1X3 };
            let p3t = Scalar { bits: PIO2_1TX3 };
            if !neg {
                let z = x.sub(p3);
                let y0 = z.sub(p3t);
                return (3, y0, z.sub(y0).sub(p3t));
            } else {
                let z = x.add(p3);
                let y0 = z.add(p3t);
                return (-3, y0, z.sub(y0).add(p3t));
            }
        }
        if ix == 0x401921fb {
            return medium(x);
        }
        let p4 = Scalar { bits: PIO2_1X4 };
        let p4t = Scalar { bits: PIO2_1TX4 };
        if !neg {
            let z = x.sub(p4);
            let y0 = z.sub(p4t);
            return (4, y0, z.sub(y0).sub(p4t));
        } else {
            let z = x.add(p4);
            let y0 = z.add(p4t);
            return (-4, y0, z.sub(y0).add(p4t));
        }
    }
    if ix >= 0x7ff00000 {
        let y0 = x.sub(x);
        return (0, y0, y0);
    }
    medium(x)
}

fn atan_poly(xt: Scalar, id: i64, neg: bool) -> (r: Scalar)
    requires
        -1 <= id <= 3,
    ensures
        r.bits == atan_poly_b(xt.bits, id as int, neg),
{
    let at0 = Scalar { bits: AT0 };
    let at1 = Scalar { bits: AT1 };
    let at2 = Scalar { bits: AT2 };
    let at3 = Scalar { bits: AT3 };
    let at4 = Scalar { bits: AT4 };
    let at5 = Scalar { bits: AT5 };
    let at6 = Scalar { bits: AT6 };
    let at7 = Scalar { bits: AT7 };
    let at8 = Scalar { bits: AT8 };
    let at9 = Scalar { bits: AT9 };
    let at10 = Scalar { bits: AT10 };
    let z = xt.mul(xt);
    let w = z.mul(z);
    let s1 = z.mul(at0.add(w.mul(at2.add(w.mul(at4.add(w.mul(at6.add(w.mul(at8.add(w.mul(
        at10,
    )))))))))));
    let s2 = w.mul(at1.add(w.mul(at3.add(w.mul(at5.add(w.mul(at7.add(w.mul(at9)))))))));
    if id < 0 {
        xt.sub(xt.mul(s1.add(s2)))
    } else {
        let hi = if id == 0 {
            Scalar { bits: ATANHI0 }
        } else if id == 1 {
            Scalar { bits: ATANHI1 }
        } else if id == 2 {
            Scalar { bits: ATANHI2 }
        } else {
            Scalar { bits: ATANHI3 }
        };
        let lo = if id == 0 {
            Scalar { bits: ATANLO0 }
        } else if id == 1 {
            Scalar { bits: ATANLO1 }
        } else if id == 2 {
            Scalar { bits: ATANLO2 }
        } else {
            Scalar { bits: ATANLO3 }
        };
        let zz = hi.sub(xt.mul(s1.add(s2)).sub(lo).sub(xt));
        if neg {
            zz.neg()
        } else {
            zz
        }
    }
}

#[verifier::rlimit(100)]
fn atan(x: Scalar) -> (r: Scalar)
    ensures
        r.bits == atan_b(x.bits),
{
    let ix = hi_abs_x(x);
    let neg = x.is_sign_negative();
    let one = Scalar { bits: ONE_BITS };
    let two = Scalar { bits: TWO_BITS };
    if ix >= 0x44100000 {
        if x.is_nan() {
            return x;
        }
        let z = Scalar { bits: ATANHI3 }.add(Scalar { bits: TINY_ATAN });
        return if neg {
            z.neg()
        } else {
            z
        };
    }
    if ix < 0x3fdc0000 {
        if ix < 0x3e400000 {
            return x;
        }
        return atan_poly(x, -1, neg);
    }
    let xa = x.abs();
    if ix < 0x3ff30000 {
        if ix < 0x3fe60000 {
            atan_poly(two.mul(xa).sub(one).div(two.add(xa)), 0, neg)
        } else {
            atan_poly(xa.sub(one).div(xa.add(one)), 1, neg)
        }
    } else if ix < 0x40038000 {
        let one_half = Scalar { bits: ONE_HALF_BITS };
        atan_poly(xa.sub(one_half).div(one.add(one_half.mul(xa))), 2, neg)
    } else {
        atan_poly(Scalar { bits: NEG_ONE_BITS }.div(xa), 3, neg)
    }
}

fn acos_r(z: Scalar) -> (r: Scalar)
    ensures
        r.bits == acos_r_b(z.bits),
{
    let ps0 = Scalar { bits: PS0 };
    let ps1 = Scalar { bits: PS1 };
    let ps2 = Scalar { bits: PS2 };
    let ps3 = Scalar { bits: PS3 };
    let ps4 = Scalar { bits: PS4 };
    let ps5 = Scalar { bits: PS5 };
    let qs1 = Scalar { bits: QS1 };
    let qs2 = Scalar { bits: QS2 };
    let qs3 = Scalar { bits: QS3 };
    let qs4 = Scalar { bits: QS4 };
    let one = Scalar { bits: ONE_BITS };
    let p = z.mul(ps0.add(z.mul(ps1.add(z.mul(ps2.add(z.mul(ps3.add(z.mul(ps4.add(z.mul(
        ps5,
    )))))))))));
    let q = one.add(z.mul(qs1.add(z.mul(qs2.add(z.mul(qs3.add(z.mul(qs4))))))));
    p.div(q)
}

impl Scalar {
    /// Binary64 sine.  Argument reduction is exact for magnitudes below
    /// 2^20 * pi/2; far beyond that the reduced quadrant loses accuracy.
    #[verifier::rlimit(100)]
    pub fn sin(&self) -> (r: Scalar)
        ensures
            r.bits == sin_b(self.bits),
    {
        let x = *self;
        let ix = hi_abs_x(x);
        if ix <= 0x3fe921fb {
            if ix < 0x3e500000 {
                return x;
            }
            return k_sin(x, Scalar { bits: POS_ZERO }, false);
        }
        if ix >= 0x7ff00000 {
            return x.sub(x);
        }
        let red = rem_pio2(x);
        let q = mod4(red.0);
        if q == 0 {
            k_sin(red.1, red.2, true)
        } else if q == 1 {
            k_cos(red.1, red.2)
        } else if q == 2 {
            k_sin(red.1, red.2, true).neg()
        } else {
            k_cos(red.1, red.2).neg()
        }
    }

    /// Binary64 cosine.  Argument reduction is exact for magnitudes below
    /// 2^20 * pi/2; far beyond that the reduced quadrant loses accuracy.
    #[verifier::rlimit(100)]
    pub fn cos(&self) -> (r: Scalar)
        ensures
            r.bits == cos_b(self.bits),
    {
        let x = *self;
        let ix = hi_abs_x(x);
        if ix <= 0x3fe921fb {
            if ix < 0x3e46a09e {
                return Scalar { bits: ONE_BITS };
            }
            return k_cos(x, Scalar { bits: POS_ZERO });
        }
        if ix >= 0x7ff00000 {
            return x.sub(x);
        }
        let red = rem_pio2(x);
        let q = mod4(red.0);
        if q == 0 {
            k_cos(red.1, red.2)
        } else if q == 1 {
            k_sin(red.1, red.2, true).neg()
        } else if q == 2 {
            k_cos(red.1, red.2).neg()
        } else {
            k_sin(red.1, red.2, true)
        }
    }

    /// Binary64 two-argument arctangent of self/other, in (-pi, pi].
    #[verifier::rlimit(100)]
    pub fn atan2(&self, other: &Scalar) -> (r: Scalar)
        ensures
            r.bits == atan2_b(self.bits, other.bits),
    {
        let y = *self;
        let x = *other;
        if x.is_nan() || y.is_nan() {
            return x.add(y);
        }
        if x.bits == ONE_BITS {
            return atan(y);
        }
        let ix = hi_abs_x(x);
        let iy = hi_abs_x(y);
        let m: u64 = (if y.is_sign_negative() {
            1
        } else {
            0
        }) + (if x.is_sign_negative() {
            2
        } else {
            0
        });
        let pi = Scalar { bits: PI_BITS };
        let pi_o_2 = Scalar { bits: PI_O_2_BITS };
        if y.is_zero() {
            return if m == 0 || m == 1 {
                y
            } else if m == 2 {
                pi
            } else {
                pi.neg()
            };
        }
        if x.is_zero() {
            return if m % 2 == 1 {
                pi_o_2.neg()
            } else {
                pi_o_2
            };
        }
        if ix == 0x7ff00000 {
            if iy == 0x7ff00000 {
                let pi_o_4 = Scalar { bits: PI_O_4_BITS };
                let three_pi_o_4 = Scalar { bits: THREE_PI_O_4_BITS };
                return if m == 0 {
                    pi_o_4
                } else if m == 1 {
                    pi_o_4.neg()
                } else if m == 2 {
                    three_pi_o_4
                } else {
                    three_pi_o_4.neg()
                };
            }
            return if m == 0 {
                Scalar { bits: POS_ZERO }
            } else if m == 1 {
                Scalar { bits: SIGN_MASK }
            } else if m == 2 {
                pi
            } else {
                pi.neg()
            };
        }
        if ix + 0x4000000 < iy || iy == 0x7ff00000 {
            return if m % 2 == 1 {
                pi_o_2.neg()
            } else {
                pi_o_2
            };
        }
        let z = if m >= 2 && iy + 0x4000000 < ix {
            Scalar { bits: POS_ZERO }
        } else {
            atan(y.div(x).abs())
        };
        let pi_lo = Scalar { bits: PI_LO_BITS };
        if m == 0 {
            z
        } else if m == 1 {
            z.neg()
        } else if m == 2 {
            pi.sub(z.sub(pi_lo))
        } else {
            z.sub(pi_lo).sub(pi)
        }
    }

    /// Binary64 arccosine, in [0, pi]; NaN outside [-1, 1].
    #[verifier::rlimit(100)]
    pub fn acos(&self) -> (r: Scalar)
        ensures
            r.bits == acos_b(self.bits),
    {
        let x = *self;
        let ix = hi_abs_x(x);
        let neg = x.is_sign_negative();
        let one = Scalar { bits: ONE_BITS };
        let two = Scalar { bits: TWO_BITS };
        let half = Scalar { bits: HALF_BITS };
        let pi_o_2 = Scalar { bits: PI_O_2_BITS };
        let pio2_lo = Scalar { bits: ATANLO3 };
        if ix >= 0x3ff00000 {
            if x.magnitude_bits() == ONE_BITS {
                if neg {
                    return Scalar { bits: PI_BITS }.add(Scalar { bits: TINY_ACOS });
                }
                return Scalar { bits: POS_ZERO };
            }
            return Scalar { bits: POS_ZERO }.div(x.sub(x));
        }
        if ix < 0x3fe00000 {
            if ix <= 0x3c600000 {
                return pi_o_2.add(Scalar { bits: TINY_ACOS });
            }
            return pi_o_2.sub(x.sub(pio2_lo.sub(x.mul(acos_r(x.mul(x))))));
        }
        if neg {
            let z = one.add(x).mul(half);
            let s = z.sqrt();
            let w = acos_r(z).mul(s).sub(pio2_lo);
            return two.mul(pi_o_2.sub(s.add(w)));
        }
        let z = one.sub(x).mul(half);
        let s = z.sqrt();
        let df = Scalar { bits: (s.bits / 0x1_0000_0000) * 0x1_0000_0000 };
        let c = z.sub(df.mul(df)).div(s.add(df));
        let w = acos_r(z).mul(s).add(c);
        two.mul(df.add(w))
    }
}

} // verus!
