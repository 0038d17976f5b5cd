use libs_2d::Scalar;

fn sc(x: f64) -> Scalar {
    Scalar::from_bits(x.to_bits())
}

fn fl(s: Scalar) -> f64 {
    f64::from_bits(s.to_bits())
}

fn sweep() -> Vec<f64> {
    let mut v: Vec<f64> = Vec::new();
    let mut x: f64 = 1e-12;
    while x < 1e12 {
        v.push(x);
        v.push(-x);
        v.push(x * 1.7183);
        v.push(-x * 3.1416);
        x *= 97.0;
    }
    v.push(0.0);
    v.push(-0.0);
    v.push(1.0);
    v.push(-1.0);
    v.push(0.5);
    v.push(std::f64::consts::PI);
    v.push(-std::f64::consts::FRAC_PI_2);
    v.push(6.0);
    v.push(100.0);
    v.push(12345.678);
    v
}

#[test]
fn classification_matches_native_floats() {
    let values = [0.0, -0.0, 1.5, -2.5, f64::NAN, f64::INFINITY, f64::NEG_INFINITY, 1e-320];
    for v in values {
        let s = sc(v);
        assert_eq!(s.is_nan(), v.is_nan());
        assert_eq!(s.is_infinite(), v.is_infinite());
        assert_eq!(s.is_finite(), v.is_finite());
        assert_eq!(s.is_zero(), v == 0.0);
        assert_eq!(s.is_sign_negative(), v.is_sign_negative());
    }
}

#[test]
fn comparisons_match_native_floats() {
    let values = [0.0, -0.0, 1.0, -1.0, 2.5, -2.5, f64::NAN, f64::INFINITY, f64::NEG_INFINITY];
    for a in values {
        for b in values {
            let x = sc(a);
            let y = sc(b);
            assert_eq!(x.lt(&y), a < b, "lt {a} {b}");
            assert_eq!(x.le(&y), a <= b, "le {a} {b}");
            assert_eq!(x.gt(&y), a > b, "gt {a} {b}");
            assert_eq!(x.ge(&y), a >= b, "ge {a} {b}");
            assert_eq!(x.eq_val(&y), a == b, "eq {a} {b}");
            assert_eq!(x.partial_cmp(&y), a.partial_cmp(&b), "cmp {a} {b}");
        }
    }
}

#[test]
fn negation_and_abs_are_exact_sign_operations() {
    for v in sweep() {
        let s = sc(v);
        assert_eq!(fl(s.neg()).to_bits(), (-v).to_bits());
        assert_eq!(fl(s.abs()).to_bits(), v.abs().to_bits());
    }
}

#[test]
fn arithmetic_agrees_with_the_hardware_bit_for_bit() {
    let values = sweep();
    for (i, &a) in values.iter().enumerate() {
        let b = values[(i * 7 + 3) % values.len()];
        let x = sc(a);
        let y = sc(b);
        assert_eq!(fl(x.add(y)).to_bits(), (a + b).to_bits(), "add {a} {b}");
        assert_eq!(fl(x.sub(y)).to_bits(), (a - b).to_bits(), "sub {a} {b}");
        assert_eq!(fl(x.mul(y)).to_bits(), (a * b).to_bits(), "mul {a} {b}");
        assert_eq!(fl(x.div(y)).to_bits(), (a / b).to_bits(), "div {a} {b}");
    }
}

#[test]
fn sqrt_agrees_with_the_hardware_bit_for_bit() {
    for v in sweep() {
        let s = sc(v);
        let expected = v.sqrt();
        let got = fl(s.sqrt());
        if expected.is_nan() {
            assert!(got.is_nan(), "sqrt {v}");
        } else {
            assert_eq!(got.to_bits(), expected.to_bits(), "sqrt {v}");
        }
    }
    assert_eq!(fl(sc(4.0).sqrt()), 2.0);
    assert_eq!(fl(sc(2.0).sqrt()), std::f64::consts::SQRT_2);
    assert_eq!(fl(sc(1e-320).sqrt()).to_bits(), (1e-320_f64).sqrt().to_bits());
}

#[test]
fn sine_and_cosine_match_the_reference_library() {
    for v in sweep() {
        if v.abs() < 1.0e6 {
            let s = sc(v);
            assert_eq!(fl(s.sin()).to_bits(), libm::sin(v).to_bits(), "sin {v}");
            assert_eq!(fl(s.cos()).to_bits(), libm::cos(v).to_bits(), "cos {v}");
        }
    }
}

#[test]
fn atan2_matches_the_reference_library() {
    let values = [0.0, -0.0, 1.0, -1.0, 0.5, -0.5, 3.0, -4.0, 1e10, -1e-10, f64::INFINITY,
        f64::NEG_INFINITY];
    for y in values {
        for x in values {
            let got = fl(sc(y).atan2(&sc(x)));
            let expected = libm::atan2(y, x);
            assert_eq!(got.to_bits(), expected.to_bits(), "atan2 {y} {x}");
        }
    }
}

#[test]
fn acos_matches_the_reference_library() {
    let values = [-1.0, -0.75, -0.5, -0.1, 0.0, 0.1, 0.5, 0.75, 1.0, 1.5, -1.5];
    for v in values {
        let got = fl(sc(v).acos());
        let expected = libm::acos(v);
        if expected.is_nan() {
            assert!(got.is_nan(), "acos {v}");
        } else {
            assert_eq!(got.to_bits(), expected.to_bits(), "acos {v}");
        }
    }
}

#[test]
fn the_guard_snaps_and_absorbs() {
    assert_eq!(fl(sc(f64::NAN).guard()), 0.0);
    assert_eq!(fl(sc(f64::INFINITY).guard()), 0.0);
    assert_eq!(fl(sc(1e-11).guard()), 0.0);
    assert_eq!(fl(sc(-1e-11).guard()), 0.0);
    assert_eq!(fl(sc(1e-9).guard()), 1e-9);
    assert_eq!(fl(sc(-5.0).guard()), -5.0);
    assert_eq!(fl(sc(1e-11).snap()), 0.0);
    assert_eq!(fl(sc(f64::INFINITY).snap()), f64::INFINITY);
}

#[test]
fn max_and_min_ignore_nan() {
    assert_eq!(fl(sc(f64::NAN).max(sc(2.0))), 2.0);
    assert_eq!(fl(sc(3.0).max(sc(f64::NAN))), 3.0);
    assert_eq!(fl(sc(3.0).max(sc(2.0))), 3.0);
    assert_eq!(fl(sc(3.0).min(sc(2.0))), 2.0);
    assert_eq!(fl(sc(f64::NAN).min(sc(2.0))), 2.0);
}
