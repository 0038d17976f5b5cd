use libs_2d::{Scalar, Vector2d};

fn sc(x: f64) -> Scalar {
    Scalar::from_bits(x.to_bits())
}

fn fl(s: Scalar) -> f64 {
    f64::from_bits(s.to_bits())
}

#[test]
fn creates_vector_with_given_components() {
    let vector = Vector2d::new(sc(3.0), sc(4.0));
    assert_eq!(fl(vector.x), 3.0);
    assert_eq!(fl(vector.y), 4.0);
}

#[test]
fn tests_creates_vector_with_zero_components() {
    let vector = Vector2d::new(sc(0.0), sc(0.0));
    assert_eq!(fl(vector.x), 0.0);
    assert_eq!(fl(vector.y), 0.0);
}

#[test]
fn tests_creates_vector_with_negative_components() {
    let vector = Vector2d::new(sc(-3.0), sc(-4.0));
    assert_eq!(fl(vector.x), -3.0);
    assert_eq!(fl(vector.y), -4.0);
}

#[test]
fn tests_creates_vector_with_positive_components() {
    let vector = Vector2d::new(sc(10.0), sc(20.0));
    assert_eq!(fl(vector.x), 10.0);
    assert_eq!(fl(vector.y), 20.0);
}

#[test]
fn tests_creates_vector_with_mixed_components() {
    let vector = Vector2d::new(sc(-30.0), sc(40.0));
    assert_eq!(fl(vector.x), -30.0);
    assert_eq!(fl(vector.y), 40.0);
}

#[test]
fn tests_creates_null_vector_with_zero_trait() {
    let vector = Vector2d::null();
    assert_eq!(fl(vector.x), 0.0);
    assert_eq!(fl(vector.y), 0.0);
}

#[test]
fn tests_creates_vector_with_large_positive_components() {
    let vector = Vector2d::new(sc(i32::MAX as f64), sc(i32::MAX as f64));
    assert_eq!(fl(vector.x), i32::MAX as f64);
    assert_eq!(fl(vector.y), i32::MAX as f64);
}

#[test]
fn tests_creates_vector_with_large_negative_components() {
    let vector = Vector2d::new(sc(i32::MIN as f64), sc(i32::MIN as f64));
    assert_eq!(fl(vector.x), i32::MIN as f64);
    assert_eq!(fl(vector.y), i32::MIN as f64);
}

#[test]
fn vector2d_tests_creates_vector_with_positive_components() {
    let vector = Vector2d::new(sc(10.0), sc(20.0));
    assert_eq!(fl(vector.x), 10.0);
    assert_eq!(fl(vector.y), 20.0);
}

#[test]
fn vector2d_tests_creates_vector_with_negative_components() {
    let vector = Vector2d::new(sc(-15.0), sc(-25.0));
    assert_eq!(fl(vector.x), -15.0);
    assert_eq!(fl(vector.y), -25.0);
}

#[test]
fn vector2d_tests_creates_vector_with_mixed_components() {
    let vector = Vector2d::new(sc(-30.0), sc(40.0));
    assert_eq!(fl(vector.x), -30.0);
    assert_eq!(fl(vector.y), 40.0);
}

#[test]
fn vector2d_tests_creates_null_vector_with_zero_trait() {
    let vector = Vector2d::null();
    assert_eq!(fl(vector.x), 0.0);
    assert_eq!(fl(vector.y), 0.0);
}

#[test]
fn vector2d_tests_creates_vector_with_large_positive_components() {
    let vector = Vector2d::new(sc(i32::MAX as f64), sc(i32::MAX as f64));
    assert_eq!(fl(vector.x), i32::MAX as f64);
    assert_eq!(fl(vector.y), i32::MAX as f64);
}

#[test]
fn vector2d_tests_creates_vector_with_large_negative_components() {
    let vector = Vector2d::new(sc(i32::MIN as f64), sc(i32::MIN as f64));
    assert_eq!(fl(vector.x), i32::MIN as f64);
    assert_eq!(fl(vector.y), i32::MIN as f64);
}

#[test]
fn vector2d_tests_creates_vector_with_zero_components() {
    let vector = Vector2d::new(sc(0.0), sc(0.0));
    assert_eq!(fl(vector.x), 0.0);
    assert_eq!(fl(vector.y), 0.0);
}

#[test]
fn returns_null_vector_as_default() {
    let vector = Vector2d::default();
    assert_eq!(fl(vector.x), 0.0);
    assert_eq!(fl(vector.y), 0.0);
}

#[test]
fn default_vector_is_zero() {
    let vector = Vector2d::default();
    assert!(vector.is_zero());
}

#[test]
fn default_vector_is_not_positive() {
    let vector = Vector2d::default();
    assert!(!vector.is_positive());
}

#[test]
fn default_vector_is_not_negative() {
    let vector = Vector2d::default();
    assert!(!vector.is_negative());
}

#[test]
fn identifies_null_vector_correctly() {
    let vector = Vector2d::new(sc(0.0), sc(0.0));
    assert!(vector.is_null());
}

#[test]
fn identifies_non_null_vector_correctly() {
    let vector = Vector2d::new(sc(1.0), sc(0.0));
    assert!(vector.is_not_null());
}

#[test]
fn calculates_square_root_of_positive_vector_components() {
    let vector = Vector2d::new(sc(4.0), sc(9.0));
    let result = vector.sqrt();
    assert_eq!(fl(result.x), 2.0);
    assert_eq!(fl(result.y), 3.0);
}

#[test]
fn calculates_square_root_of_zero_vector_components() {
    let vector = Vector2d::new(sc(0.0), sc(0.0));
    let result = vector.sqrt();
    assert_eq!(fl(result.x), 0.0);
    assert_eq!(fl(result.y), 0.0);
}

#[test]
fn calculates_square_root_of_negative_vector_components() {
    let vector = Vector2d::new(sc(-4.0), sc(-9.0));
    let result = vector.sqrt();
    assert!(result.x.is_nan());
    assert!(result.y.is_nan());
}

#[test]
fn normalize_gives_unit_length_or_zero() {
    let samples = [
        (3.0, 4.0),
        (-5.0, 12.0),
        (1e-3, 2e-3),
        (1e150, -1e150),
        (0.1, 0.2),
        (7.25, -0.5),
    ];
    for (x, y) in samples {
        let mut v = Vector2d::new(sc(x), sc(y));
        v.normalize();
        let len = fl(v.length());
        assert!((len - 1.0).abs() < 1e-9, "length after normalize was {len}");
    }
    let mut z = Vector2d::new(sc(0.0), sc(-0.0));
    z.normalize();
    assert_eq!(fl(z.length()), 0.0);
}

#[test]
fn vector_angle_stays_within_signed_half_turn() {
    let samples = [
        (1.0, 0.0),
        (0.0, 1.0),
        (-1.0, 0.25),
        (-3.0, -4.0),
        (5.0, -2.0),
        (1e300, 1e-300),
    ];
    for (x, y) in samples {
        let a = fl(Vector2d::new(sc(x), sc(y)).angle());
        assert!(a > -std::f64::consts::PI - 1e-15 && a <= std::f64::consts::PI, "angle {a}");
    }
}

#[test]
fn length_absorbs_overflow_to_zero() {
    let v = Vector2d::new(sc(1e308), sc(1e308));
    assert_eq!(fl(v.length()), 0.0);
    let w = Vector2d::new(sc(f64::NAN), sc(1.0));
    assert_eq!(fl(w.length()), 0.0);
}

#[test]
fn length_snaps_tiny_results_to_zero() {
    let v = Vector2d::new(sc(1e-200), sc(0.0));
    assert_eq!(fl(v.length()), 0.0);
    let w = Vector2d::new(sc(3e-10), sc(4e-10));
    assert_eq!(fl(w.length()), 5e-10);
}

#[test]
fn arithmetic_matches_native_floats() {
    let pairs = [(1.5, 2.25), (-3.75, 0.1), (1e-308, 1e-308), (1e300, -1e300), (0.3, 0.7)];
    for (a, b) in pairs {
        let x = sc(a);
        let y = sc(b);
        assert_eq!(fl(x.add(y)), a + b);
        assert_eq!(fl(x.sub(y)), a - b);
        assert_eq!(fl(x.mul(y)), a * b);
        assert_eq!(fl(x.div(y)), a / b);
    }
}

#[test]
fn try_div_scalar_rejects_exact_zero() {
    let v = Vector2d::new(sc(1.0), sc(2.0));
    assert!(v.try_div_scalar(sc(0.0)).is_none());
    assert!(v.try_div_scalar(sc(-0.0)).is_none());
    let half = v.try_div_scalar(sc(2.0)).unwrap();
    assert_eq!(fl(half.x), 0.5);
    assert_eq!(fl(half.y), 1.0);
}

#[test]
fn lerp_clamps_to_the_endpoints() {
    let a = Vector2d::new(sc(0.0), sc(0.0));
    let b = Vector2d::new(sc(10.0), sc(-10.0));
    let below = a.lerp(&b, sc(-0.5));
    assert_eq!(fl(below.x), 0.0);
    let above = a.lerp(&b, sc(1.5));
    assert_eq!(fl(above.x), 10.0);
    let mid = a.lerp(&b, sc(0.25));
    assert_eq!(fl(mid.x), 2.5);
    assert_eq!(fl(mid.y), -2.5);
}

#[test]
fn clamp_magnitude_only_shrinks() {
    let v = Vector2d::new(sc(3.0), sc(4.0));
    let clamped = v.clamp_magnitude(sc(1.0));
    assert!((fl(clamped.length()) - 1.0).abs() < 1e-12);
    let kept = v.clamp_magnitude(sc(10.0));
    assert_eq!(fl(kept.x), 3.0);
    assert_eq!(fl(kept.y), 4.0);
}

#[test]
fn rotate_quarter_turn() {
    let v = Vector2d::new(sc(1.0), sc(0.0));
    let r = v.rotate(sc(std::f64::consts::FRAC_PI_2));
    assert!(fl(r.x).abs() < 1e-15);
    assert!((fl(r.y) - 1.0).abs() < 1e-15);
}

#[test]
fn set_polar_recovers_cartesian() {
    let mut v = Vector2d::null();
    v.set_polar(sc(2.0), sc(std::f64::consts::PI));
    assert!((fl(v.x) + 2.0).abs() < 1e-14);
    assert!(fl(v.y).abs() < 1e-14);
}

#[test]
fn angle_degrees_scales_by_the_single_precision_factor() {
    let v = Vector2d::new(sc(0.0), sc(1.0));
    let factor = (180.0_f32 / std::f32::consts::PI) as f64;
    assert_eq!(fl(v.angle_degrees()), std::f64::consts::FRAC_PI_2 * factor);
}

#[test]
fn angle_from_x_axis_positive_wraps_into_degrees() {
    let v = Vector2d::new(sc(6.0), sc(-8.0));
    let a = fl(v.angle_from_x_axis_positive());
    assert!(a > 0.0 && a < 360.0);
    let w = Vector2d::new(sc(3.0), sc(1.0));
    let b = fl(w.angle_from_x_axis_positive());
    assert!(b > a && b < 360.0);
}

#[test]
fn clamp_components_bounds_each_component() {
    let v = Vector2d::new(sc(-5.0), sc(9.0));
    let c = v.clamp_components(sc(-1.0), sc(2.0));
    assert_eq!(fl(c.x), -1.0);
    assert_eq!(fl(c.y), 2.0);
}

#[test]
fn reflect_across_x_axis_flips_y() {
    let v = Vector2d::new(sc(3.0), sc(4.0));
    let n = Vector2d::new(sc(0.0), sc(1.0));
    let r = v.reflect(&n);
    assert_eq!(fl(r.x), 3.0);
    assert_eq!(fl(r.y), -4.0);
}

#[test]
fn dot_and_cross_have_exact_values() {
    let a = Vector2d::new(sc(1.0), sc(2.0));
    let b = Vector2d::new(sc(3.0), sc(4.0));
    assert_eq!(fl(a.dot(&b)), 11.0);
    assert_eq!(fl(a.cross(&b)), -2.0);
}

#[test]
fn manhattan_metrics_are_exact() {
    let a = Vector2d::new(sc(3.0), sc(-4.0));
    assert_eq!(fl(a.manhattan_magnitude()), 7.0);
    let b = Vector2d::new(sc(-3.0), sc(4.0));
    assert_eq!(fl(a.manhattan_distance(&b)), 14.0);
}

#[test]
fn tuple_and_array_conversions_round_trip() {
    let v = Vector2d::new(sc(1.25), sc(-2.5));
    let t = v.to_tuple();
    let back = Vector2d::from_tuple(t);
    assert_eq!(fl(back.x), 1.25);
    assert_eq!(fl(back.y), -2.5);
    let a = v.to_array();
    let back2 = Vector2d::from_array(a);
    assert_eq!(fl(back2.x), 1.25);
    assert_eq!(fl(back2.y), -2.5);
    assert_eq!(fl(v.into_vector2d().x), 1.25);
}

#[test]
fn swap_and_splat_mutate_in_place() {
    let mut v = Vector2d::new(sc(1.0), sc(2.0));
    v.swap_xy();
    assert_eq!(fl(v.x), 2.0);
    assert_eq!(fl(v.y), 1.0);
    v.splat(sc(7.0));
    assert_eq!(fl(v.x), 7.0);
    assert_eq!(fl(v.y), 7.0);
    v.translate_x(sc(1.0));
    v.translate_y(sc(-1.0));
    assert_eq!(fl(v.x), 8.0);
    assert_eq!(fl(v.y), 6.0);
}

#[test]
fn perpendiculars_turn_exactly() {
    let v = Vector2d::new(sc(2.0), sc(3.0));
    let p = v.perpendicular();
    assert_eq!(fl(p.x), -3.0);
    assert_eq!(fl(p.y), 2.0);
    let q = v.perpendicular_neg();
    assert_eq!(fl(q.x), 3.0);
    assert_eq!(fl(q.y), -2.0);
    assert_eq!(fl(v.negate().x), -2.0);
    assert_eq!(fl(v.negate_x().x), -2.0);
    assert_eq!(fl(v.negate_y().y), -3.0);
}

#[test]
fn projections_are_guarded() {
    let v = Vector2d::new(sc(3.0), sc(4.0));
    let axis = Vector2d::new(sc(1.0), sc(0.0));
    let p = v.project_onto(&axis);
    assert_eq!(fl(p.x), 3.0);
    assert_eq!(fl(p.y), 0.0);
    assert_eq!(fl(v.projection_length(&axis)), 3.0);
    let zero_axis = Vector2d::null();
    let guarded = v.project_onto(&zero_axis);
    assert_eq!(fl(guarded.x), 0.0);
    assert_eq!(fl(guarded.y), 0.0);
    assert_eq!(fl(v.projection_length(&zero_axis)), 0.0);
}

#[test]
fn ordering_is_purely_lexicographic() {
    let a = Vector2d::new(sc(1.0), sc(f64::NAN));
    let b = Vector2d::new(sc(2.0), sc(3.0));
    assert_eq!(a.partial_cmp(&b), Some(std::cmp::Ordering::Less));
    assert_eq!(b.partial_cmp(&a), Some(std::cmp::Ordering::Greater));
    let c = Vector2d::new(sc(1.0), sc(2.0));
    let d = Vector2d::new(sc(1.0), sc(3.0));
    assert!(c < d);
    assert_eq!(c.partial_cmp(&c), Some(std::cmp::Ordering::Equal));
    let e = Vector2d::new(sc(1.0), sc(f64::NAN));
    assert_eq!(c.partial_cmp(&e), None);
    let f = Vector2d::new(sc(f64::NAN), sc(0.0));
    assert_eq!(f.partial_cmp(&b), None);
}

#[test]
fn dot_and_midpoint_are_symmetric() {
    let a = Vector2d::new(sc(1.5), sc(-2.25));
    let b = Vector2d::new(sc(0.3), sc(4.0));
    assert_eq!(fl(a.dot(&b)).to_bits(), fl(b.dot(&a)).to_bits());
    let m1 = a.midpoint_to(&b);
    let m2 = b.midpoint_to(&a);
    assert_eq!(fl(m1.x).to_bits(), fl(m2.x).to_bits());
    assert_eq!(fl(m1.y).to_bits(), fl(m2.y).to_bits());
}
