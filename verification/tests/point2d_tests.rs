use libs_2d::{Point2d, Scalar, Vector2d};

fn sc(x: f64) -> Scalar {
    Scalar::from_bits(x.to_bits())
}

fn fl(s: Scalar) -> f64 {
    f64::from_bits(s.to_bits())
}

#[test]
fn test_point2d_creation() {
    let point = Point2d::new(sc(3.0), sc(4.0));
    assert_eq!(fl(point.x()), 3.0);
    assert_eq!(fl(point.y()), 4.0);
}

#[test]
fn test_point2d_add_vector2d() {
    let point = Point2d::new(sc(1.0), sc(2.0));
    let vector = Vector2d::new(sc(3.0), sc(4.0));
    let result = point + vector;
    assert_eq!(fl(result.x()), 4.0);
    assert_eq!(fl(result.y()), 6.0);
}

#[test]
fn test_point2d_negation() {
    let point = Point2d::new(sc(5.0), sc(-7.0));
    let negated = -point;
    assert_eq!(fl(negated.x()), -5.0);
    assert_eq!(fl(negated.y()), 7.0);
}

#[test]
fn test_point2d_default() {
    let default_point: Point2d = Point2d::default();
    assert_eq!(fl(default_point.x()), 0.0);
    assert_eq!(fl(default_point.y()), 0.0);
}

#[test]
fn test_point2d_partial_cmp() {
    let point1 = Point2d::new(sc(1.0), sc(2.0));
    let point2 = Point2d::new(sc(1.0), sc(3.0));
    assert!(point1 < point2);
}

#[test]
fn x_returns_correct_value() {
    let point = Point2d::new(sc(10.0), sc(20.0));
    assert_eq!(fl(point.x()), 10.0);
}

#[test]
fn y_returns_correct_value() {
    let point = Point2d::new(sc(10.0), sc(20.0));
    assert_eq!(fl(point.y()), 20.0);
}

#[test]
fn to_vector_returns_correct_vector() {
    let point = Point2d::new(sc(10.0), sc(20.0));
    let vector = point.to_vector();
    assert_eq!(fl(vector.x), 10.0);
    assert_eq!(fl(vector.y), 20.0);
}

#[test]
fn length_returns_correct_value_for_positive_coordinates() {
    let point = Point2d::new(sc(3.0), sc(4.0));
    assert_eq!(fl(point.length()), 5.0);
}

#[test]
fn length_returns_zero_for_origin() {
    let point = Point2d::new(sc(0.0), sc(0.0));
    assert_eq!(fl(point.length()), 0.0);
}

#[test]
fn length_returns_correct_value_for_negative_coordinates() {
    let point = Point2d::new(sc(-3.0), sc(-4.0));
    assert_eq!(fl(point.length()), 5.0);
}

#[test]
fn length_handles_large_values_correctly() {
    let point = Point2d::new(sc(1e10), sc(1e10));
    assert_eq!(fl(point.length()), (2e20_f64).sqrt());
}

#[test]
fn length_handles_small_values_correctly() {
    let point = Point2d::new(sc(1e-10), sc(1e-10));
    assert_eq!(fl(point.length()), (2e-20_f64).sqrt());
}

#[test]
fn angle_returns_zero_for_positive_x_axis() {
    let point = Point2d::new(sc(1.0), sc(0.0));
    assert_eq!(fl(point.angle()), 0.0);
}

#[test]
fn angle_returns_pi_for_negative_x_axis() {
    let point = Point2d::new(sc(-1.0), sc(0.0));
    assert_eq!(fl(point.angle()), std::f64::consts::PI);
}

#[test]
fn angle_returns_half_pi_for_positive_y_axis() {
    let point = Point2d::new(sc(0.0), sc(1.0));
    assert_eq!(fl(point.angle()), std::f64::consts::FRAC_PI_2);
}

#[test]
fn angle_returns_negative_half_pi_for_negative_y_axis() {
    let point = Point2d::new(sc(0.0), sc(-1.0));
    assert_eq!(fl(point.angle()), -std::f64::consts::FRAC_PI_2);
}

#[test]
fn angle_handles_quadrant_one_correctly() {
    let point = Point2d::new(sc(1.0), sc(1.0));
    assert!(fl(point.angle()) > 0.0 && fl(point.angle()) < std::f64::consts::FRAC_PI_2);
}

#[test]
fn angle_handles_quadrant_two_correctly() {
    let point = Point2d::new(sc(-1.0), sc(1.0));
    assert!(
        fl(point.angle()) > std::f64::consts::FRAC_PI_2
            && fl(point.angle()) < std::f64::consts::PI
    );
}

#[test]
fn angle_handles_quadrant_three_correctly() {
    let point = Point2d::new(sc(-1.0), sc(-1.0));
    assert!(
        fl(point.angle()) < -std::f64::consts::FRAC_PI_2
            && fl(point.angle()) > -std::f64::consts::PI
    );
}

#[test]
fn angle_handles_quadrant_four_correctly() {
    let point = Point2d::new(sc(1.0), sc(-1.0));
    assert!(fl(point.angle()) < 0.0 && fl(point.angle()) > -std::f64::consts::FRAC_PI_2);
}

#[test]
fn point2d_add_counts() {
    assert_eq!(libs_2d::point2d::add(2, 2), 4);
}

#[test]
fn distance_to_matches_the_euclidean_formula() {
    let a = Point2d::new(sc(1.0), sc(2.0));
    let b = Point2d::new(sc(4.0), sc(6.0));
    assert_eq!(fl(a.distance_to(&b)), 5.0);
    assert_eq!(fl(a.distance(&b)), 5.0);
    assert_eq!(fl(a.distance_squared_to(&b)), 25.0);
}

#[test]
fn distance_to_is_zero_for_coincident_points() {
    let a = Point2d::new(sc(-2.5), sc(7.0));
    assert_eq!(fl(a.distance_to(&a)), 0.0);
}

#[test]
fn midpoint_is_the_exact_mean() {
    let a = Point2d::new(sc(1.0), sc(2.0));
    let b = Point2d::new(sc(3.0), sc(6.0));
    let m = a.midpoint(&b);
    assert_eq!(fl(m.x()), 2.0);
    assert_eq!(fl(m.y()), 4.0);
}

#[test]
fn reflections_negate_exactly() {
    let p = Point2d::new(sc(3.0), sc(-4.0));
    assert_eq!(fl(p.reflect_x().y()), 4.0);
    assert_eq!(fl(p.reflect_y().x()), -3.0);
    let o = p.reflect_origin();
    assert_eq!(fl(o.x()), -3.0);
    assert_eq!(fl(o.y()), 4.0);
}

#[test]
fn normalized_point_keeps_degenerate_input() {
    let p = Point2d::new(sc(0.0), sc(0.0));
    let n = p.normalized();
    assert_eq!(fl(n.x()), 0.0);
    assert_eq!(fl(n.y()), 0.0);
    let q = Point2d::new(sc(3.0), sc(4.0));
    let u = q.unit_vector();
    assert_eq!(fl(u.x()), 0.6);
    assert_eq!(fl(u.y()), 0.8);
    assert!(u.is_unit_vector());
}

#[test]
fn collinearity_and_orthogonality_use_the_machine_epsilon() {
    let a = Point2d::new(sc(1.0), sc(2.0));
    let b = Point2d::new(sc(2.0), sc(4.0));
    assert!(a.is_collinear(&b));
    assert!(a.is_parallel(&b));
    let c = Point2d::new(sc(-2.0), sc(1.0));
    assert!(a.is_perpendicular(&c));
    assert!(a.is_orthogonal(&c));
    assert!(!a.is_perpendicular(&b));
}

#[test]
fn angle_between_absorbs_degenerate_inputs() {
    let a = Point2d::new(sc(0.0), sc(0.0));
    let b = Point2d::new(sc(1.0), sc(1.0));
    assert_eq!(fl(a.angle_between(&b)), 0.0);
    let c = Point2d::new(sc(1.0), sc(0.0));
    let d = Point2d::new(sc(0.0), sc(1.0));
    assert!((fl(c.angle_between(&d)) - std::f64::consts::FRAC_PI_2).abs() < 1e-15);
}

#[test]
fn approximate_equality_uses_machine_epsilon() {
    let a = Point2d::new(sc(1.0), sc(1.0));
    let b = Point2d::new(sc(1.0 + 1e-17), sc(1.0));
    assert!(a.is_approx_equal(&b));
    let c = Point2d::new(sc(1.0 + 1e-9), sc(1.0));
    assert!(!a.is_approx_equal(&c));
    assert!(a.is_equal(&a));
}

#[test]
fn sign_predicates_follow_the_components() {
    let p = Point2d::new(sc(1.0), sc(2.0));
    assert!(p.is_positive());
    assert!(!p.is_negative());
    assert!(p.is_non_zero());
    let o = Point2d::new(sc(0.0), sc(-0.0));
    assert!(o.is_zero());
    assert!(o.is_null());
    assert!(!o.is_not_null());
}

#[test]
fn rotate_point_quarter_turn() {
    let p = Point2d::new(sc(1.0), sc(0.0));
    let r = p.rotate(sc(std::f64::consts::FRAC_PI_2));
    assert!(fl(r.x()).abs() < 1e-15);
    assert!((fl(r.y()) - 1.0).abs() < 1e-15);
}
