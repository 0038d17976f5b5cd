use libs_2d::{Line2d, Point2d, Scalar};

fn sc(x: f64) -> Scalar {
    Scalar::from_bits(x.to_bits())
}

fn fl(s: Scalar) -> f64 {
    f64::from_bits(s.to_bits())
}

fn line(x1: f64, y1: f64, x2: f64, y2: f64) -> Line2d {
    Line2d::new(Point2d::new(sc(x1), sc(y1)), Point2d::new(sc(x2), sc(y2)))
}

#[test]
fn it_works() {
    let result = libs_2d::line2d::add(2, 2);
    assert_eq!(result, 4);
}

#[test]
fn angle_between_degrees_returns_zero_for_identical_lines() {
    let line1 = line(0.0, 0.0, 1.0, 1.0);
    let line2 = line(0.0, 0.0, 1.0, 1.0);
    let (angle, clockwise) = line1.angle_to_line(&line2);
    assert!((fl(angle) - 0.0).abs() < 1e-5, "angle was {}", fl(angle));
    assert!(!clockwise, "Expected angle to be counterclockwise");
}

#[test]
fn angle_between_degrees_returns_90_for_perpendicular_lines_ccw() {
    let line1 = line(0.0, 0.0, 0.0, -1.0);
    let line2 = line(0.0, 0.0, 1.0, 1.0);
    let (angle, clockwise) = line1.angle_to_line(&line2);
    assert_eq!(fl(angle).to_degrees(), 225.0);
    assert!(clockwise, "Expected angle to be counterclockwise");
}

#[test]
fn angle_between_degrees_returns_225_for_diagonal_and_down() {
    let line1 = line(0.0, 0.0, 1.0, 1.0);
    let line2 = line(0.0, 0.0, 0.0, -1.0);
    let (angle, clockwise) = line1.angle_to_line(&line2);
    assert_eq!(fl(angle).to_degrees(), 225.0);
    assert!(!clockwise, "Expected angle to be clockwise");
}

#[test]
fn length_matches_the_endpoint_distance() {
    let l = line(1.0, 2.0, 4.0, 6.0);
    assert_eq!(fl(l.length()), 5.0);
    assert_eq!(fl(l.length()), fl(l.pt1().distance_to(l.pt2())));
}

#[test]
fn length_of_a_degenerate_line_is_exactly_zero() {
    let l = line(2.5, -7.0, 2.5, -7.0);
    assert!(l.is_point());
    assert_eq!(fl(l.length()).to_bits(), 0u64);
}

#[test]
fn length_snaps_and_absorbs_invalid_values() {
    let tiny = line(0.0, 0.0, 1e-11, 0.0);
    assert_eq!(fl(tiny.length()), 0.0);
    let huge = line(-1e308, 0.0, 1e308, 0.0);
    assert_eq!(fl(huge.length()), 0.0);
    let bad = line(f64::NAN, 0.0, 1.0, 0.0);
    assert_eq!(fl(bad.length()), 0.0);
}

#[test]
fn line_angle_stays_within_the_full_turn() {
    let samples = [
        (1.0, 0.0),
        (1.0, 1.0),
        (0.0, 1.0),
        (-1.0, 1.0),
        (-1.0, 0.0),
        (-1.0, -1.0),
        (0.0, -1.0),
        (1.0, -1.0),
        (3.0, -0.5),
    ];
    for (dx, dy) in samples {
        let l = line(0.0, 0.0, dx, dy);
        let a = fl(l.angle());
        assert!(a >= 0.0 && a < 2.0 * std::f64::consts::PI, "angle {a} for ({dx},{dy})");
    }
}

#[test]
fn line_angle_is_zero_for_a_degenerate_line() {
    let l = line(3.0, 3.0, 3.0, 3.0);
    assert_eq!(fl(l.angle()), 0.0);
}

#[test]
fn line_angle_normalizes_negative_directions_upward() {
    let l = line(0.0, 0.0, 0.0, -1.0);
    let expected = -std::f64::consts::FRAC_PI_2 + 2.0 * std::f64::consts::PI;
    assert_eq!(fl(l.angle()), expected);
}

#[test]
fn angle_degrees_converts_with_the_double_precision_factor() {
    let l = line(0.0, 0.0, 0.0, 1.0);
    assert_eq!(fl(l.angle_degrees()), 90.0);
}

#[test]
fn unit_vector_returns_a_degenerate_line_unchanged() {
    let l = line(4.0, -1.0, 4.0, -1.0);
    let u = l.unit_vector();
    assert_eq!(fl(u.x1()), 4.0);
    assert_eq!(fl(u.y1()), -1.0);
    assert_eq!(fl(u.x2()), 4.0);
    assert_eq!(fl(u.y2()), -1.0);
}

#[test]
fn unit_vector_has_unit_length() {
    let l = line(1.0, 1.0, 4.0, 5.0);
    let u = l.unit_vector();
    assert!((fl(u.length()) - 1.0).abs() < 1e-12);
    assert_eq!(fl(u.x1()), 1.0);
    assert_eq!(fl(u.y1()), 1.0);
}

#[test]
fn point_at_returns_zero_outside_the_segment() {
    let l = line(1.0, 2.0, 3.0, 4.0);
    let below = l.point_at(sc(-0.1));
    assert_eq!(fl(below.x()).to_bits(), 0u64);
    assert_eq!(fl(below.y()).to_bits(), 0u64);
    let above = l.point_at(sc(1.1));
    assert_eq!(fl(above.x()).to_bits(), 0u64);
    assert_eq!(fl(above.y()).to_bits(), 0u64);
}

#[test]
fn point_at_hits_the_endpoints() {
    let l = line(1.0, 2.0, 3.0, 4.0);
    let start = l.point_at(sc(0.0));
    assert_eq!(fl(start.x()), 1.0);
    assert_eq!(fl(start.y()), 2.0);
    let end = l.point_at(sc(1.0));
    assert_eq!(fl(end.x()), 3.0);
    assert_eq!(fl(end.y()), 4.0);
    let mid = l.point_at(sc(0.5));
    assert_eq!(fl(mid.x()), 2.0);
    assert_eq!(fl(mid.y()), 3.0);
}

#[test]
fn clockwise_flags_agree_between_cross_and_angle_difference() {
    // Both notions read "negative means clockwise": the cross product for
    // is_angle_clockwise, the difference of the normalized line angles for
    // angle_to_line.
    let base = line(0.0, 0.0, 1.0, 0.0);
    let up = line(0.0, 0.0, 0.0, 1.0);
    assert!(!base.is_angle_clockwise(&up));
    let (_, cw_up) = base.angle_to_line(&up);
    assert!(!cw_up);
    let diag = line(0.0, 0.0, 1.0, 1.0);
    assert!(diag.is_angle_clockwise(&base));
    let (_, cw_back) = diag.angle_to_line(&base);
    assert!(cw_back);
}

#[test]
fn is_angle_clockwise_is_false_for_degenerate_pairs() {
    let a = line(0.0, 0.0, 0.0, 0.0);
    let b = line(0.0, 0.0, 0.0, 0.0);
    assert!(!a.is_angle_clockwise(&b));
}

#[test]
fn relations_follow_the_cross_and_dot_signs() {
    let a = line(0.0, 0.0, 1.0, 1.0);
    let b = line(2.0, 2.0, 4.0, 4.0);
    assert!(a.is_parallel(&b));
    assert!(a.is_collinear(&b));
    assert!(a.is_same_direction(&b));
    let c = line(0.0, 0.0, 1.0, -1.0);
    assert!(a.is_perpendicular(&c));
    assert!(a.is_orthogonal(&c));
    let d = line(0.0, 0.0, -1.0, -1.0);
    assert!(a.is_opposite_direction(&d));
}

#[test]
fn angle_between_dot_gives_the_enclosed_angle() {
    let a = line(0.0, 0.0, 1.0, 0.0);
    let b = line(0.0, 0.0, 0.0, 1.0);
    assert!((fl(a.angle_between_dot(&b)) - std::f64::consts::FRAC_PI_2).abs() < 1e-15);
    assert!((fl(a.angle_between_deg(&b)) - 90.0).abs() < 1e-12);
    let degenerate = line(1.0, 1.0, 1.0, 1.0);
    assert_eq!(fl(a.angle_between_dot(&degenerate)), 0.0);
}

#[test]
fn get_polar_returns_length_and_wrapped_angle() {
    let l = line(0.0, 0.0, 0.0, -2.0);
    let (len, ang) = l.get_polar();
    assert_eq!(fl(len), 2.0);
    assert_eq!(fl(ang), -std::f64::consts::FRAC_PI_2 + 2.0 * std::f64::consts::PI);
    let degenerate = line(5.0, 5.0, 5.0, 5.0);
    let (dl, da) = degenerate.get_polar();
    assert_eq!(fl(dl), 0.0);
    assert_eq!(fl(da), 0.0);
}

#[test]
fn set_polar_is_a_pure_candidate_computation() {
    let l = line(1.0, 1.0, 2.0, 2.0);
    let (x, y) = l.set_polar(sc(2.0), sc(0.0));
    assert_eq!(fl(x), 3.0);
    assert_eq!(fl(y), 1.0);
    let (bx, by) = l.set_polar(sc(-1.0), sc(0.0));
    assert_eq!(fl(bx), 0.0);
    assert_eq!(fl(by), 0.0);
    let (nx, ny) = l.set_polar(sc(f64::NAN), sc(0.0));
    assert_eq!(fl(nx), 0.0);
    assert_eq!(fl(ny), 0.0);
}

#[test]
fn set_length_rescales_along_the_direction() {
    let mut l = line(0.0, 0.0, 3.0, 4.0);
    l.set_length(sc(10.0));
    assert!((fl(l.x2()) - 6.0).abs() < 1e-12);
    assert!((fl(l.y2()) - 8.0).abs() < 1e-12);
    let mut m = line(0.0, 0.0, 3.0, 4.0);
    m.set_length(sc(-1.0));
    assert_eq!(fl(m.x2()), 3.0);
    assert_eq!(fl(m.y2()), 4.0);
}

#[test]
fn set_angle_keeps_the_length() {
    let mut l = line(0.0, 0.0, 2.0, 0.0);
    l.set_angle(sc(std::f64::consts::FRAC_PI_2));
    assert!(fl(l.x2()).abs() < 1e-12);
    assert!((fl(l.y2()) - 2.0).abs() < 1e-12);
    let mut m = line(0.0, 0.0, 2.0, 0.0);
    m.set_angle(sc(f64::INFINITY));
    assert_eq!(fl(m.x2()), 2.0);
}

#[test]
fn set_angle_degrees_converts_before_aiming() {
    let mut l = line(0.0, 0.0, 2.0, 0.0);
    l.set_angle_degrees(sc(180.0));
    assert!((fl(l.x2()) + 2.0).abs() < 1e-12);
}

#[test]
fn scale_stretches_from_the_start_point() {
    let mut l = line(1.0, 1.0, 2.0, 3.0);
    l.scale(sc(2.0));
    assert_eq!(fl(l.x2()), 3.0);
    assert_eq!(fl(l.y2()), 5.0);
    let mut m = line(1.0, 1.0, 2.0, 3.0);
    m.scale(sc(0.0));
    assert_eq!(fl(m.x2()), 1.0);
    assert_eq!(fl(m.y2()), 1.0);
    let mut k = line(1.0, 1.0, 2.0, 3.0);
    k.scale(sc(-2.0));
    assert_eq!(fl(k.x2()), 2.0);
    assert_eq!(fl(k.y2()), 3.0);
}

#[test]
fn slope_is_infinite_for_vertical_lines() {
    let v = line(1.0, 0.0, 1.0, 5.0);
    assert!(v.is_vertical());
    assert!(fl(v.slope()).is_infinite());
    let h = line(0.0, 2.0, 4.0, 2.0);
    assert!(h.is_horizontal());
    assert_eq!(fl(h.slope()), 0.0);
    let d = line(0.0, 0.0, 2.0, 1.0);
    assert_eq!(fl(d.slope()), 0.5);
}

#[test]
fn normals_are_exact_quarter_turns() {
    let l = line(0.0, 0.0, 1.0, 0.0);
    let nv = l.normal_vector();
    assert_eq!(fl(nv.x), 0.0);
    assert_eq!(fl(nv.y), 1.0);
    let n = l.normal();
    assert_eq!(fl(n.x1()), 0.0);
    assert_eq!(fl(n.y1()), 1.0);
    assert_eq!(fl(n.x2()), 1.0);
    assert_eq!(fl(n.y2()), 1.0);
    let b = l.perpendicular_bisector();
    assert_eq!(fl(b.x1()), 0.5);
    assert_eq!(fl(b.y1()), 0.0);
    assert_eq!(fl(b.x2()), 0.5);
    assert_eq!(fl(b.y2()), 1.0);
}

#[test]
fn midpoint_of_a_line_is_the_exact_mean() {
    let l = line(1.0, 2.0, 3.0, 6.0);
    let m = l.midpoint();
    assert_eq!(fl(m.x()), 2.0);
    assert_eq!(fl(m.y()), 4.0);
}
