use ray_tracer::{faces_front, nearest_hit, select_root, Scalar, SphereRoots};

fn s(x: f64) -> Scalar {
    Scalar::from_bits(x.to_bits())
}

fn roots(discriminant: f64, near: f64, far: f64) -> SphereRoots {
    SphereRoots { discriminant: s(discriminant), near: s(near), far: s(far) }
}

/// Solves the sphere quadratic the way the renderer does.
fn solve(origin: [f64; 3], dir: [f64; 3], center: [f64; 3], radius: f64) -> SphereRoots {
    let oc = [origin[0] - center[0], origin[1] - center[1], origin[2] - center[2]];
    let a = dir[0] * dir[0] + dir[1] * dir[1] + dir[2] * dir[2];
    let half_b = dir[0] * oc[0] + dir[1] * oc[1] + dir[2] * oc[2];
    let c = oc[0] * oc[0] + oc[1] * oc[1] + oc[2] * oc[2] - radius * radius;
    let d = half_b * half_b - a * c;
    let root = d.sqrt();
    roots(d, (-half_b - root) / a, (-half_b + root) / a)
}

#[test]
fn ray_down_the_axis_meets_sphere_at_half() {
    let r = solve([0.0, 0.0, 0.0], [0.0, 0.0, -1.0], [0.0, 0.0, -1.0], 0.5);
    assert_eq!(select_root(&r, s(0.001), s(f64::INFINITY)), Some(s(0.5)));
    assert_eq!(nearest_hit(&vec![r], s(0.001), s(f64::INFINITY)), Some((0, s(0.5))));
}

#[test]
fn negative_radius_gives_same_parameter() {
    let pos = solve([0.0, 0.0, 0.0], [0.0, 0.0, -1.0], [0.0, 0.0, -1.0], 0.5);
    let neg = solve([0.0, 0.0, 0.0], [0.0, 0.0, -1.0], [0.0, 0.0, -1.0], -0.5);
    let a = select_root(&pos, s(0.001), s(f64::INFINITY));
    let b = select_root(&neg, s(0.001), s(f64::INFINITY));
    assert_eq!(a, b);
    assert_eq!(a, Some(s(0.5)));
}

#[test]
fn missing_ray_has_no_hit() {
    // passes at distance 2 from the centre of a sphere of radius 1
    let r = solve([0.0, 2.0, 0.0], [0.0, 0.0, -1.0], [0.0, 0.0, -5.0], 1.0);
    assert!(r.discriminant.to_bits() != 0);
    assert_eq!(select_root(&r, s(0.001), s(f64::INFINITY)), None);
    assert_eq!(select_root(&roots(-0.25, 1.0, 2.0), s(0.0), s(10.0)), None);
}

#[test]
fn far_root_when_near_is_behind() {
    // ray starting inside the sphere
    let r = solve([0.0, 0.0, -1.0], [0.0, 0.0, -1.0], [0.0, 0.0, -1.0], 0.5);
    assert_eq!(select_root(&r, s(0.001), s(f64::INFINITY)), Some(s(0.5)));
    assert_eq!(select_root(&roots(1.0, -1.0, 3.0), s(0.001), s(10.0)), Some(s(3.0)));
}

#[test]
fn interval_is_open_at_both_ends() {
    let r = roots(1.0, 1.0, 2.0);
    assert_eq!(select_root(&r, s(1.0), s(10.0)), Some(s(2.0)));
    assert_eq!(select_root(&r, s(1.0), s(2.0)), None);
    assert_eq!(select_root(&r, s(0.0), s(1.0)), None);
}

#[test]
fn double_root_counts_as_hit() {
    assert_eq!(select_root(&roots(0.0, 2.0, 2.0), s(0.001), s(10.0)), Some(s(2.0)));
}

#[test]
fn empty_scene_has_no_hit() {
    assert_eq!(nearest_hit(&Vec::new(), s(0.001), s(f64::INFINITY)), None);
}

#[test]
fn nearest_hit_is_independent_of_order() {
    let a = roots(1.0, 3.0, 5.0);
    let b = roots(1.0, 2.0, 4.0);
    let c = roots(-1.0, 0.5, 0.7);
    let lo = s(0.001);
    let hi = s(f64::INFINITY);
    assert_eq!(nearest_hit(&vec![a, b, c], lo, hi), Some((1, s(2.0))));
    assert_eq!(nearest_hit(&vec![b, a, c], lo, hi), Some((0, s(2.0))));
    assert_eq!(nearest_hit(&vec![c, a, b], lo, hi), Some((2, s(2.0))));
}

#[test]
fn nearest_hit_uses_far_root_of_enclosing_sphere() {
    // the camera sits inside a large sphere that encloses a small one
    let outer = roots(1.0, -10.0, 10.0);
    let inner = roots(1.0, 3.0, 4.0);
    let lo = s(0.001);
    let hi = s(f64::INFINITY);
    assert_eq!(nearest_hit(&vec![outer, inner], lo, hi), Some((1, s(3.0))));
    assert_eq!(nearest_hit(&vec![inner, outer], lo, hi), Some((0, s(3.0))));
}

#[test]
fn nearest_hit_respects_upper_bound() {
    let a = roots(1.0, 3.0, 5.0);
    assert_eq!(nearest_hit(&vec![a], s(0.001), s(3.0)), None);
    assert_eq!(nearest_hit(&vec![a], s(3.0), s(6.0)), Some((0, s(5.0))));
}

#[test]
fn equal_hits_keep_the_earlier_primitive() {
    let a = roots(1.0, 2.0, 4.0);
    let b = roots(1.0, 2.0, 6.0);
    assert_eq!(nearest_hit(&vec![a, b], s(0.001), s(10.0)), Some((0, s(2.0))));
}

#[test]
fn front_face_when_ray_opposes_normal() {
    assert!(faces_front(s(-0.5)));
    assert!(!faces_front(s(0.5)));
    assert!(!faces_front(s(0.0)));
    assert!(!faces_front(s(-0.0)));
}
