use rotor3d::fixed::SCALE;
use rotor3d::vec3::Vec3f32;

fn vraw(f: f32) -> i64 {
    (f * SCALE as f32) as i64
}

fn vflt(r: i64) -> f32 {
    r as f32 / SCALE as f32
}

fn check_perpendicular(x: f32, y: f32, z: f32) {
    let vec = Vec3f32::new(vraw(x), vraw(y), vraw(z));
    let perpendicular = vec.perpendicular();
    assert!((-0.0001..0.0001).contains(&vflt(vec.dot(perpendicular))));
    assert!((0.9999..1.00001).contains(&vflt(perpendicular.magnitude())));
}

#[test]
fn test_perpendicular() {
    check_perpendicular(0.0, 1.0, 0.0);
    check_perpendicular(1.0, 1.0, 0.0);
    check_perpendicular(1.0, 1.0, 1.0);
    check_perpendicular(0.0, 0.0, -1.0);
    check_perpendicular(0.1, -1.0, 9999.0);
}

#[test]
fn test_magnitude_exact() {
    let v = Vec3f32::new(3 * SCALE, 4 * SCALE, 0);
    assert_eq!(v.magnitude(), 5 * SCALE);
    let zero = Vec3f32::new(0, 0, 0);
    assert_eq!(zero.magnitude(), 0);
}

#[test]
fn test_normalized_components() {
    let v = Vec3f32::new(3 * SCALE, 4 * SCALE, 0);
    let n = v.normalized();
    assert!((vflt(n.x) - 0.6).abs() < 0.0001);
    assert!((vflt(n.y) - 0.8).abs() < 0.0001);
    assert_eq!(n.z, 0);
    assert!((0.9999..1.0001).contains(&vflt(n.magnitude())));
}

#[test]
fn test_normalize_in_place_matches_normalized() {
    let v = Vec3f32::new(vraw(0.5), vraw(-2.5), vraw(7.25));
    let n = v.normalized();
    let mut w = v;
    w.normalize();
    assert_eq!((w.x, w.y, w.z), (n.x, n.y, n.z));
}

#[test]
fn test_dot_exact() {
    let a = Vec3f32::new(SCALE, 2 * SCALE, 3 * SCALE);
    let b = Vec3f32::new(4 * SCALE, 5 * SCALE, 6 * SCALE);
    assert_eq!(a.dot(b), 32 * SCALE);
}

#[test]
fn test_cross_exact() {
    let x = Vec3f32::new(SCALE, 0, 0);
    let y = Vec3f32::new(0, SCALE, 0);
    let c = x.cross(y);
    assert_eq!((c.x, c.y, c.z), (0, 0, SCALE));
    let anti = y.cross(x);
    assert_eq!((anti.x, anti.y, anti.z), (0, 0, -SCALE));
}

#[test]
fn test_add_mul_div_exact() {
    let a = Vec3f32::new(SCALE, -2 * SCALE, 3 * SCALE);
    let b = Vec3f32::new(5 * SCALE, SCALE, -SCALE);
    let s = a.add(b);
    assert_eq!((s.x, s.y, s.z), (6 * SCALE, -SCALE, 2 * SCALE));
    let m = a.mul(2 * SCALE);
    assert_eq!((m.x, m.y, m.z), (2 * SCALE, -4 * SCALE, 6 * SCALE));
    let d = a.div(2 * SCALE);
    assert_eq!((d.x, d.y, d.z), (SCALE / 2, -SCALE, 3 * SCALE / 2));
}
