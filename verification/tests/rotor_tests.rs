use rotor3d::fixed::SCALE;
use rotor3d::rotor3::Rot3Df32;
use rotor3d::vec3::Vec3f32;

fn rraw(f: f32) -> i64 {
    (f * SCALE as f32) as i64
}

fn rflt(r: i64) -> f32 {
    r as f32 / SCALE as f32
}

#[test]
fn test_no_rotation() {
    let a = Vec3f32::new(rraw(1.0), rraw(0.0), rraw(0.0));
    let b = Vec3f32::new(rraw(1.0), rraw(0.0), rraw(0.0));
    let rotor = Rot3Df32::new(a, b);

    let mut v = Vec3f32::new(rraw(1.0), rraw(1.0), rraw(1.0));
    rotor.rotate_vec(&mut v);
    assert!((0.9999..1.0001).contains(&rflt(v.x)));
    assert!((0.9999..1.0001).contains(&rflt(v.y)));
    assert!((0.9999..1.0001).contains(&rflt(v.z)));
}

#[test]
fn test_double_rotation_fix() {
    let a = Vec3f32::new(rraw(1.0), rraw(0.0), rraw(0.0));
    let b = Vec3f32::new(rraw(0.0), rraw(1.0), rraw(0.0));
    let rotor = Rot3Df32::new_exact(a, b);

    let mut v = Vec3f32::new(rraw(1.0), rraw(0.0), rraw(0.0));
    rotor.rotate_vec(&mut v);
    assert!((-0.0001..0.0001).contains(&rflt(v.x)));
    assert!((0.9999..1.0001).contains(&rflt(v.y)));
    assert!((-0.0001..0.0001).contains(&rflt(v.z)));
}

#[test]
fn test_double_rotation_fix_180() {
    let a = Vec3f32::new(rraw(1.0), rraw(0.0), rraw(0.0));
    let b = Vec3f32::new(rraw(-1.0), rraw(0.0), rraw(0.0));
    let rotor = Rot3Df32::new_exact(a, b);

    let mut v = Vec3f32::new(rraw(1.0), rraw(0.0), rraw(0.0));
    rotor.rotate_vec(&mut v);
    assert!((-1.0001..-0.9999).contains(&rflt(v.x)));
    assert!((-0.0001..0.0001).contains(&rflt(v.y)));
    assert!((-0.0001..0.0001).contains(&rflt(v.z)));
}

#[test]
fn test_append() {
    let a = Vec3f32::new(rraw(1.0), rraw(0.0), rraw(0.0));
    let mut b = Vec3f32::new(rraw(0.0), rraw(1.0), rraw(0.0));
    b.normalize();
    let mut rotor = Rot3Df32::new(a, b);
    rotor.append(rotor);
    let mut v = Vec3f32::new(rraw(1.0), rraw(0.0), rraw(0.0));
    rotor.rotate_vec(&mut v);
    assert!((0.99999..1.00001).contains(&rflt(v.x)));
    assert!((-0.00001..0.00001).contains(&rflt(v.y)));
    assert!((-0.00001..0.00001).contains(&rflt(v.z)));
}

#[test]
fn test_identity_rotor_is_noop() {
    let r = Rot3Df32::identity();
    let v = Vec3f32::new(rraw(0.25), rraw(-2.0), rraw(3.5));
    let w = r.rotated_vec(v);
    assert_eq!((w.x, w.y, w.z), (v.x, v.y, v.z));
}

#[test]
fn test_same_vector_rotor_is_identity() {
    let a = Vec3f32::new(0, SCALE, 0);
    let rotor = Rot3Df32::new(a, a);
    assert_eq!((rotor.s, rotor.xy, rotor.yz, rotor.zx), (SCALE, 0, 0, 0));
    let v = Vec3f32::new(rraw(0.5), rraw(1.5), rraw(-0.75));
    let w = rotor.rotated_vec(v);
    assert_eq!((w.x, w.y, w.z), (v.x, v.y, v.z));
}

#[test]
fn test_inverted_round_trip() {
    let a = Vec3f32::new(rraw(1.0), rraw(0.0), rraw(0.0));
    let b = Vec3f32::new(rraw(0.0), rraw(1.0), rraw(0.0));
    let rotor = Rot3Df32::new_exact(a, b);
    let v = Vec3f32::new(rraw(0.3), rraw(0.7), rraw(-0.2));
    let w = rotor.rotated_vec(v);
    let u = rotor.inverted().rotated_vec(w);
    assert!((rflt(u.x) - 0.3).abs() < 0.0005);
    assert!((rflt(u.y) - 0.7).abs() < 0.0005);
    assert!((rflt(u.z) + 0.2).abs() < 0.0005);
}

#[test]
fn test_invert_negates_bivector() {
    let r = Rot3Df32 { s: 5, xy: 7, yz: -9, zx: 11 };
    let mut m = r;
    m.invert();
    assert_eq!((m.s, m.xy, m.yz, m.zx), (5, -7, 9, -11));
    let i = r.inverted();
    assert_eq!((i.s, i.xy, i.yz, i.zx), (5, -7, 9, -11));
}

#[test]
fn test_appended_matches_append() {
    let a = Vec3f32::new(rraw(1.0), rraw(0.0), rraw(0.0));
    let b = Vec3f32::new(rraw(0.0), rraw(0.0), rraw(1.0));
    let r = Rot3Df32::new_exact(a, b);
    let by_value = r.appended(r);
    let mut in_place = r;
    in_place.append(r);
    assert_eq!(
        (by_value.s, by_value.xy, by_value.yz, by_value.zx),
        (in_place.s, in_place.xy, in_place.yz, in_place.zx),
    );
}

#[test]
fn test_normalize_rotor() {
    let mut r = Rot3Df32 { s: 2 * SCALE, xy: 0, yz: 0, zx: 0 };
    r.normalize();
    assert_eq!((r.s, r.xy, r.yz, r.zx), (SCALE, 0, 0, 0));

    let mut q = Rot3Df32 { s: 3 * SCALE, xy: 4 * SCALE, yz: 0, zx: 0 };
    q.normalize();
    assert!((rflt(q.s) - 0.6).abs() < 0.0001);
    assert!((rflt(q.xy) - 0.8).abs() < 0.0001);
}

#[test]
fn test_rotation_mat_matches_rotate_vec() {
    let a = Vec3f32::new(rraw(1.0), rraw(0.0), rraw(0.0));
    let b = Vec3f32::new(rraw(0.0), rraw(1.0), rraw(0.0));
    let rotor = Rot3Df32::new_exact(a, b);
    let m = rotor.rotation_mat();
    let v = Vec3f32::new(rraw(0.5), rraw(0.25), rraw(-1.0));
    let direct = rotor.rotated_vec(v);
    let mut via_mat = [0i64; 3];
    for row in 0..3 {
        let sum = (m.values[row * 4] as i128) * (v.x as i128)
            + (m.values[row * 4 + 1] as i128) * (v.y as i128)
            + (m.values[row * 4 + 2] as i128) * (v.z as i128);
        via_mat[row] = (sum / SCALE as i128) as i64;
    }
    assert!((rflt(via_mat[0]) - rflt(direct.x)).abs() < 0.0001);
    assert!((rflt(via_mat[1]) - rflt(direct.y)).abs() < 0.0001);
    assert!((rflt(via_mat[2]) - rflt(direct.z)).abs() < 0.0001);
}

#[test]
fn test_rotation_mat_homogeneous_border() {
    let rotor = Rot3Df32::identity();
    let m = rotor.rotation_mat();
    assert_eq!(m.values[3], 0);
    assert_eq!(m.values[7], 0);
    assert_eq!(m.values[11], 0);
    assert_eq!(m.values[12], 0);
    assert_eq!(m.values[13], 0);
    assert_eq!(m.values[14], 0);
    assert_eq!(m.values[15], SCALE);
    assert_eq!(m.values[0], SCALE);
    assert_eq!(m.values[5], SCALE);
    assert_eq!(m.values[10], SCALE);
}
