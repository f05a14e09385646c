use rotor3d::fixed::SCALE;
use rotor3d::mat4::Mat4f32;

fn mraw(vals: [i64; 16]) -> Mat4f32 {
    let mut values = [0i64; 16];
    let mut i = 0;
    while i < 16 {
        values[i] = vals[i] * SCALE;
        i += 1;
    }
    Mat4f32 { values }
}

fn check_mat_equal(a: &Mat4f32, b: &Mat4f32) -> bool {
    for i in 0..16 {
        if a.values[i] != b.values[i] {
            return false;
        }
    }
    true
}

#[test]
fn mat_multiplication() {
    let left = mraw([1, 2, 3, 4, 5, 6, 7, 8, 9, 10, 11, 12, 13, 14, 15, 16]);
    let right = mraw([17, 18, 19, 20, 21, 22, 23, 24, 25, 26, 27, 28, 29, 30, 31, 32]);
    let correct_result = mraw(
        [250, 260, 270, 280, 618, 644, 670, 696, 986, 1028, 1070, 1112, 1354, 1412, 1470, 1528],
    );
    assert!(check_mat_equal(&left.mul(&right), &correct_result));
}

#[test]
fn test_identity_entries() {
    let m = Mat4f32::identity();
    for r in 0..4 {
        for c in 0..4 {
            let expected = if r == c { SCALE } else { 0 };
            assert_eq!(m.values[r * 4 + c], expected);
        }
    }
}

#[test]
fn test_zero_entries() {
    let m = Mat4f32::zero();
    for i in 0..16 {
        assert_eq!(m.values[i], 0);
    }
}

#[test]
fn test_identity_multiplication() {
    let a = mraw([1, 2, 3, 4, 5, 6, 7, 8, 9, 10, 11, 12, 13, 14, 15, 16]);
    let left = Mat4f32::identity().mul(&a);
    let right = a.mul(&Mat4f32::identity());
    assert!(check_mat_equal(&left, &a));
    assert!(check_mat_equal(&right, &a));
}

#[test]
fn test_multiplication_not_commutative() {
    let a = mraw([1, 2, 3, 4, 5, 6, 7, 8, 9, 10, 11, 12, 13, 14, 15, 16]);
    let b = mraw([17, 18, 19, 20, 21, 22, 23, 24, 25, 26, 27, 28, 29, 30, 31, 32]);
    assert!(!check_mat_equal(&a.mul(&b), &b.mul(&a)));
}

#[test]
fn test_get_column_major() {
    let a = mraw([1, 2, 3, 4, 5, 6, 7, 8, 9, 10, 11, 12, 13, 14, 15, 16]);
    let cols = a.get_column_major();
    for r in 0..4 {
        for c in 0..4 {
            assert_eq!(cols[c][r], a.values[r * 4 + c]);
        }
    }
}
