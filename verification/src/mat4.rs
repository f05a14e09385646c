//! A 4x4 matrix over fixed-point scalars, stored row-major.

use vstd::prelude::*;
use crate::fixed::{SCALE, VAL_MAX, fx, lemma_abs_mul, lemma_tdiv_bound, scale_down};

verus! {

/// A 4x4 matrix in row-major order: entry `(r, c)` is `values[r * 4 + c]`.
/// Each entry is a raw fixed-point value standing for `entry / SCALE`.
pub struct Mat4f32 {
    pub values: [i64; 16],
}

impl View for Mat4f32 {
    type V = Seq<int>;

    open spec fn view(&self) -> Seq<int> {
        Seq::new(16, |i: int| self.values@[i] as int)
    }
}

/// All sixteen entries within the bound accepted by multiplication.
pub open spec fn in_mat_range(m: Seq<int>) -> bool {
    forall|i: int| 0 <= i < 16 ==> -(VAL_MAX as int) <= #[trigger] m[i] <= VAL_MAX as int
}

/// Entry `(r, c)` of a matrix product: the row-by-column inner product,
/// scaled back to a raw value with one truncation.
pub open spec fn mm_entry(a: Seq<int>, b: Seq<int>, r: int, c: int) -> int {
    fx(
        a[4 * r] * b[c] + a[4 * r + 1] * b[4 + c] + a[4 * r + 2] * b[8 + c] + a[4 * r + 3] * b[12
            + c],
    )
}

impl Mat4f32 {
    /// The all-zero matrix.
    pub fn zero() -> (m: Mat4f32)
        ensures
            forall|i: int| 0 <= i < 16 ==> m@[i] == 0,
    {
        Mat4f32 { values: [0, 0, 0, 0, 0, 0, 0, 0, 0, 0, 0, 0, 0, 0, 0, 0] }
    }

    /// The identity matrix: raw one on the diagonal.
    pub fn identity() -> (m: Mat4f32)
        ensures
            forall|i: int|
                0 <= i < 16 ==> m@[i] == if i == 0 || i == 5 || i == 10 || i == 15 {
                    SCALE as int
                } else {
                    0
                },
    {
        Mat4f32 {
            values: [
                SCALE,
                0,
                0,
                0,
                0,
                SCALE,
                0,
                0,
                0,
                0,
                SCALE,
                0,
                0,
                0,
                0,
                SCALE,
            ],
        }
    }

    /// The transpose as an array of columns, for column-major consumers.
    pub fn get_column_major(&self) -> (t: [[i64; 4]; 4])
        ensures
            forall|c: int, r: int|
                0 <= c < 4 && 0 <= r < 4 ==> (#[trigger] t@[c]@[r]) as int == self@[4 * r + c],
    {
        [
            [self.values[0], self.values[4], self.values[8], self.values[12]],
            [self.values[1], self.values[5], self.values[9], self.values[13]],
            [self.values[2], self.values[6], self.values[10], self.values[14]],
            [self.values[3], self.values[7], self.values[11], self.values[15]],
        ]
    }

    /// One entry of the product of two matrices.
    fn mul_entry(&self, rhs: &Mat4f32, r: usize, c: usize) -> (e: i64)
        requires
            r < 4,
            c < 4,
            in_mat_range(self@),
            in_mat_range(rhs@),
        ensures
            e as int == mm_entry(self@, rhs@, r as int, c as int),
    {
        let a0 = self.values[4 * r];
        let a1 = self.values[4 * r + 1];
        let a2 = self.values[4 * r + 2];
        let a3 = self.values[4 * r + 3];
        let b0 = rhs.values[c];
        let b1 = rhs.values[4 + c];
        let b2 = rhs.values[8 + c];
        let b3 = rhs.values[12 + c];
        proof {
            assert(a0 as int == self@[4 * (r as int)]);
            assert(a1 as int == self@[4 * (r as int) + 1]);
            assert(a2 as int == self@[4 * (r as int) + 2]);
            assert(a3 as int == self@[4 * (r as int) + 3]);
            assert(b0 as int == rhs@[c as int]);
            assert(b1 as int == rhs@[4 + c as int]);
            assert(b2 as int == rhs@[8 + c as int]);
            assert(b3 as int == rhs@[12 + c as int]);
            lemma_abs_mul(a0 as int, b0 as int, VAL_MAX as int, VAL_MAX as int);
            lemma_abs_mul(a1 as int, b1 as int, VAL_MAX as int, VAL_MAX as int);
            lemma_abs_mul(a2 as int, b2 as int, VAL_MAX as int, VAL_MAX as int);
            lemma_abs_mul(a3 as int, b3 as int, VAL_MAX as int, VAL_MAX as int);
        }
        let n: i128 = (a0 as i128) * (b0 as i128) + (a1 as i128) * (b1 as i128) + (a2 as i128) * (
        b2 as i128) + (a3 as i128) * (b3 as i128);
        let q = scale_down(n);
        proof {
            lemma_tdiv_bound(n as int, SCALE as int, 0x4000000000000000);
        }
        q as i64
    }

    /// The matrix product `self * rhs`: the standard row-by-column inner
    /// products, each scaled back with one truncation.
    pub fn mul(&self, rhs: &Mat4f32) -> (m: Mat4f32)
        requires
            in_mat_range(self@),
            in_mat_range(rhs@),
        ensures
            forall|r: int, c: int|
                0 <= r < 4 && 0 <= c < 4 ==> #[trigger] m@[4 * r + c] == mm_entry(
                    self@,
                    rhs@,
                    r,
                    c,
                ),
    {
        Mat4f32 {
            values: [
                self.mul_entry(rhs, 0, 0),
                self.mul_entry(rhs, 0, 1),
                self.mul_entry(rhs, 0, 2),
                self.mul_entry(rhs, 0, 3),
                self.mul_entry(rhs, 1, 0),
                self.mul_entry(rhs, 1, 1),
                self.mul_entry(rhs, 1, 2),
                self.mul_entry(rhs, 1, 3),
                self.mul_entry(rhs, 2, 0),
                self.mul_entry(rhs, 2, 1),
                self.mul_entry(rhs, 2, 2),
                self.mul_entry(rhs, 2, 3),
                self.mul_entry(rhs, 3, 0),
                self.mul_entry(rhs, 3, 1),
                self.mul_entry(rhs, 3, 2),
                self.mul_entry(rhs, 3, 3),
            ],
        }
    }
}

} // verus!
