//! A rotor: the even-grade element of 3D geometric algebra that
//! represents a rotation, built from a scalar and three bivector
//! components.

use vstd::prelude::*;
use crate::fixed::{
    SCALE, SCALE_SQ, VAL_MAX, ROT_MAX, lemma_abs_mul, lemma_sqrt_floor_below,
    lemma_sqrt_floor_pos, lemma_tdiv_abs_le, lemma_tdiv_bound, scale_down, scale_down2, isqrt128,
    tdiv128_any,
};
use crate::algebra::{
    Vec3Model, RotorModel, identity_m, rev_m, rotate_fx, append_fx, rotor_from_fx, rotor_exact_fx,
    rotor_normalized_fx, norm2_m, in_rot_range, in_val_range, is_zero_rotor, is_unit_vec_fx,
    is_zero_vec, vadd, odd_of, sand_m, unit_x, unit_y, unit_z, ANTI_EPS, lemma_norm2_self,
    lemma_unit_comp_bound, lemma_sum_zero_antiparallel, lemma_normalized_bounds,
    lemma_perp_raw_nonzero, perp_raw, antiparallel_fx,
};
use crate::vec3::Vec3f32;
use crate::mat4::Mat4f32;

verus! {

/// A rotor with scalar part `s` and bivector parts `xy`, `yz`, `zx`,
/// standing for `s + xy e12 + yz e23 + zx e31`.  Components are raw
/// fixed-point values; geometric use assumes a unit rotor.
#[derive(Debug, Clone, Copy, PartialEq, Eq, Structural)]
pub struct Rot3Df32 {
    pub s: i64,
    pub xy: i64,
    pub yz: i64,
    pub zx: i64,
}

impl View for Rot3Df32 {
    type V = RotorModel;

    open spec fn view(&self) -> RotorModel {
        RotorModel { s: self.s as int, xy: self.xy as int, yz: self.yz as int, zx: self.zx as int }
    }
}

impl Rot3Df32 {
    /// The identity rotor: no rotation.
    pub fn identity() -> (r: Self)
        ensures
            r@ == identity_m(),
            in_rot_range(r@),
    {
        Rot3Df32 { s: SCALE, xy: 0, yz: 0, zx: 0 }
    }

    /// The rotor `b * a` built from two vectors: for unit `a` and `b` it
    /// rotates by twice the angle between them, in the plane they span.
    /// Callers must hand in unit vectors for the rotor to be a rotation;
    /// the product itself is computed, and pinned, for any inputs in
    /// range.
    pub fn new(a: Vec3f32, b: Vec3f32) -> (r: Self)
        requires
            in_val_range(a@),
            in_val_range(b@),
        ensures
            r@ == rotor_from_fx(a@, b@),
            is_unit_vec_fx(a@) && is_unit_vec_fx(b@) ==> in_rot_range(r@),
    {
        let ax = a.x as i128;
        let ay = a.y as i128;
        let az = a.z as i128;
        let bx = b.x as i128;
        let by = b.y as i128;
        let bz = b.z as i128;
        proof {
            lemma_abs_mul(b.x as int, a.x as int, VAL_MAX as int, VAL_MAX as int);
            lemma_abs_mul(b.y as int, a.y as int, VAL_MAX as int, VAL_MAX as int);
            lemma_abs_mul(b.z as int, a.z as int, VAL_MAX as int, VAL_MAX as int);
            lemma_abs_mul(b.x as int, a.y as int, VAL_MAX as int, VAL_MAX as int);
            lemma_abs_mul(b.y as int, a.x as int, VAL_MAX as int, VAL_MAX as int);
            lemma_abs_mul(b.y as int, a.z as int, VAL_MAX as int, VAL_MAX as int);
            lemma_abs_mul(b.z as int, a.y as int, VAL_MAX as int, VAL_MAX as int);
            lemma_abs_mul(b.z as int, a.x as int, VAL_MAX as int, VAL_MAX as int);
            lemma_abs_mul(b.x as int, a.z as int, VAL_MAX as int, VAL_MAX as int);
        }
        let ns: i128 = bx * ax + by * ay + bz * az;
        let nxy: i128 = bx * ay - by * ax;
        let nyz: i128 = by * az - bz * ay;
        let nzx: i128 = bz * ax - bx * az;
        let qs = scale_down(ns);
        let qxy = scale_down(nxy);
        let qyz = scale_down(nyz);
        let qzx = scale_down(nzx);
        proof {
            lemma_tdiv_bound(ns as int, SCALE as int, 0x3000000000000000);
            lemma_tdiv_bound(nxy as int, SCALE as int, 0x2000000000000000);
            lemma_tdiv_bound(nyz as int, SCALE as int, 0x2000000000000000);
            lemma_tdiv_bound(nzx as int, SCALE as int, 0x2000000000000000);
            if is_unit_vec_fx(a@) && is_unit_vec_fx(b@) {
                lemma_unit_comp_bound(a@);
                lemma_unit_comp_bound(b@);
                lemma_abs_mul(b.x as int, a.x as int, 2097152, 2097152);
                lemma_abs_mul(b.y as int, a.y as int, 2097152, 2097152);
                lemma_abs_mul(b.z as int, a.z as int, 2097152, 2097152);
                lemma_abs_mul(b.x as int, a.y as int, 2097152, 2097152);
                lemma_abs_mul(b.y as int, a.x as int, 2097152, 2097152);
                lemma_abs_mul(b.y as int, a.z as int, 2097152, 2097152);
                lemma_abs_mul(b.z as int, a.y as int, 2097152, 2097152);
                lemma_abs_mul(b.z as int, a.x as int, 2097152, 2097152);
                lemma_abs_mul(b.x as int, a.z as int, 2097152, 2097152);
                lemma_tdiv_bound(ns as int, SCALE as int, 0xc00000);
                lemma_tdiv_bound(nxy as int, SCALE as int, 0x800000);
                lemma_tdiv_bound(nyz as int, SCALE as int, 0x800000);
                lemma_tdiv_bound(nzx as int, SCALE as int, 0x800000);
            }
        }
        Rot3Df32 { s: qs as i64, xy: qxy as i64, yz: qyz as i64, zx: qzx as i64 }
    }

    /// The rotor that rotates by the exact angle between two unit
    /// vectors: `new` applied to `a` and the normalized bisector, or to a
    /// perpendicular of `a` when the inputs count as antiparallel (where
    /// the bisector would vanish, and a half turn is wanted).
    pub fn new_exact(a: Vec3f32, b: Vec3f32) -> (r: Self)
        requires
            is_unit_vec_fx(a@),
            is_unit_vec_fx(b@),
        ensures
            r@ == rotor_exact_fx(a@, b@),
    {
        proof {
            lemma_unit_comp_bound(a@);
            lemma_unit_comp_bound(b@);
        }
        let d = a.dot(b);
        let b2 = if -SCALE - ANTI_EPS <= d && d <= -SCALE + ANTI_EPS {
            proof {
                lemma_perp_raw_nonzero(a@);
                lemma_normalized_bounds(perp_raw(a@));
            }
            a.perpendicular()
        } else {
            proof {
                if is_zero_vec(vadd(a@, b@)) {
                    lemma_sum_zero_antiparallel(a@, b@);
                }
                lemma_normalized_bounds(vadd(a@, b@));
            }
            let sum = a.add(b);
            sum.normalized()
        };
        Self::new(a, b2)
    }

    /// The reverse rotor: the bivector part negated, undoing this
    /// rotor's rotation.
    pub fn inverted(&self) -> (r: Self)
        requires
            self.xy != i64::MIN,
            self.yz != i64::MIN,
            self.zx != i64::MIN,
        ensures
            r@ == rev_m(self@),
    {
        let mut result = *self;
        result.invert();
        result
    }

    /// Reverses this rotor in place.
    pub fn invert(&mut self)
        requires
            old(self).xy != i64::MIN,
            old(self).yz != i64::MIN,
            old(self).zx != i64::MIN,
        ensures
            final(self)@ == rev_m(old(self)@),
    {
        self.xy = -self.xy;
        self.yz = -self.yz;
        self.zx = -self.zx;
    }

    /// The vector `v` rotated by this rotor: the sandwich product
    /// `R v rev(R)`, scaled back with one truncation per component.
    pub fn rotated_vec(&self, v: Vec3f32) -> (r: Vec3f32)
        requires
            in_rot_range(self@),
            in_val_range(v@),
        ensures
            r@ == rotate_fx(self@, v@),
    {
        let mut out = v;
        self.rotate_vec(&mut out);
        out
    }

    /// Rotates `v` in place by the sandwich product `R v rev(R)`.
    pub fn rotate_vec(&self, v: &mut Vec3f32)
        requires
            in_rot_range(self@),
            in_val_range(old(v)@),
        ensures
            final(v)@ == rotate_fx(self@, old(v)@),
    {
        let s = self.s as i128;
        let xy = self.xy as i128;
        let yz = self.yz as i128;
        let zx = self.zx as i128;
        let vx = v.x as i128;
        let vy = v.y as i128;
        let vz = v.z as i128;
        proof {
            lemma_abs_mul(self.s as int, old(v)@.x, ROT_MAX as int, VAL_MAX as int);
            lemma_abs_mul(self.s as int, old(v)@.y, ROT_MAX as int, VAL_MAX as int);
            lemma_abs_mul(self.s as int, old(v)@.z, ROT_MAX as int, VAL_MAX as int);
            lemma_abs_mul(self.xy as int, old(v)@.x, ROT_MAX as int, VAL_MAX as int);
            lemma_abs_mul(self.xy as int, old(v)@.y, ROT_MAX as int, VAL_MAX as int);
            lemma_abs_mul(self.xy as int, old(v)@.z, ROT_MAX as int, VAL_MAX as int);
            lemma_abs_mul(self.yz as int, old(v)@.x, ROT_MAX as int, VAL_MAX as int);
            lemma_abs_mul(self.yz as int, old(v)@.y, ROT_MAX as int, VAL_MAX as int);
            lemma_abs_mul(self.yz as int, old(v)@.z, ROT_MAX as int, VAL_MAX as int);
            lemma_abs_mul(self.zx as int, old(v)@.x, ROT_MAX as int, VAL_MAX as int);
            lemma_abs_mul(self.zx as int, old(v)@.y, ROT_MAX as int, VAL_MAX as int);
            lemma_abs_mul(self.zx as int, old(v)@.z, ROT_MAX as int, VAL_MAX as int);
        }
        let tx: i128 = s * vx + xy * vy - zx * vz;
        let ty: i128 = s * vy - xy * vx + yz * vz;
        let tz: i128 = s * vz - yz * vy + zx * vx;
        let txyz: i128 = xy * vz + yz * vx + zx * vy;
        let ms: i128 = s;
        let mxy: i128 = -xy;
        let myz: i128 = -yz;
        let mzx: i128 = -zx;
        proof {
            lemma_abs_mul(tx as int, ms as int, 0x30000000000000000, ROT_MAX as int);
            lemma_abs_mul(tx as int, mxy as int, 0x30000000000000000, ROT_MAX as int);
            lemma_abs_mul(tx as int, mzx as int, 0x30000000000000000, ROT_MAX as int);
            lemma_abs_mul(ty as int, ms as int, 0x30000000000000000, ROT_MAX as int);
            lemma_abs_mul(ty as int, mxy as int, 0x30000000000000000, ROT_MAX as int);
            lemma_abs_mul(ty as int, myz as int, 0x30000000000000000, ROT_MAX as int);
            lemma_abs_mul(tz as int, ms as int, 0x30000000000000000, ROT_MAX as int);
            lemma_abs_mul(tz as int, myz as int, 0x30000000000000000, ROT_MAX as int);
            lemma_abs_mul(tz as int, mzx as int, 0x30000000000000000, ROT_MAX as int);
            lemma_abs_mul(txyz as int, mxy as int, 0x30000000000000000, ROT_MAX as int);
            lemma_abs_mul(txyz as int, myz as int, 0x30000000000000000, ROT_MAX as int);
            lemma_abs_mul(txyz as int, mzx as int, 0x30000000000000000, ROT_MAX as int);
        }
        let ox: i128 = tx * ms - ty * mxy + tz * mzx - txyz * myz;
        let oy: i128 = ty * ms + tx * mxy - tz * myz - txyz * mzx;
        let oz: i128 = tz * ms + ty * myz - tx * mzx - txyz * mxy;
        let qx = scale_down2(ox);
        let qy = scale_down2(oy);
        let qz = scale_down2(oz);
        proof {
            lemma_tdiv_bound(ox as int, SCALE_SQ as int, 0xc000000000000);
            lemma_tdiv_bound(oy as int, SCALE_SQ as int, 0xc000000000000);
            lemma_tdiv_bound(oz as int, SCALE_SQ as int, 0xc000000000000);
        }
        v.x = qx as i64;
        v.y = qy as i64;
        v.z = qz as i64;
    }

    /// The composition of this rotor with `r`: the geometric product
    /// `self * r`, scaled back with one truncation per component.
    pub fn appended(&self, r: Rot3Df32) -> (out: Self)
        requires
            in_rot_range(self@),
            in_rot_range(r@),
        ensures
            out@ == append_fx(self@, r@),
    {
        let mut result = *self;
        result.append(r);
        result
    }

    /// Composes `r` onto this rotor in place, via the geometric product
    /// of the two even elements.
    pub fn append(&mut self, r: Rot3Df32)
        requires
            in_rot_range(old(self)@),
            in_rot_range(r@),
        ensures
            final(self)@ == append_fx(old(self)@, r@),
    {
        let s = self.s as i128;
        let xy = self.xy as i128;
        let yz = self.yz as i128;
        let zx = self.zx as i128;
        let rs = r.s as i128;
        let rxy = r.xy as i128;
        let ryz = r.yz as i128;
        let rzx = r.zx as i128;
        proof {
            lemma_abs_mul(old(self)@.s, r@.s, ROT_MAX as int, ROT_MAX as int);
            lemma_abs_mul(old(self)@.s, r@.xy, ROT_MAX as int, ROT_MAX as int);
            lemma_abs_mul(old(self)@.s, r@.yz, ROT_MAX as int, ROT_MAX as int);
            lemma_abs_mul(old(self)@.s, r@.zx, ROT_MAX as int, ROT_MAX as int);
            lemma_abs_mul(old(self)@.xy, r@.s, ROT_MAX as int, ROT_MAX as int);
            lemma_abs_mul(old(self)@.xy, r@.xy, ROT_MAX as int, ROT_MAX as int);
            lemma_abs_mul(old(self)@.xy, r@.yz, ROT_MAX as int, ROT_MAX as int);
            lemma_abs_mul(old(self)@.xy, r@.zx, ROT_MAX as int, ROT_MAX as int);
            lemma_abs_mul(old(self)@.yz, r@.s, ROT_MAX as int, ROT_MAX as int);
            lemma_abs_mul(old(self)@.yz, r@.xy, ROT_MAX as int, ROT_MAX as int);
            lemma_abs_mul(old(self)@.yz, r@.yz, ROT_MAX as int, ROT_MAX as int);
            lemma_abs_mul(old(self)@.yz, r@.zx, ROT_MAX as int, ROT_MAX as int);
            lemma_abs_mul(old(self)@.zx, r@.s, ROT_MAX as int, ROT_MAX as int);
            lemma_abs_mul(old(self)@.zx, r@.xy, ROT_MAX as int, ROT_MAX as int);
            lemma_abs_mul(old(self)@.zx, r@.yz, ROT_MAX as int, ROT_MAX as int);
            lemma_abs_mul(old(self)@.zx, r@.zx, ROT_MAX as int, ROT_MAX as int);
        }
        let ns: i128 = s * rs - xy * rxy - yz * ryz - zx * rzx;
        let nxy: i128 = s * rxy + xy * rs - yz * rzx + zx * ryz;
        let nyz: i128 = s * ryz + yz * rs + xy * rzx - zx * rxy;
        let nzx: i128 = s * rzx + zx * rs - xy * ryz + yz * rxy;
        let qs = scale_down(ns);
        let qxy = scale_down(nxy);
        let qyz = scale_down(nyz);
        let qzx = scale_down(nzx);
        proof {
            lemma_tdiv_bound(ns as int, SCALE as int, 0x40000000);
            lemma_tdiv_bound(nxy as int, SCALE as int, 0x40000000);
            lemma_tdiv_bound(nyz as int, SCALE as int, 0x40000000);
            lemma_tdiv_bound(nzx as int, SCALE as int, 0x40000000);
        }
        self.s = qs as i64;
        self.xy = qxy as i64;
        self.yz = qyz as i64;
        self.zx = qzx as i64;
    }

    /// Restores the unit-rotor invariant: every component is divided by
    /// the rotor's norm with truncation.  The rotor must not be zero.
    pub fn normalize(&mut self)
        requires
            -VAL_MAX <= old(self).s <= VAL_MAX,
            -VAL_MAX <= old(self).xy <= VAL_MAX,
            -VAL_MAX <= old(self).yz <= VAL_MAX,
            -VAL_MAX <= old(self).zx <= VAL_MAX,
            !is_zero_rotor(old(self)@),
        ensures
            final(self)@ == rotor_normalized_fx(old(self)@),
    {
        proof {
            lemma_abs_mul(old(self)@.s, old(self)@.s, VAL_MAX as int, VAL_MAX as int);
            lemma_abs_mul(old(self)@.xy, old(self)@.xy, VAL_MAX as int, VAL_MAX as int);
            lemma_abs_mul(old(self)@.yz, old(self)@.yz, VAL_MAX as int, VAL_MAX as int);
            lemma_abs_mul(old(self)@.zx, old(self)@.zx, VAL_MAX as int, VAL_MAX as int);
            lemma_norm2_self(old(self)@);
        }
        let s = self.s as i128;
        let xy = self.xy as i128;
        let yz = self.yz as i128;
        let zx = self.zx as i128;
        let n: i128 = s * s + xy * xy + yz * yz + zx * zx;
        let m = isqrt128(n as u128);
        proof {
            lemma_sqrt_floor_below(n as int, 0x40000000000);
            lemma_sqrt_floor_pos(n as int);
            lemma_abs_mul(old(self)@.s, SCALE as int, VAL_MAX as int, SCALE as int);
            lemma_abs_mul(old(self)@.xy, SCALE as int, VAL_MAX as int, SCALE as int);
            lemma_abs_mul(old(self)@.yz, SCALE as int, VAL_MAX as int, SCALE as int);
            lemma_abs_mul(old(self)@.zx, SCALE as int, VAL_MAX as int, SCALE as int);
            lemma_tdiv_abs_le(old(self)@.s * (SCALE as int), m as int);
            lemma_tdiv_abs_le(old(self)@.xy * (SCALE as int), m as int);
            lemma_tdiv_abs_le(old(self)@.yz * (SCALE as int), m as int);
            lemma_tdiv_abs_le(old(self)@.zx * (SCALE as int), m as int);
        }
        let mi = m as i128;
        let qs = tdiv128_any(s * (SCALE as i128), mi);
        let qxy = tdiv128_any(xy * (SCALE as i128), mi);
        let qyz = tdiv128_any(yz * (SCALE as i128), mi);
        let qzx = tdiv128_any(zx * (SCALE as i128), mi);
        self.s = qs as i64;
        self.xy = qxy as i64;
        self.yz = qyz as i64;
        self.zx = qzx as i64;
    }

    /// The homogeneous 4x4 rotation matrix equivalent to this rotor: the
    /// rotated basis vectors become the upper-left columns, and the last
    /// row and column are the homogeneous identity.
    pub fn rotation_mat(&self) -> (m: Mat4f32)
        requires
            in_rot_range(self@),
        ensures
            m@[0] == rotate_fx(self@, unit_x()).x,
            m@[1] == rotate_fx(self@, unit_y()).x,
            m@[2] == rotate_fx(self@, unit_z()).x,
            m@[3] == 0,
            m@[4] == rotate_fx(self@, unit_x()).y,
            m@[5] == rotate_fx(self@, unit_y()).y,
            m@[6] == rotate_fx(self@, unit_z()).y,
            m@[7] == 0,
            m@[8] == rotate_fx(self@, unit_x()).z,
            m@[9] == rotate_fx(self@, unit_y()).z,
            m@[10] == rotate_fx(self@, unit_z()).z,
            m@[11] == 0,
            m@[12] == 0,
            m@[13] == 0,
            m@[14] == 0,
            m@[15] == SCALE,
    {
        let new_x = self.rotated_vec(Vec3f32 { x: SCALE, y: 0, z: 0 });
        let new_y = self.rotated_vec(Vec3f32 { x: 0, y: SCALE, z: 0 });
        let new_z = self.rotated_vec(Vec3f32 { x: 0, y: 0, z: SCALE });
        Mat4f32 {
            values: [
                new_x.x,
                new_y.x,
                new_z.x,
                0,
                new_x.y,
                new_y.y,
                new_z.y,
                0,
                new_x.z,
                new_y.z,
                new_z.z,
                0,
                0,
                0,
                0,
                SCALE,
            ],
        }
    }
}

} // verus!
