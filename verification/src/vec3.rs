//! A 3-component vector over fixed-point scalars.

use vstd::prelude::*;
use crate::fixed::{
    SCALE, VAL_MAX, lemma_abs_mul, lemma_sqrt_floor_below, lemma_sqrt_floor_pos,
    lemma_tdiv_abs_le, lemma_tdiv_bound, scale_down, isqrt128, tdiv128_any,
};
use crate::algebra::{
    Vec3Model, vdot, vadd, in_val_range, in_add_range, is_zero_vec, dot_fx, cross_fx, mag_fx,
    normalized_fx, perpendicular_fx, perp_raw, scale_fx, div_fx, lemma_vdot_self,
};

verus! {

/// A 3-component vector.  Each component is a raw fixed-point value
/// standing for `component / SCALE`.
#[derive(Debug, Clone, Copy)]
pub struct Vec3f32 {
    pub x: i64,
    pub y: i64,
    pub z: i64,
}

impl View for Vec3f32 {
    type V = Vec3Model;

    open spec fn view(&self) -> Vec3Model {
        Vec3Model { x: self.x as int, y: self.y as int, z: self.z as int }
    }
}

impl Vec3f32 {
    /// Builds a vector from raw components.
    pub fn new(x: i64, y: i64, z: i64) -> (v: Self)
        ensures
            v@ == (Vec3Model { x: x as int, y: y as int, z: z as int }),
    {
        Self { x, y, z }
    }

    /// The Euclidean norm, rounded down to the raw grid; zero exactly for
    /// the zero vector.
    pub fn magnitude(&self) -> (m: i64)
        requires
            in_val_range(self@),
        ensures
            m as int == mag_fx(self@),
            0 <= m,
    {
        proof {
            lemma_abs_mul(self.x as int, self.x as int, VAL_MAX as int, VAL_MAX as int);
            lemma_abs_mul(self.y as int, self.y as int, VAL_MAX as int, VAL_MAX as int);
            lemma_abs_mul(self.z as int, self.z as int, VAL_MAX as int, VAL_MAX as int);
            lemma_vdot_self(self@);
        }
        let n: i128 = (self.x as i128) * (self.x as i128) + (self.y as i128) * (self.y as i128)
            + (self.z as i128) * (self.z as i128);
        let r = isqrt128(n as u128);
        proof {
            lemma_sqrt_floor_below(n as int, 0x20000000000);
        }
        r as i64
    }

    /// The same vector scaled to unit length, each component divided by
    /// the magnitude with truncation.  The input must not be the zero
    /// vector.
    pub fn normalized(&self) -> (r: Self)
        requires
            in_val_range(self@),
            !is_zero_vec(self@),
        ensures
            r@ == normalized_fx(self@),
    {
        let m = self.magnitude();
        proof {
            lemma_vdot_self(self@);
            lemma_sqrt_floor_pos(vdot(self@, self@));
            lemma_abs_mul(self.x as int, SCALE as int, VAL_MAX as int, SCALE as int);
            lemma_abs_mul(self.y as int, SCALE as int, VAL_MAX as int, SCALE as int);
            lemma_abs_mul(self.z as int, SCALE as int, VAL_MAX as int, SCALE as int);
            lemma_tdiv_abs_le((self.x as int) * (SCALE as int), m as int);
            lemma_tdiv_abs_le((self.y as int) * (SCALE as int), m as int);
            lemma_tdiv_abs_le((self.z as int) * (SCALE as int), m as int);
        }
        let nx = tdiv128_any((self.x as i128) * (SCALE as i128), m as i128);
        let ny = tdiv128_any((self.y as i128) * (SCALE as i128), m as i128);
        let nz = tdiv128_any((self.z as i128) * (SCALE as i128), m as i128);
        Self { x: nx as i64, y: ny as i64, z: nz as i64 }
    }

    /// Scales this vector to unit length in place.
    pub fn normalize(&mut self)
        requires
            in_val_range(old(self)@),
            !is_zero_vec(old(self)@),
        ensures
            final(self)@ == normalized_fx(old(self)@),
    {
        let n = self.normalized();
        *self = n;
    }

    /// The dot product, scaled back to a raw value with one truncation.
    pub fn dot(&self, v: Self) -> (r: i64)
        requires
            in_val_range(self@),
            in_val_range(v@),
        ensures
            r as int == dot_fx(self@, v@),
    {
        proof {
            lemma_abs_mul(self.x as int, v.x as int, VAL_MAX as int, VAL_MAX as int);
            lemma_abs_mul(self.y as int, v.y as int, VAL_MAX as int, VAL_MAX as int);
            lemma_abs_mul(self.z as int, v.z as int, VAL_MAX as int, VAL_MAX as int);
        }
        let n: i128 = (self.x as i128) * (v.x as i128) + (self.y as i128) * (v.y as i128)
            + (self.z as i128) * (v.z as i128);
        let q = scale_down(n);
        proof {
            lemma_tdiv_bound(n as int, SCALE as int, 0x3000000000000000);
        }
        q as i64
    }

    /// The cross product, each component scaled back with one truncation.
    pub fn cross(&self, v: Self) -> (r: Vec3f32)
        requires
            in_val_range(self@),
            in_val_range(v@),
        ensures
            r@ == cross_fx(self@, v@),
    {
        proof {
            lemma_abs_mul(self.y as int, v.z as int, VAL_MAX as int, VAL_MAX as int);
            lemma_abs_mul(self.z as int, v.y as int, VAL_MAX as int, VAL_MAX as int);
            lemma_abs_mul(self.z as int, v.x as int, VAL_MAX as int, VAL_MAX as int);
            lemma_abs_mul(self.x as int, v.z as int, VAL_MAX as int, VAL_MAX as int);
            lemma_abs_mul(self.x as int, v.y as int, VAL_MAX as int, VAL_MAX as int);
            lemma_abs_mul(self.y as int, v.x as int, VAL_MAX as int, VAL_MAX as int);
        }
        let nx: i128 = (self.y as i128) * (v.z as i128) - (self.z as i128) * (v.y as i128);
        let ny: i128 = (self.z as i128) * (v.x as i128) - (self.x as i128) * (v.z as i128);
        let nz: i128 = (self.x as i128) * (v.y as i128) - (self.y as i128) * (v.x as i128);
        let qx = scale_down(nx);
        let qy = scale_down(ny);
        let qz = scale_down(nz);
        proof {
            lemma_tdiv_bound(nx as int, SCALE as int, 0x2000000000000000);
            lemma_tdiv_bound(ny as int, SCALE as int, 0x2000000000000000);
            lemma_tdiv_bound(nz as int, SCALE as int, 0x2000000000000000);
        }
        Vec3f32 { x: qx as i64, y: qy as i64, z: qz as i64 }
    }

    /// A unit vector orthogonal to this one: the component pick keeps the
    /// unnormalized dot product exactly zero, and the result is then
    /// normalized.  The input must not be the zero vector.
    pub fn perpendicular(&self) -> (r: Self)
        requires
            in_val_range(self@),
            !is_zero_vec(self@),
        ensures
            r@ == perpendicular_fx(self@),
            r@ == normalized_fx(perp_raw(self@)),
    {
        let w = if self.x != 0 {
            Vec3f32 { x: -self.y, y: self.x, z: 0 }
        } else if self.y != 0 {
            Vec3f32 { x: 0, y: -self.z, z: self.y }
        } else {
            Vec3f32 { x: self.z, y: 0, z: 0 }
        };
        w.normalized()
    }

    /// Componentwise sum, exact.
    pub fn add(self, rhs: Self) -> (r: Self)
        requires
            in_add_range(self@),
            in_add_range(rhs@),
        ensures
            r@ == vadd(self@, rhs@),
    {
        Self { x: self.x + rhs.x, y: self.y + rhs.y, z: self.z + rhs.z }
    }

    /// Componentwise scaling by a raw scalar, with one truncation per
    /// component.
    pub fn mul(self, rhs: i64) -> (r: Self)
        requires
            in_val_range(self@),
            -VAL_MAX <= rhs <= VAL_MAX,
        ensures
            r@ == scale_fx(rhs as int, self@),
    {
        proof {
            lemma_abs_mul(rhs as int, self.x as int, VAL_MAX as int, VAL_MAX as int);
            lemma_abs_mul(rhs as int, self.y as int, VAL_MAX as int, VAL_MAX as int);
            lemma_abs_mul(rhs as int, self.z as int, VAL_MAX as int, VAL_MAX as int);
        }
        let qx = scale_down((rhs as i128) * (self.x as i128));
        let qy = scale_down((rhs as i128) * (self.y as i128));
        let qz = scale_down((rhs as i128) * (self.z as i128));
        proof {
            lemma_tdiv_bound((rhs as int) * (self.x as int), SCALE as int, 0x1000000000000000);
            lemma_tdiv_bound((rhs as int) * (self.y as int), SCALE as int, 0x1000000000000000);
            lemma_tdiv_bound((rhs as int) * (self.z as int), SCALE as int, 0x1000000000000000);
        }
        Self { x: qx as i64, y: qy as i64, z: qz as i64 }
    }

    /// Componentwise division by a raw scalar, truncating toward zero.
    /// The divisor must not be zero.
    pub fn div(self, rhs: i64) -> (r: Self)
        requires
            in_val_range(self@),
            rhs != 0,
        ensures
            r@ == div_fx(self@, rhs as int),
    {
        proof {
            lemma_abs_mul(self.x as int, SCALE as int, VAL_MAX as int, SCALE as int);
            lemma_abs_mul(self.y as int, SCALE as int, VAL_MAX as int, SCALE as int);
            lemma_abs_mul(self.z as int, SCALE as int, VAL_MAX as int, SCALE as int);
            lemma_tdiv_abs_le((self.x as int) * (SCALE as int), rhs as int);
            lemma_tdiv_abs_le((self.y as int) * (SCALE as int), rhs as int);
            lemma_tdiv_abs_le((self.z as int) * (SCALE as int), rhs as int);
        }
        let qx = tdiv128_any((self.x as i128) * (SCALE as i128), rhs as i128);
        let qy = tdiv128_any((self.y as i128) * (SCALE as i128), rhs as i128);
        let qz = tdiv128_any((self.z as i128) * (SCALE as i128), rhs as i128);
        Self { x: qx as i64, y: qy as i64, z: qz as i64 }
    }
}

} // verus!
