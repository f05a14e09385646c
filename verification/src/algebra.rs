//! The exact integer model of 3D vectors and of the even subalgebra
//! (rotors) of 3D geometric algebra.
//!
//! Raw fixed-point components are viewed as unbounded integers here, and
//! every product is kept exact: the executable code rounds only when it
//! scales a finished product back down.  The algebraic laws in `laws` are
//! stated over these model operations.

use vstd::prelude::*;
use crate::fixed::{SCALE, SCALE_SQ, VAL_MAX, ROT_MAX, ADD_MAX, abs_val, tdiv, fx, fx2, sqrt_floor};

verus! {

/// The model of a vector: three exact integer components.
pub ghost struct Vec3Model {
    pub x: int,
    pub y: int,
    pub z: int,
}

/// The model of a rotor: a scalar and the three bivector components for
/// the xy, yz and zx coordinate planes.
pub ghost struct RotorModel {
    pub s: int,
    pub xy: int,
    pub yz: int,
    pub zx: int,
}

/// An odd-grade element: a vector plus a trivector component.  Products
/// of a rotor and a vector live here.
pub ghost struct OddModel {
    pub x: int,
    pub y: int,
    pub z: int,
    pub xyz: int,
}

/// The dot product, exact, at the scale of a product of two raws.
pub open spec fn vdot(a: Vec3Model, b: Vec3Model) -> int {
    a.x * b.x + a.y * b.y + a.z * b.z
}

/// The cross product, exact.
pub open spec fn vcross(a: Vec3Model, b: Vec3Model) -> Vec3Model {
    Vec3Model {
        x: a.y * b.z - a.z * b.y,
        y: a.z * b.x - a.x * b.z,
        z: a.x * b.y - a.y * b.x,
    }
}

/// Componentwise sum.
pub open spec fn vadd(a: Vec3Model, b: Vec3Model) -> Vec3Model {
    Vec3Model { x: a.x + b.x, y: a.y + b.y, z: a.z + b.z }
}

/// Componentwise scaling, exact.
pub open spec fn vscale(k: int, v: Vec3Model) -> Vec3Model {
    Vec3Model { x: k * v.x, y: k * v.y, z: k * v.z }
}

/// The zero vector.
pub open spec fn is_zero_vec(v: Vec3Model) -> bool {
    v.x == 0 && v.y == 0 && v.z == 0
}

/// A vector as an odd element with no trivector part.
pub open spec fn odd_of(v: Vec3Model) -> OddModel {
    OddModel { x: v.x, y: v.y, z: v.z, xyz: 0 }
}

/// Componentwise sum of odd elements.
pub open spec fn odd_add(a: OddModel, b: OddModel) -> OddModel {
    OddModel { x: a.x + b.x, y: a.y + b.y, z: a.z + b.z, xyz: a.xyz + b.xyz }
}

/// Componentwise scaling of an odd element, exact.
pub open spec fn odd_scale(k: int, o: OddModel) -> OddModel {
    OddModel { x: k * o.x, y: k * o.y, z: k * o.z, xyz: k * o.xyz }
}

/// The reverse of a rotor: the bivector part is negated.  For a unit
/// rotor the reverse is the inverse rotation.
pub open spec fn rev_m(r: RotorModel) -> RotorModel {
    RotorModel { s: r.s, xy: -r.xy, yz: -r.yz, zx: -r.zx }
}

/// The squared norm of a rotor, exact.
pub open spec fn norm2_m(r: RotorModel) -> int {
    r.s * r.s + r.xy * r.xy + r.yz * r.yz + r.zx * r.zx
}

/// A rotor with no bivector part.
pub open spec fn scalar_rotor(k: int) -> RotorModel {
    RotorModel { s: k, xy: 0, yz: 0, zx: 0 }
}

/// The geometric product of two rotors, exact.  `comp_m(p, q)` is the
/// rotor whose action is the action of `q` followed by the action of `p`.
pub open spec fn comp_m(p: RotorModel, q: RotorModel) -> RotorModel {
    RotorModel {
        s: p.s * q.s - p.xy * q.xy - p.yz * q.yz - p.zx * q.zx,
        xy: p.s * q.xy + p.xy * q.s - p.yz * q.zx + p.zx * q.yz,
        yz: p.s * q.yz + p.yz * q.s + p.xy * q.zx - p.zx * q.xy,
        zx: p.s * q.zx + p.zx * q.s - p.xy * q.yz + p.yz * q.xy,
    }
}

/// The scalar-plus-bivector part of the geometric product `b * a` of two
/// vectors: the rotor that rotates by twice the angle from `a` to `b`.
pub open spec fn geo_vv(a: Vec3Model, b: Vec3Model) -> RotorModel {
    RotorModel {
        s: b.x * a.x + b.y * a.y + b.z * a.z,
        xy: b.x * a.y - b.y * a.x,
        yz: b.y * a.z - b.z * a.y,
        zx: b.z * a.x - b.x * a.z,
    }
}

/// The geometric product of a rotor and an odd element, exact.
pub open spec fn ov_mul(r: RotorModel, o: OddModel) -> OddModel {
    OddModel {
        x: r.s * o.x + r.xy * o.y - r.zx * o.z - r.yz * o.xyz,
        y: r.s * o.y - r.xy * o.x + r.yz * o.z - r.zx * o.xyz,
        z: r.s * o.z - r.yz * o.y + r.zx * o.x - r.xy * o.xyz,
        xyz: r.s * o.xyz + r.xy * o.z + r.yz * o.x + r.zx * o.y,
    }
}

/// The geometric product of an odd element and a rotor, exact.
pub open spec fn od_mul(o: OddModel, r: RotorModel) -> OddModel {
    OddModel {
        x: o.x * r.s - o.y * r.xy + o.z * r.zx - o.xyz * r.yz,
        y: o.y * r.s + o.x * r.xy - o.z * r.yz - o.xyz * r.zx,
        z: o.z * r.s + o.y * r.yz - o.x * r.zx - o.xyz * r.xy,
        xyz: o.xyz * r.s + o.x * r.yz + o.y * r.zx + o.z * r.xy,
    }
}

/// The sandwich product `r o rev(r)`, exact: the action of the rotor `r`
/// on an odd element.
pub open spec fn sand_m(r: RotorModel, o: OddModel) -> OddModel {
    od_mul(ov_mul(r, o), rev_m(r))
}

/// The identity rotor in raw fixed-point form.
pub open spec fn identity_m() -> RotorModel {
    scalar_rotor(SCALE as int)
}

/// What rotating a vector computes: the exact sandwich product, scaled
/// back down by `SCALE * SCALE` with one truncating division per
/// component.
pub open spec fn rotate_fx(r: RotorModel, v: Vec3Model) -> Vec3Model {
    let o = sand_m(r, odd_of(v));
    Vec3Model { x: fx2(o.x), y: fx2(o.y), z: fx2(o.z) }
}

/// What composing two rotors computes: the exact geometric product,
/// scaled back down by `SCALE` with one truncating division per
/// component.
pub open spec fn append_fx(p: RotorModel, q: RotorModel) -> RotorModel {
    let c = comp_m(p, q);
    RotorModel { s: fx(c.s), xy: fx(c.xy), yz: fx(c.yz), zx: fx(c.zx) }
}

/// What building a rotor from two vectors computes: the exact product
/// `b * a`, scaled back down by `SCALE` per component.
pub open spec fn rotor_from_fx(a: Vec3Model, b: Vec3Model) -> RotorModel {
    let g = geo_vv(a, b);
    RotorModel { s: fx(g.s), xy: fx(g.xy), yz: fx(g.yz), zx: fx(g.zx) }
}

/// What the dot product computes in raw form.
pub open spec fn dot_fx(a: Vec3Model, b: Vec3Model) -> int {
    fx(vdot(a, b))
}

/// What the cross product computes in raw form.
pub open spec fn cross_fx(a: Vec3Model, b: Vec3Model) -> Vec3Model {
    let c = vcross(a, b);
    Vec3Model { x: fx(c.x), y: fx(c.y), z: fx(c.z) }
}

/// What the magnitude computes: the root of the exact squared norm is
/// already at raw scale.
pub open spec fn mag_fx(v: Vec3Model) -> int {
    sqrt_floor(vdot(v, v))
}

/// What normalizing a vector computes: each component is divided by the
/// magnitude, truncating toward zero.
pub open spec fn normalized_fx(v: Vec3Model) -> Vec3Model {
    let m = mag_fx(v);
    Vec3Model {
        x: tdiv(v.x * (SCALE as int), m),
        y: tdiv(v.y * (SCALE as int), m),
        z: tdiv(v.z * (SCALE as int), m),
    }
}

/// What normalizing a rotor computes.
pub open spec fn rotor_normalized_fx(r: RotorModel) -> RotorModel {
    let m = sqrt_floor(norm2_m(r));
    RotorModel {
        s: tdiv(r.s * (SCALE as int), m),
        xy: tdiv(r.xy * (SCALE as int), m),
        yz: tdiv(r.yz * (SCALE as int), m),
        zx: tdiv(r.zx * (SCALE as int), m),
    }
}

/// What scaling a vector by a raw scalar computes.
pub open spec fn scale_fx(k: int, v: Vec3Model) -> Vec3Model {
    Vec3Model { x: fx(k * v.x), y: fx(k * v.y), z: fx(k * v.z) }
}

/// What dividing a vector by a raw scalar computes.
pub open spec fn div_fx(v: Vec3Model, k: int) -> Vec3Model {
    Vec3Model {
        x: tdiv(v.x * (SCALE as int), k),
        y: tdiv(v.y * (SCALE as int), k),
        z: tdiv(v.z * (SCALE as int), k),
    }
}

/// The squared norm of a non-zero vector is at least one; of the zero
/// vector it is zero.
pub proof fn lemma_vdot_self(v: Vec3Model)
    ensures
        0 <= vdot(v, v),
        !is_zero_vec(v) ==> 1 <= vdot(v, v),
        is_zero_vec(v) ==> vdot(v, v) == 0,
{
    assert(0 <= v.x * v.x + v.y * v.y + v.z * v.z) by (nonlinear_arith);
    if !is_zero_vec(v) {
        assert(1 <= v.x * v.x + v.y * v.y + v.z * v.z) by (nonlinear_arith)
            requires
                v.x != 0 || v.y != 0 || v.z != 0,
        ;
    }
}

/// The unnormalized perpendicular pick: take the axis `m` of the first
/// non-zero component, put that component at axis `(m + 1) % 3`, and its
/// successor's negation at axis `m`.
pub open spec fn perp_raw(v: Vec3Model) -> Vec3Model {
    if v.x != 0 {
        Vec3Model { x: -v.y, y: v.x, z: 0 }
    } else if v.y != 0 {
        Vec3Model { x: 0, y: -v.z, z: v.y }
    } else {
        Vec3Model { x: v.z, y: 0, z: 0 }
    }
}

/// What the perpendicular construction computes.
pub open spec fn perpendicular_fx(v: Vec3Model) -> Vec3Model {
    normalized_fx(perp_raw(v))
}

/// A raw vector within the componentwise bound accepted by vector and
/// matrix arithmetic.
pub open spec fn in_val_range(v: Vec3Model) -> bool {
    &&& -(VAL_MAX as int) <= v.x <= VAL_MAX as int
    &&& -(VAL_MAX as int) <= v.y <= VAL_MAX as int
    &&& -(VAL_MAX as int) <= v.z <= VAL_MAX as int
}

/// A raw vector within the componentwise bound accepted by vector
/// addition.
pub open spec fn in_add_range(v: Vec3Model) -> bool {
    &&& -(ADD_MAX as int) <= v.x <= ADD_MAX as int
    &&& -(ADD_MAX as int) <= v.y <= ADD_MAX as int
    &&& -(ADD_MAX as int) <= v.z <= ADD_MAX as int
}

/// A raw rotor within the componentwise bound accepted by rotation.
pub open spec fn in_rot_range(r: RotorModel) -> bool {
    &&& -(ROT_MAX as int) <= r.s <= ROT_MAX as int
    &&& -(ROT_MAX as int) <= r.xy <= ROT_MAX as int
    &&& -(ROT_MAX as int) <= r.yz <= ROT_MAX as int
    &&& -(ROT_MAX as int) <= r.zx <= ROT_MAX as int
}

/// Largest accepted deviation of an exact squared norm from
/// `SCALE * SCALE` for a vector that counts as a unit vector.
pub const UNIT_TOL: i64 = 67108864;

/// Half-width of the raw dot-product band around `-SCALE` inside which
/// two unit vectors count as antiparallel.
pub const ANTI_EPS: i64 = 80;

/// A raw vector that counts as a unit vector: its exact squared norm is
/// within `UNIT_TOL` of `SCALE * SCALE`.
pub open spec fn is_unit_vec_fx(v: Vec3Model) -> bool {
    abs_val(vdot(v, v) - SCALE_SQ as int) <= UNIT_TOL as int
}

/// Two vectors whose raw dot product lies within `ANTI_EPS` of `-SCALE`
/// count as antiparallel.
pub open spec fn antiparallel_fx(a: Vec3Model, b: Vec3Model) -> bool {
    abs_val(dot_fx(a, b) + SCALE as int) <= ANTI_EPS as int
}

/// The zero rotor.
pub open spec fn is_zero_rotor(r: RotorModel) -> bool {
    r.s == 0 && r.xy == 0 && r.yz == 0 && r.zx == 0
}

/// The raw x-axis unit vector.
pub open spec fn unit_x() -> Vec3Model {
    Vec3Model { x: SCALE as int, y: 0, z: 0 }
}

/// The raw y-axis unit vector.
pub open spec fn unit_y() -> Vec3Model {
    Vec3Model { x: 0, y: SCALE as int, z: 0 }
}

/// The raw z-axis unit vector.
pub open spec fn unit_z() -> Vec3Model {
    Vec3Model { x: 0, y: 0, z: SCALE as int }
}

/// The squared norm of a non-zero rotor is at least one; of the zero
/// rotor it is zero.
pub proof fn lemma_norm2_self(r: RotorModel)
    ensures
        0 <= norm2_m(r),
        !is_zero_rotor(r) ==> 1 <= norm2_m(r),
        is_zero_rotor(r) ==> norm2_m(r) == 0,
{
    assert(0 <= r.s * r.s + r.xy * r.xy + r.yz * r.yz + r.zx * r.zx) by (nonlinear_arith);
    if !is_zero_rotor(r) {
        assert(1 <= r.s * r.s + r.xy * r.xy + r.yz * r.yz + r.zx * r.zx) by (nonlinear_arith)
            requires
                r.s != 0 || r.xy != 0 || r.yz != 0 || r.zx != 0,
        ;
    }
}

/// A vector that counts as a unit vector is not zero and each of its
/// components stays below twice the raw scale.
pub proof fn lemma_unit_comp_bound(v: Vec3Model)
    requires
        is_unit_vec_fx(v),
    ensures
        !is_zero_vec(v),
        -2 * (SCALE as int) <= v.x <= 2 * (SCALE as int),
        -2 * (SCALE as int) <= v.y <= 2 * (SCALE as int),
        -2 * (SCALE as int) <= v.z <= 2 * (SCALE as int),
{
    lemma_vdot_self(v);
    assert(v.x * v.x <= v.x * v.x + v.y * v.y + v.z * v.z && v.y * v.y <= v.x * v.x + v.y * v.y
        + v.z * v.z && v.z * v.z <= v.x * v.x + v.y * v.y + v.z * v.z) by (nonlinear_arith);
    assert(-2097152 <= v.x && v.x <= 2097152) by (nonlinear_arith)
        requires
            v.x * v.x <= 4398046511104,
    ;
    assert(-2097152 <= v.y && v.y <= 2097152) by (nonlinear_arith)
        requires
            v.y * v.y <= 4398046511104,
    ;
    assert(-2097152 <= v.z && v.z <= 2097152) by (nonlinear_arith)
        requires
            v.z * v.z <= 4398046511104,
    ;
}

/// If two vectors that count as unit vectors sum to zero, their raw dot
/// product lies inside the antiparallel band.
pub proof fn lemma_sum_zero_antiparallel(a: Vec3Model, b: Vec3Model)
    requires
        is_unit_vec_fx(a),
        is_unit_vec_fx(b),
        is_zero_vec(vadd(a, b)),
    ensures
        antiparallel_fx(a, b),
{
    assert(vdot(a, b) == -vdot(a, a)) by (nonlinear_arith)
        requires
            b.x == -a.x && b.y == -a.y && b.z == -a.z,
    ;
    let d = vdot(a, a);
    lemma_vdot_self(a);
    let s = SCALE as int;
    assert(s * (s - 64) <= d <= s * (s + 64));
    vstd::arithmetic::div_mod::lemma_div_is_ordered(s * (s - 64), d, s);
    vstd::arithmetic::div_mod::lemma_div_is_ordered(d, s * (s + 64), s);
    vstd::arithmetic::div_mod::lemma_div_multiples_vanish(s - 64, s);
    vstd::arithmetic::div_mod::lemma_div_multiples_vanish(s + 64, s);
    assert(s - 64 <= d / s <= s + 64);
    assert(dot_fx(a, b) == -(d / s));
}

/// Every component of a normalized vector stays within the raw scale.
pub proof fn lemma_normalized_bounds(v: Vec3Model)
    requires
        !is_zero_vec(v),
    ensures
        -(SCALE as int) <= normalized_fx(v).x <= SCALE as int,
        -(SCALE as int) <= normalized_fx(v).y <= SCALE as int,
        -(SCALE as int) <= normalized_fx(v).z <= SCALE as int,
{
    lemma_vdot_self(v);
    let n = vdot(v, v);
    let m = mag_fx(v);
    crate::fixed::lemma_sqrt_floor_bounds(n);
    crate::fixed::lemma_sqrt_floor_pos(n);
    assert(v.x * v.x <= v.x * v.x + v.y * v.y + v.z * v.z && v.y * v.y <= v.x * v.x + v.y * v.y
        + v.z * v.z && v.z * v.z <= v.x * v.x + v.y * v.y + v.z * v.z) by (nonlinear_arith);
    assert(-m <= v.x && v.x <= m) by (nonlinear_arith)
        requires
            v.x * v.x <= n,
            n < (m + 1) * (m + 1),
            0 <= m,
    ;
    assert(-m <= v.y && v.y <= m) by (nonlinear_arith)
        requires
            v.y * v.y <= n,
            n < (m + 1) * (m + 1),
            0 <= m,
    ;
    assert(-m <= v.z && v.z <= m) by (nonlinear_arith)
        requires
            v.z * v.z <= n,
            n < (m + 1) * (m + 1),
            0 <= m,
    ;
    let s = SCALE as int;
    assert(-(s * m) <= v.x * s <= s * m && -(s * m) <= v.y * s <= s * m && -(s * m) <= v.z * s <= s
        * m) by (nonlinear_arith)
        requires
            -m <= v.x <= m,
            -m <= v.y <= m,
            -m <= v.z <= m,
            0 < s,
    ;
    crate::fixed::lemma_tdiv_bound(v.x * s, m, s);
    crate::fixed::lemma_tdiv_bound(v.y * s, m, s);
    crate::fixed::lemma_tdiv_bound(v.z * s, m, s);
}

/// The perpendicular pick of a non-zero vector is non-zero.
pub proof fn lemma_perp_raw_nonzero(v: Vec3Model)
    requires
        !is_zero_vec(v),
    ensures
        !is_zero_vec(perp_raw(v)),
{
}

/// What building an exact-angle rotor computes: for antiparallel inputs
/// the second vector is replaced by a perpendicular of the first, else by
/// the normalized bisector.
pub open spec fn rotor_exact_fx(a: Vec3Model, b: Vec3Model) -> RotorModel {
    if antiparallel_fx(a, b) {
        rotor_from_fx(a, perpendicular_fx(a))
    } else {
        rotor_from_fx(a, normalized_fx(vadd(a, b)))
    }
}

} // verus!
