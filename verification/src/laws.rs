//! The algebraic laws of the rotor subsystem, proved over the exact
//! integer model in `algebra`.

use vstd::prelude::*;
use crate::fixed::{SCALE, SCALE_SQ, lemma_tdiv_exact};
use crate::algebra::{
    Vec3Model, RotorModel, identity_m, rev_m, comp_m, norm2_m, scalar_rotor, sand_m, odd_of,
    rotate_fx, rotor_from_fx, vdot, geo_vv, perp_raw, is_zero_vec,
};

verus! {

/// Rotating any vector with the identity rotor returns it unchanged,
/// exactly: the scaling by the squared raw scale cancels against the
/// final truncating division.
pub proof fn lemma_identity_rotor_is_noop(v: Vec3Model)
    ensures
        rotate_fx(identity_m(), v) == v,
{
    assert(sand_m(identity_m(), odd_of(v)).x == v.x * (SCALE_SQ as int)) by (nonlinear_arith);
    assert(sand_m(identity_m(), odd_of(v)).y == v.y * (SCALE_SQ as int)) by (nonlinear_arith);
    assert(sand_m(identity_m(), odd_of(v)).z == v.z * (SCALE_SQ as int)) by (nonlinear_arith);
    lemma_tdiv_exact(v.x, SCALE_SQ as int);
    lemma_tdiv_exact(v.y, SCALE_SQ as int);
    lemma_tdiv_exact(v.z, SCALE_SQ as int);
}

/// A rotor times its own reverse collapses to its squared norm, in
/// either order: the reverse is a true algebraic inverse up to norm.
pub proof fn lemma_reverse_cancels(r: RotorModel)
    ensures
        comp_m(r, rev_m(r)) == scalar_rotor(norm2_m(r)),
        comp_m(rev_m(r), r) == scalar_rotor(norm2_m(r)),
{
    assert(comp_m(r, rev_m(r)).s == norm2_m(r)) by (nonlinear_arith);
    assert(comp_m(r, rev_m(r)).xy == 0) by (nonlinear_arith);
    assert(comp_m(r, rev_m(r)).yz == 0) by (nonlinear_arith);
    assert(comp_m(r, rev_m(r)).zx == 0) by (nonlinear_arith);
    assert(comp_m(rev_m(r), r).s == norm2_m(r)) by (nonlinear_arith);
    assert(comp_m(rev_m(r), r).xy == 0) by (nonlinear_arith);
    assert(comp_m(rev_m(r), r).yz == 0) by (nonlinear_arith);
    assert(comp_m(rev_m(r), r).zx == 0) by (nonlinear_arith);
}

/// Building a rotor from a vector and itself yields a pure scalar: the
/// bivector part vanishes exactly, also after rounding.
pub proof fn lemma_same_vector_rotor(a: Vec3Model)
    ensures
        geo_vv(a, a) == scalar_rotor(vdot(a, a)),
        rotor_from_fx(a, a).xy == 0,
        rotor_from_fx(a, a).yz == 0,
        rotor_from_fx(a, a).zx == 0,
{
    assert(geo_vv(a, a).s == vdot(a, a)) by (nonlinear_arith);
    assert(geo_vv(a, a).xy == 0) by (nonlinear_arith);
    assert(geo_vv(a, a).yz == 0) by (nonlinear_arith);
    assert(geo_vv(a, a).zx == 0) by (nonlinear_arith);
    lemma_tdiv_exact(0, SCALE as int);
}

/// Building a rotor from an exactly unit vector and itself yields the
/// identity rotor, which leaves every vector unchanged.
pub proof fn lemma_same_vector_rotor_is_noop(a: Vec3Model, v: Vec3Model)
    requires
        vdot(a, a) == SCALE_SQ as int,
    ensures
        rotor_from_fx(a, a) == identity_m(),
        rotate_fx(rotor_from_fx(a, a), v) == v,
{
    lemma_same_vector_rotor(a);
    lemma_tdiv_exact(SCALE as int, SCALE as int);
    assert((SCALE as int) * (SCALE as int) == SCALE_SQ as int);
    lemma_identity_rotor_is_noop(v);
}

/// The perpendicular pick is exactly orthogonal to its input before
/// normalization, for every input.
pub proof fn lemma_perp_raw_orthogonal(v: Vec3Model)
    ensures
        vdot(perp_raw(v), v) == 0,
        !is_zero_vec(v) ==> !is_zero_vec(perp_raw(v)),
{
    assert(vdot(perp_raw(v), v) == 0) by (nonlinear_arith);
}

} // verus!
