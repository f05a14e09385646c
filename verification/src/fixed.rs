//! Signed fixed-point arithmetic on raw `i64` values.
//!
//! A raw value `r` stands for the real number `r / SCALE`.  Products of two
//! raw values are computed in `i128` and scaled back down with truncating
//! (round-toward-zero) division, which is pinned exactly by `tdiv`.
//! Square roots are computed on the raw integers and pinned by `sqrt_floor`.

use vstd::prelude::*;

verus! {

/// The fixed-point scale: a raw value `r` stands for `r / SCALE`.
pub const SCALE: i64 = 1048576;

/// `SCALE * SCALE`, the scale of a product of two raw values.
pub const SCALE_SQ: i64 = 1099511627776;

/// Largest magnitude accepted for a vector or matrix component.
pub const VAL_MAX: i64 = 1099511627776;

/// Largest magnitude accepted for a rotor component.
pub const ROT_MAX: i64 = 16777216;

/// Largest magnitude accepted for a component of a vector sum.
pub const ADD_MAX: i64 = 0x3fffffffffffffff;

/// Absolute value of an integer.
pub open spec fn abs_val(p: int) -> int {
    if p < 0 {
        -p
    } else {
        p
    }
}

/// Truncating division, rounding toward zero: the semantics of hardware
/// signed division, used to scale products of raw values back down.
pub open spec fn tdiv(p: int, d: int) -> int {
    if (p < 0) == (d < 0) {
        abs_val(p) / abs_val(d)
    } else {
        -(abs_val(p) / abs_val(d))
    }
}

/// Scale a product of two raw values back down to a raw value.
pub open spec fn fx(p: int) -> int {
    tdiv(p, SCALE as int)
}

/// Scale a product of three raw values back down to a raw value.
pub open spec fn fx2(p: int) -> int {
    tdiv(p, SCALE_SQ as int)
}

/// The integer square root, rounded down.
pub open spec fn sqrt_floor(n: int) -> int
    decreases n,
{
    if n <= 0 {
        0
    } else {
        let p = sqrt_floor(n - 1);
        if (p + 1) * (p + 1) <= n {
            p + 1
        } else {
            p
        }
    }
}

/// `sqrt_floor(n)` is the unique integer root: its square is at most `n`,
/// and the next square is beyond `n`.
pub proof fn lemma_sqrt_floor_bounds(n: int)
    requires
        0 <= n,
    ensures
        0 <= sqrt_floor(n),
        sqrt_floor(n) * sqrt_floor(n) <= n,
        n < (sqrt_floor(n) + 1) * (sqrt_floor(n) + 1),
    decreases n,
{
    if n == 0 {
        assert(sqrt_floor(0) == 0);
    } else {
        lemma_sqrt_floor_bounds(n - 1);
        let p = sqrt_floor(n - 1);
        if (p + 1) * (p + 1) <= n {
            assert((p + 1) * (p + 1) + 1 <= (p + 2) * (p + 2)) by (nonlinear_arith)
                requires
                    0 <= p,
            ;
        }
    }
}

/// Any integer whose square brackets `n` is `sqrt_floor(n)`.
pub proof fn lemma_sqrt_floor_unique(n: int, r: int)
    requires
        0 <= r,
        r * r <= n,
        n < (r + 1) * (r + 1),
    ensures
        r == sqrt_floor(n),
{
    assert(0 <= r * r) by (nonlinear_arith)
        requires
            0 <= r,
    ;
    lemma_sqrt_floor_bounds(n);
    let s = sqrt_floor(n);
    if r < s {
        assert((r + 1) * (r + 1) <= s * s) by (nonlinear_arith)
            requires
                0 <= r + 1,
                r + 1 <= s,
        ;
    }
    if s < r {
        assert((s + 1) * (s + 1) <= r * r) by (nonlinear_arith)
            requires
                0 <= s + 1,
                s + 1 <= r,
        ;
    }
}

/// The root grows with its argument, so a bound on `n` bounds the root.
pub proof fn lemma_sqrt_floor_below(n: int, b: int)
    requires
        0 <= n,
        0 <= b,
        n < b * b,
    ensures
        sqrt_floor(n) < b,
{
    lemma_sqrt_floor_bounds(n);
    let s = sqrt_floor(n);
    if b <= s {
        assert(b * b <= s * s) by (nonlinear_arith)
            requires
                0 <= b,
                b <= s,
        ;
    }
}

/// A positive argument has a positive root.
pub proof fn lemma_sqrt_floor_pos(n: int)
    requires
        1 <= n,
    ensures
        1 <= sqrt_floor(n),
{
    lemma_sqrt_floor_bounds(n);
    let s = sqrt_floor(n);
    if s == 0 {
        assert((s + 1) * (s + 1) == 1) by (nonlinear_arith)
            requires
                s == 0,
        ;
    }
}

/// Truncating division by a positive divisor keeps a symmetric bound.
pub proof fn lemma_tdiv_bound(p: int, d: int, b: int)
    requires
        1 <= d,
        0 <= b,
        -(b * d) <= p,
        p <= b * d,
    ensures
        -b <= tdiv(p, d),
        tdiv(p, d) <= b,
{
    assert(b * d == d * b) by (nonlinear_arith);
    if p >= 0 {
        vstd::arithmetic::div_mod::lemma_div_is_ordered(p, d * b, d);
        vstd::arithmetic::div_mod::lemma_div_multiples_vanish(b, d);
        vstd::arithmetic::div_mod::lemma_div_pos_is_pos(p, d);
    } else {
        vstd::arithmetic::div_mod::lemma_div_is_ordered(-p, d * b, d);
        vstd::arithmetic::div_mod::lemma_div_multiples_vanish(b, d);
        vstd::arithmetic::div_mod::lemma_div_pos_is_pos(-p, d);
    }
}

/// Dividing an exact multiple truncates to the exact quotient.
pub proof fn lemma_tdiv_exact(k: int, d: int)
    requires
        1 <= d,
    ensures
        tdiv(k * d, d) == k,
{
    if k >= 0 {
        assert(0 <= k * d && k * d == d * k) by (nonlinear_arith)
            requires
                0 <= k,
                1 <= d,
        ;
        vstd::arithmetic::div_mod::lemma_div_multiples_vanish(k, d);
    } else {
        assert(k * d < 0 && -(k * d) == d * (-k)) by (nonlinear_arith)
            requires
                k < 0,
                1 <= d,
        ;
        vstd::arithmetic::div_mod::lemma_div_multiples_vanish(-k, d);
    }
}

/// Truncating division never grows the magnitude of the numerator.
pub proof fn lemma_tdiv_abs_le(p: int, d: int)
    requires
        d != 0,
    ensures
        -abs_val(p) <= tdiv(p, d),
        tdiv(p, d) <= abs_val(p),
{
    vstd::arithmetic::div_mod::lemma_div_nonincreasing(abs_val(p), abs_val(d));
    vstd::arithmetic::div_mod::lemma_div_pos_is_pos(abs_val(p), abs_val(d));
}

/// Negating the divisor negates a truncating quotient.
pub proof fn lemma_tdiv_neg_divisor(p: int, d: int)
    requires
        d != 0,
    ensures
        tdiv(p, -d) == -tdiv(p, d),
{
}

/// A product of bounded factors is bounded.
pub proof fn lemma_abs_mul(a: int, b: int, aa: int, bb: int)
    by (nonlinear_arith)
    requires
        -aa <= a,
        a <= aa,
        -bb <= b,
        b <= bb,
        0 <= aa,
        0 <= bb,
    ensures
        -(aa * bb) <= a * b,
        a * b <= aa * bb,
{
}

/// A square is never negative.
pub proof fn lemma_square_nonneg(a: int)
    by (nonlinear_arith)
    ensures
        0 <= a * a,
{
}

/// Truncating division of a non-negative `i128` numerator, via the
/// machine's unsigned division.
fn tdiv128(p: i128, d: i128) -> (r: i128)
    requires
        1 <= d,
        -0x7fffffffffffffffffffffffffffffff <= p,
    ensures
        r as int == tdiv(p as int, d as int),
{
    if p >= 0 {
        let q: u128 = (p as u128) / (d as u128);
        proof {
            vstd::arithmetic::div_mod::lemma_div_is_ordered(q as int, p as int, 1);
            vstd::arithmetic::div_mod::lemma_div_nonincreasing(p as int, d as int);
            vstd::arithmetic::div_mod::lemma_div_pos_is_pos(p as int, d as int);
        }
        q as i128
    } else {
        let n: i128 = -p;
        let q: u128 = (n as u128) / (d as u128);
        proof {
            vstd::arithmetic::div_mod::lemma_div_nonincreasing(n as int, d as int);
            vstd::arithmetic::div_mod::lemma_div_pos_is_pos(n as int, d as int);
        }
        -(q as i128)
    }
}

/// Truncating division for any non-zero divisor.
pub fn tdiv128_any(p: i128, d: i128) -> (r: i128)
    requires
        d != 0,
        -0x7fffffffffffffffffffffffffffffff <= p,
        -0x7fffffffffffffffffffffffffffffff <= d,
    ensures
        r as int == tdiv(p as int, d as int),
{
    if d >= 1 {
        tdiv128(p, d)
    } else {
        let q = tdiv128(p, -d);
        proof {
            lemma_tdiv_neg_divisor(p as int, -(d as int));
        }
        -q
    }
}

/// Scale a double-width product of raw values back down to a raw value.
pub fn scale_down(p: i128) -> (r: i128)
    requires
        -0x7fffffffffffffffffffffffffffffff <= p,
    ensures
        r as int == fx(p as int),
{
    tdiv128(p, SCALE as i128)
}

/// Scale a triple-width product of raw values back down to a raw value.
pub fn scale_down2(p: i128) -> (r: i128)
    requires
        -0x7fffffffffffffffffffffffffffffff <= p,
    ensures
        r as int == fx2(p as int),
{
    tdiv128(p, SCALE_SQ as i128)
}

/// The integer square root of a `u128`, by bisection.
pub fn isqrt128(n: u128) -> (r: u128)
    ensures
        r as int == sqrt_floor(n as int),
        r <= 0xffffffffffffffff,
{
    let mut lo: u128 = 0;
    let mut hi: u128 = 0x10000000000000000;
    proof {
        assert((0x10000000000000000 as int) * (0x10000000000000000 as int) > n as int);
    }
    while lo + 1 < hi
        invariant
            lo < hi,
            hi <= 0x10000000000000000,
            (lo as int) * (lo as int) <= n as int,
            (n as int) < (hi as int) * (hi as int),
        decreases hi - lo,
    {
        let mid = lo + (hi - lo) / 2;
        proof {
            lemma_abs_mul(mid as int, mid as int, 0xffffffffffffffff, 0xffffffffffffffff);
        }
        if mid * mid <= n {
            lo = mid;
        } else {
            hi = mid;
        }
    }
    proof {
        lemma_sqrt_floor_unique(n as int, lo as int);
    }
    lo
}

} // verus!
