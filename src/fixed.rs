//! Fixed-point quantities: one unit is `SCALE` steps.
use vstd::prelude::*;
use vstd::arithmetic::div_mod::{lemma_fundamental_div_mod, lemma_fundamental_div_mod_converse_div};

verus! {

/// Steps per unit: angles are microradians, lengths are millionths of a unit.
pub const SCALE: i64 = 1_000_000;

/// `v` held to the range `[lo, hi]`.
pub open spec fn clamp_int(v: int, lo: int, hi: int) -> int {
    if v < lo {
        lo
    } else if v > hi {
        hi
    } else {
        v
    }
}

/// `v` held to the range of `i64`.
pub open spec fn sat64(v: int) -> int {
    clamp_int(v, i64::MIN as int, i64::MAX as int)
}

/// Holds a wide value to the range of `i64`.
pub fn saturate(v: i128) -> (r: i64)
    ensures
        r == sat64(v as int),
{
    if v < i64::MIN as i128 {
        i64::MIN
    } else if v > i64::MAX as i128 {
        i64::MAX
    } else {
        v as i64
    }
}

/// `a + b`, held to the range of `i64`.
pub fn saturating_add(a: i64, b: i64) -> (r: i64)
    ensures
        r == sat64(a + b),
{
    saturate(a as i128 + b as i128)
}

/// `p / d` rounded down (toward negative infinity).
pub fn div_floor(p: i128, d: i128) -> (r: i128)
    requires
        d > 0,
    ensures
        r == p / d,
{
    if p >= 0 {
        p / d
    } else {
        let a: i128 = -(p + 1);
        let q: i128 = a / d;
        proof {
            let rem = a % d;
            lemma_fundamental_div_mod(a as int, d as int);
            assert(q == a / d);
            assert(a == q * d + rem) by (nonlinear_arith)
                requires
                    a == d * (a / d) + rem,
                    q == a / d,
            ;
            assert(p == (-q - 1) * d + (d - 1 - rem)) by (nonlinear_arith)
                requires
                    a == q * d + rem,
                    a == -(p + 1),
            ;
            lemma_fundamental_div_mod_converse_div(p as int, d as int, -q - 1, d - 1 - rem);
        }
        -q - 1
    }
}

/// Holding a value that is already in range changes nothing.
pub proof fn lemma_clamp_idempotent(v: int, lo: int, hi: int)
    requires
        lo <= hi,
    ensures
        lo <= clamp_int(v, lo, hi) <= hi,
        clamp_int(clamp_int(v, lo, hi), lo, hi) == clamp_int(v, lo, hi),
{
}

} // verus!
