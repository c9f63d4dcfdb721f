//! Fixed-point scalars.
//!
//! A real quantity is carried as an `i64` count of `SCALE`-ths of a unit.
//! The product of two such scalars is the exact integer product divided
//! back by `SCALE`, rounded toward zero; sums and differences are exact.

use vstd::prelude::*;
use vstd::arithmetic::div_mod::lemma_div_is_ordered;
use vstd::arithmetic::div_mod::lemma_div_pos_is_pos;
use vstd::arithmetic::div_mod::lemma_div_multiples_vanish;
use vstd::arithmetic::div_mod::lemma_div_of0;
use vstd::arithmetic::div_mod::lemma_fundamental_div_mod;
use vstd::arithmetic::div_mod::lemma_mod_division_less_than_divisor;

verus! {

/// Number of fixed-point steps that make up one real unit.
pub const SCALE: i64 = 1_000_000;

/// Largest magnitude (two to the fortieth) accepted for a fixed-point
/// operand: the product of two such operands fits an `i128`, and scaled
/// back down by `SCALE` it leaves room in an `i64` for three-term sums.
pub const FX_BOUND: i64 = 0x100_0000_0000;

/// Largest magnitude a fixed-point product of two `FX_BOUND`-bounded
/// operands can have: the square of `FX_BOUND`, scaled down by `SCALE`.
pub const FX_PROD_BOUND: i64 = 1_208_925_819_614_629_174;

/// Quotient of `a` by a positive `d`, rounded toward zero.
pub open spec fn tdiv(a: int, d: int) -> int
    recommends
        d > 0,
{
    if a >= 0 {
        a / d
    } else {
        -((-a) / d)
    }
}

/// The fixed-point product: the integer product, scaled back down by
/// `SCALE` with rounding toward zero.
pub open spec fn fxm(a: int, b: int) -> int {
    tdiv(a * b, SCALE as int)
}

/// Rounding toward zero never grows the magnitude past `ab / d`.
pub proof fn lemma_tdiv_bound(a: int, ab: int, d: int)
    requires
        d >= 1,
        0 <= ab,
        -ab <= a <= ab,
    ensures
        -(ab / d) <= tdiv(a, d) <= ab / d,
{
    if a >= 0 {
        lemma_div_pos_is_pos(a, d);
        lemma_div_is_ordered(a, ab, d);
    } else {
        lemma_div_pos_is_pos(-a, d);
        lemma_div_is_ordered(-a, ab, d);
    }
}

/// Rounding toward zero lands within `d - 1` of the exact quotient:
/// `d * tdiv(a, d)` differs from `a` by less than `d`.
pub proof fn lemma_tdiv_rem(a: int, d: int)
    requires
        d >= 1,
    ensures
        -(d - 1) <= d * tdiv(a, d) - a <= d - 1,
{
    if a >= 0 {
        lemma_fundamental_div_mod(a, d);
        lemma_mod_division_less_than_divisor(a, d);
    } else {
        let q = (-a) / d;
        lemma_fundamental_div_mod(-a, d);
        lemma_mod_division_less_than_divisor(-a, d);
        let t = tdiv(a, d);
        assert(d * t == -(d * q)) by (nonlinear_arith)
            requires
                t == -q,
        ;
    }
}

/// A fixed-point product of bounded operands is bounded by the scaled
/// product of the bounds.
pub proof fn lemma_fxm_bound(a: int, b: int, ab: int, bb: int)
    requires
        0 <= ab,
        0 <= bb,
        -ab <= a <= ab,
        -bb <= b <= bb,
    ensures
        -((ab * bb) / (SCALE as int)) <= fxm(a, b) <= (ab * bb) / (SCALE as int),
{
    assert(0 <= ab * bb && -(ab * bb) <= a * b <= ab * bb) by (nonlinear_arith)
        requires
            -ab <= a <= ab,
            -bb <= b <= bb,
            0 <= ab,
            0 <= bb,
    ;
    lemma_tdiv_bound(a * b, ab * bb, SCALE as int);
}

/// Multiplying by the scale itself is exact: no rounding occurs.
pub proof fn lemma_fxm_scale(a: int)
    ensures
        fxm(a, SCALE as int) == a,
{
    let s = SCALE as int;
    if a >= 0 {
        lemma_div_multiples_vanish(a, s);
        assert(a * s == s * a);
    } else {
        lemma_div_multiples_vanish(-a, s);
        assert(-(a * s) == s * (-a));
    }
}

/// A zero operand gives a zero product.
pub proof fn lemma_fxm_zero(a: int)
    ensures
        fxm(a, 0) == 0,
        fxm(0, a) == 0,
{
    lemma_div_of0(SCALE as int);
}

/// Fixed-point multiplication: widen to `i128`, take the exact product,
/// and scale it back down with truncation toward zero.
pub fn fx_mul(a: i64, b: i64) -> (r: i64)
    requires
        -FX_BOUND <= a <= FX_BOUND,
        -FX_BOUND <= b <= FX_BOUND,
    ensures
        r as int == fxm(a as int, b as int),
        -FX_PROD_BOUND <= r <= FX_PROD_BOUND,
{
    proof {
        assert((FX_BOUND as int * FX_BOUND as int) / (SCALE as int) == FX_PROD_BOUND as int);
        assert(-(FX_BOUND as int * FX_BOUND as int) <= (a as int) * (b as int)
            <= FX_BOUND as int * FX_BOUND as int) by (nonlinear_arith)
            requires
                -(FX_BOUND as int) <= a as int <= FX_BOUND as int,
                -(FX_BOUND as int) <= b as int <= FX_BOUND as int,
        ;
        lemma_fxm_bound(a as int, b as int, FX_BOUND as int, FX_BOUND as int);
    }
    let p: i128 = (a as i128) * (b as i128);
    if p >= 0 {
        let q: u128 = (p as u128) / (SCALE as u128);
        proof {
            lemma_div_pos_is_pos(p as int, SCALE as int);
            lemma_div_is_ordered(p as int, FX_BOUND as int * FX_BOUND as int, SCALE as int);
        }
        q as i64
    } else {
        let m: u128 = ((-p) as u128) / (SCALE as u128);
        proof {
            lemma_div_pos_is_pos(-(p as int), SCALE as int);
            lemma_div_is_ordered(-(p as int), FX_BOUND as int * FX_BOUND as int, SCALE as int);
        }
        -(m as i64)
    }
}

} // verus!
