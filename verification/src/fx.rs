//! 16.16 fixed-point arithmetic.
//!
//! All geometry in this crate is computed over `i64` values holding 16.16
//! fixed-point numbers: one unit is `FX_ONE`.  Products and quotients
//! truncate toward zero, as the underlying hardware division does.

use vstd::arithmetic::div_mod::lemma_div_basics;
use vstd::arithmetic::div_mod::lemma_div_is_ordered;
use vstd::arithmetic::div_mod::lemma_div_multiples_vanish;
use vstd::arithmetic::div_mod::lemma_div_nonincreasing;
use vstd::arithmetic::div_mod::lemma_div_pos_is_pos;
use vstd::prelude::*;

verus! {

/// One unit in 16.16 fixed point.
pub const FX_ONE: i64 = 0x10000;

/// Division truncating toward zero (the rounding of hardware division),
/// for a positive divisor.
pub open spec fn tdiv(a: int, d: int) -> int
    recommends
        d > 0,
{
    if a >= 0 {
        a / d
    } else {
        -((-a) / d)
    }
}

/// The fixed-point product: the exact integer product scaled back down by
/// one unit, truncated toward zero.
pub open spec fn fx_mul_spec(a: int, b: int) -> int {
    tdiv(a * b, FX_ONE as int)
}

/// Truncating division shrinks a bound on the dividend by the divisor.
pub proof fn lemma_tdiv_quotient_bound(a: int, d: int, m: int)
    requires
        d > 0,
        0 <= m,
        -m <= a <= m,
    ensures
        -(m / d) <= tdiv(a, d) <= m / d,
{
    if a >= 0 {
        lemma_div_is_ordered(a, m, d);
        lemma_div_pos_is_pos(a, d);
    } else {
        lemma_div_is_ordered(-a, m, d);
        lemma_div_pos_is_pos(-a, d);
    }
}

/// The magnitude of a product of bounded factors is bounded by the product
/// of the bounds.
pub proof fn lemma_mul_bounds(a: int, b: int, ba: int, bb: int)
    by (nonlinear_arith)
    requires
        -ba <= a <= ba,
        -bb <= b <= bb,
        0 <= ba,
        0 <= bb,
    ensures
        -(ba * bb) <= a * b <= ba * bb,
{
}

/// Multiplying by one fixed-point unit is the identity.
pub proof fn lemma_fx_mul_one(a: int)
    ensures
        fx_mul_spec(FX_ONE as int, a) == a,
        fx_mul_spec(a, FX_ONE as int) == a,
{
    if a >= 0 {
        lemma_div_multiples_vanish(a, FX_ONE as int);
    } else {
        lemma_div_multiples_vanish(-a, FX_ONE as int);
    }
}

/// Multiplying by zero gives zero.
pub proof fn lemma_fx_mul_zero(a: int)
    ensures
        fx_mul_spec(0, a) == 0,
        fx_mul_spec(a, 0) == 0,
{
    lemma_div_basics(FX_ONE as int);
}

/// Dividing a fixed-point multiple of the divisor recovers the multiplier:
/// the texture-wide source rectangle maps to a whole unit of texture space.
pub proof fn lemma_tdiv_multiple(x: int, d: int)
    requires
        d > 0,
        x >= 0,
    ensures
        tdiv(d * x, d) == x,
{
    lemma_div_multiples_vanish(x, d);
}

/// The fixed-point product of two values whose exact product stays within
/// the machine word.
pub fn fx_mul(a: i64, b: i64) -> (r: i64)
    requires
        -0x7fff_ffff_ffff_ffff <= a * b <= 0x7fff_ffff_ffff_ffff,
    ensures
        r == fx_mul_spec(a as int, b as int),
{
    let p: i64 = a * b;
    if p >= 0 {
        proof {
            lemma_div_nonincreasing(p as int, FX_ONE as int);
            lemma_div_pos_is_pos(p as int, FX_ONE as int);
        }
        ((p as u64) / 0x10000u64) as i64
    } else {
        proof {
            lemma_div_nonincreasing(-(p as int), FX_ONE as int);
            lemma_div_pos_is_pos(-(p as int), FX_ONE as int);
        }
        -((((-p) as u64) / 0x10000u64) as i64)
    }
}

/// The quotient of a fixed-point value by a plain positive integer,
/// truncated toward zero.
pub fn fx_div(a: i64, d: i64) -> (r: i64)
    requires
        d > 0,
        -0x7fff_ffff_ffff_ffff <= a,
    ensures
        r == tdiv(a as int, d as int),
{
    if a >= 0 {
        proof {
            lemma_div_nonincreasing(a as int, d as int);
            lemma_div_pos_is_pos(a as int, d as int);
        }
        ((a as u64) / (d as u64)) as i64
    } else {
        proof {
            lemma_div_nonincreasing(-(a as int), d as int);
            lemma_div_pos_is_pos(-(a as int), d as int);
        }
        -((((-a) as u64) / (d as u64)) as i64)
    }
}

} // verus!
