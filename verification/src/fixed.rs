//! Fixed-point scalars: a world-space quantity is an `i64` counting millionths
//! of a unit. Multiplication rescales the mathematical product, rounding
//! toward zero, which keeps negation exact: `fm(-a, b) == -fm(a, b)`.

use vstd::prelude::*;
use vstd::arithmetic::div_mod::{lemma_div_is_ordered, lemma_div_by_multiple, lemma_div_pos_is_pos};

verus! {

/// One world unit, in fixed-point millionths.
pub const FX_ONE: i64 = 1_000_000;

/// Largest factor magnitude `fx_mul` accepts (a machine limit that keeps the
/// rescaled product well inside `i64`).
pub const FX_FACTOR_LIMIT: i64 = 4_000_000_000;

/// Bound on any `fx_mul` result whose factors obey `FX_FACTOR_LIMIT`.
pub const FX_PRODUCT_LIMIT: i64 = 16_000_000_000_000;

/// Fixed-point product: the integer product scaled back down by one unit,
/// rounded toward zero.
pub open spec fn fm(a: int, b: int) -> int {
    if a * b >= 0 {
        (a * b) / (FX_ONE as int)
    } else {
        -((-(a * b)) / (FX_ONE as int))
    }
}

/// Fixed-point multiplication of two scalars.
pub fn fx_mul(a: i64, b: i64) -> (r: i64)
    requires
        -FX_FACTOR_LIMIT <= a <= FX_FACTOR_LIMIT,
        -FX_FACTOR_LIMIT <= b <= FX_FACTOR_LIMIT,
    ensures
        r as int == fm(a as int, b as int),
        -FX_PRODUCT_LIMIT <= r <= FX_PRODUCT_LIMIT,
{
    proof {
        assert(-16_000_000_000_000_000_000 <= (a as int) * (b as int) <= 16_000_000_000_000_000_000)
            by (nonlinear_arith)
            requires
                -4_000_000_000 <= a as int <= 4_000_000_000,
                -4_000_000_000 <= b as int <= 4_000_000_000;
    }
    let p: i128 = (a as i128) * (b as i128);
    if p >= 0 {
        let q: u128 = (p as u128) / 1_000_000u128;
        proof {
            lemma_div_is_ordered(p as int, 16_000_000_000_000_000_000, 1_000_000);
            lemma_div_pos_is_pos(p as int, 1_000_000);
        }
        q as i64
    } else {
        let m: u128 = ((-p) as u128) / 1_000_000u128;
        proof {
            lemma_div_is_ordered(-(p as int), 16_000_000_000_000_000_000, 1_000_000);
            lemma_div_pos_is_pos(-(p as int), 1_000_000);
        }
        -(m as i64)
    }
}

/// The fixed-point product of values bounded by `ba` and `bb` is bounded by
/// the rescaled product of the bounds.
pub proof fn lemma_fm_bound(a: int, b: int, ba: int, bb: int)
    requires
        -ba <= a <= ba,
        -bb <= b <= bb,
        0 <= ba,
        0 <= bb,
    ensures
        -((ba * bb) / (FX_ONE as int)) <= fm(a, b) <= (ba * bb) / (FX_ONE as int),
{
    assert(-(ba * bb) <= a * b <= ba * bb && 0 <= ba * bb) by (nonlinear_arith)
        requires
            -ba <= a <= ba,
            -bb <= b <= bb,
            0 <= ba,
            0 <= bb;
    if a * b >= 0 {
        lemma_div_is_ordered(a * b, ba * bb, 1_000_000);
        lemma_div_pos_is_pos(a * b, 1_000_000);
    } else {
        lemma_div_is_ordered(-(a * b), ba * bb, 1_000_000);
        lemma_div_pos_is_pos(-(a * b), 1_000_000);
    }
}

/// Negating either factor negates the fixed-point product, and negating both
/// leaves it unchanged.
pub proof fn lemma_fm_neg(a: int, b: int)
    ensures
        fm(-a, b) == -fm(a, b),
        fm(a, -b) == -fm(a, b),
        fm(-a, -b) == fm(a, b),
{
    assert((-a) * b == -(a * b) && a * (-b) == -(a * b) && (-a) * (-b) == a * b)
        by (nonlinear_arith);
}

/// Multiplying by one whole unit is the identity.
pub proof fn lemma_fm_one(a: int)
    ensures
        fm(a, FX_ONE as int) == a,
{
    if a >= 0 {
        lemma_div_by_multiple(a, 1_000_000);
    } else {
        lemma_div_by_multiple(-a, 1_000_000);
        assert(-(a * 1_000_000) == (-a) * 1_000_000);
    }
}

/// A zero factor gives a zero product.
pub proof fn lemma_fm_zero(a: int)
    ensures
        fm(a, 0) == 0,
        fm(0, a) == 0,
{
}

} // verus!
