//! Fixed-point scalar arithmetic in micro-units.
//!
//! A scalar value `v` is represented by the integer `v * 1_000_000` rounded to
//! an `i64`; `MICRO` is one whole unit. Products of two micro-unit scalars are
//! scaled back down by a truncating (round-toward-zero) division, which is the
//! rounding the executable code performs, so the specification functions here
//! describe the computed values exactly.

use vstd::prelude::*;

verus! {

use vstd::arithmetic::div_mod::lemma_div_is_ordered;
use vstd::arithmetic::div_mod::lemma_div_pos_is_pos;

/// One whole unit of the fixed-point scale.
pub const MICRO: i64 = 1_000_000;

/// Largest magnitude accepted by `fixed_mul`: the product of two such
/// magnitudes still fits in an `i64`.
pub const FX_LIMIT: i64 = 3_000_000_000;

/// Truncating division of `p` by the positive divisor `d`: the quotient is
/// rounded toward zero, as the executable division on magnitudes computes it.
pub open spec fn tdiv(p: int, d: int) -> int {
    if p >= 0 {
        p / d
    } else {
        -((-p) / d)
    }
}

/// The value of the fixed-point product of two micro-unit scalars.
pub open spec fn fx_mul(a: int, b: int) -> int {
    tdiv(a * b, MICRO as int)
}

/// Truncating division never grows the magnitude of its dividend.
pub proof fn lemma_tdiv_mag(p: int, d: int, m: int)
    requires
        1 <= d,
        -m <= p <= m,
    ensures
        -m <= tdiv(p, d) <= m,
        0 <= p ==> 0 <= tdiv(p, d),
        p <= 0 ==> tdiv(p, d) <= 0,
{
    if p >= 0 {
        lemma_div_pos_is_pos(p, d);
        vstd::arithmetic::div_mod::lemma_div_nonincreasing(p, d);
    } else {
        lemma_div_pos_is_pos(-p, d);
        vstd::arithmetic::div_mod::lemma_div_nonincreasing(-p, d);
    }
}

/// Dividing a smaller magnitude by the same positive divisor gives a smaller
/// magnitude: `|p| <= m` bounds `|tdiv(p, d)|` by `m / d`.
pub proof fn lemma_tdiv_mag_quotient(p: int, d: int, m: int)
    requires
        1 <= d,
        0 <= m,
        -m <= p <= m,
    ensures
        -(m / d) <= tdiv(p, d) <= m / d,
{
    lemma_div_pos_is_pos(m, d);
    if p >= 0 {
        lemma_div_pos_is_pos(p, d);
        lemma_div_is_ordered(p, m, d);
    } else {
        lemma_div_pos_is_pos(-p, d);
        lemma_div_is_ordered(-p, m, d);
    }
}

/// The magnitude of a fixed-point product, from magnitudes of the factors:
/// `|a| <= ma` and `|b| <= mb` bound `|fx_mul(a, b)|` by `(ma * mb) / MICRO`.
pub proof fn lemma_fx_mul_mag(a: int, b: int, ma: int, mb: int)
    requires
        0 <= ma,
        0 <= mb,
        -ma <= a <= ma,
        -mb <= b <= mb,
    ensures
        -((ma * mb) / (MICRO as int)) <= fx_mul(a, b) <= (ma * mb) / (MICRO as int),
{
    assert(-(ma * mb) <= a * b <= ma * mb) by (nonlinear_arith)
        requires
            0 <= ma,
            0 <= mb,
            -ma <= a <= ma,
            -mb <= b <= mb,
    ;
    assert(0 <= ma * mb) by (nonlinear_arith)
        requires
            0 <= ma,
            0 <= mb,
    ;
    lemma_tdiv_mag_quotient(a * b, MICRO as int, ma * mb);
}

/// Fixed-point multiplication: the product of two micro-unit scalars, scaled
/// back down with truncation toward zero.
pub fn fixed_mul(a: i64, b: i64) -> (r: i64)
    requires
        -FX_LIMIT <= a <= FX_LIMIT,
        -FX_LIMIT <= b <= FX_LIMIT,
    ensures
        r == fx_mul(a as int, b as int),
{
    proof {
        assert(-9_000_000_000_000_000_000 <= a as int * b as int <= 9_000_000_000_000_000_000)
            by (nonlinear_arith)
            requires
                -FX_LIMIT <= a <= FX_LIMIT,
                -FX_LIMIT <= b <= FX_LIMIT,
        ;
    }
    let p: i64 = a * b;
    if p >= 0 {
        proof {
            lemma_tdiv_mag(p as int, MICRO as int, 9_000_000_000_000_000_000);
        }
        ((p as u64) / 1_000_000u64) as i64
    } else {
        proof {
            lemma_tdiv_mag(p as int, MICRO as int, 9_000_000_000_000_000_000);
        }
        -((((-p) as u64) / 1_000_000u64) as i64)
    }
}

/// The viewport aspect ratio in micro-units: width over height, truncated.
/// Recomputed before each frame so that resizes are honored by the next
/// assembled frame.
pub fn aspect_ratio_micro(width: u32, height: u32) -> (r: i64)
    requires
        height > 0,
    ensures
        r == (width as int * MICRO as int) / (height as int),
{
    let scaled: u64 = (width as u64) * 1_000_000u64;
    (scaled / (height as u64)) as i64
}

} // verus!
