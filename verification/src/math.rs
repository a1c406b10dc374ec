//! Exact proportional arithmetic for fees and payouts.
//!
//! All shares are computed as `floor(a * b / c)` at full intermediate
//! precision; the division lemmas here bound such shares so that payouts
//! can never exceed the reward pool.

use vstd::arithmetic::div_mod::{
    lemma_div_by_multiple, lemma_div_is_ordered, lemma_div_pos_is_pos, lemma_fundamental_div_mod,
    lemma_hoist_over_denominator,
};
use vstd::arithmetic::mul::lemma_mul_inequality;
use vstd::prelude::*;

verus! {

/// Relies on `cosmwasm_std::Uint128::checked_multiply_ratio`: it returns
/// `floor(a * b / c)` computed at 256-bit intermediate precision, and an
/// error exactly when the denominator is zero or the floored quotient does
/// not fit in `u128`.
#[verifier::external_body]
pub fn checked_mul_ratio(a: u128, b: u128, c: u128) -> (r: Option<u128>)
    ensures
        r is Some <==> (c != 0 && (a as int) * (b as int) / (c as int) <= u128::MAX as int),
        r matches Some(q) ==> q as int == (a as int) * (b as int) / (c as int),
{
    match cosmwasm_std::Uint128::new(a).checked_multiply_ratio(b, c) {
        Ok(v) => Some(v.u128()),
        Err(_) => None,
    }
}

/// A proportional share of `a` with a ratio `b / c` at most one never
/// exceeds `a`.
pub proof fn lemma_mul_div_le(a: int, b: int, c: int)
    requires
        0 <= a,
        0 <= b <= c,
        0 < c,
    ensures
        a * b / c <= a,
{
    lemma_mul_inequality(b, c, a);
    assert(a * b == b * a) by (nonlinear_arith);
    assert(a * c == c * a) by (nonlinear_arith);
    lemma_div_is_ordered(a * b, a * c, c);
    lemma_div_by_multiple(a, c);
}

/// Rounding down loses value: the floored shares of two parts never sum to
/// more than the floored share of the whole.
pub proof fn lemma_div_plus_le(x: int, y: int, c: int)
    requires
        0 <= x,
        0 <= y,
        0 < c,
    ensures
        x / c + y / c <= (x + y) / c,
{
    lemma_fundamental_div_mod(x, c);
    lemma_fundamental_div_mod(y, c);
    let q = x / c + y / c;
    let r = x % c + y % c;
    assert(x + y == c * q + r) by (nonlinear_arith)
        requires
            x == c * (x / c) + x % c,
            y == c * (y / c) + y % c,
            q == x / c + y / c,
            r == x % c + y % c,
    ;
    lemma_hoist_over_denominator(r, q, c as nat);
    lemma_div_pos_is_pos(r, c);
}

/// Monotonicity of the share in the numerator product.
pub proof fn lemma_mul_div_ordered(a: int, b1: int, b2: int, c: int)
    requires
        0 <= a,
        0 <= b1 <= b2,
        0 < c,
    ensures
        a * b1 / c <= a * b2 / c,
{
    lemma_mul_inequality(b1, b2, a);
    assert(a * b1 == b1 * a) by (nonlinear_arith);
    assert(a * b2 == b2 * a) by (nonlinear_arith);
    lemma_div_is_ordered(a * b1, a * b2, c);
}

} // verus!
