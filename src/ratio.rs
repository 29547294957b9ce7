//! Exact rational multipliers and the rounding modes of the damage formula.

use vstd::prelude::*;
use vstd::arithmetic::div_mod::{
    lemma_div_is_ordered, lemma_div_multiples_vanish, lemma_multiply_divide_le,
    lemma_multiply_divide_lt,
};
use vstd::arithmetic::mul::lemma_mul_inequality;

verus! {

/// A non-negative rational multiplier `num / den`.
#[derive(Clone, Copy, Debug, PartialEq, Eq, Structural)]
pub struct Ratio {
    pub num: u32,
    pub den: u32,
}

/// `floor(x * n / d)`.
pub open spec fn floor_mul(x: int, n: int, d: int) -> int {
    x * n / d
}

/// `ceil(x * n / d)`.
pub open spec fn ceil_mul(x: int, n: int, d: int) -> int {
    (x * n + d - 1) / d
}

/// `x * n / d` rounded to the nearest integer, halves away from zero.
pub open spec fn round_mul(x: int, n: int, d: int) -> int {
    (2 * (x * n) + d) / (2 * d)
}

/// The game's biased rounding `round(x * n / d - 0.00001)`, computed exactly:
/// `floor(x * n / d - 1/100000 + 1/2)`.
pub open spec fn poke_round_mul(x: int, n: int, d: int) -> int {
    (100000 * (x * n) + 49999 * d) / (100000 * d)
}

impl Ratio {
    pub open spec fn wf(self) -> bool {
        self.den > 0
    }

    pub fn new(num: u32, den: u32) -> (r: Ratio)
        requires
            den > 0,
        ensures
            r.num == num,
            r.den == den,
            r.wf(),
    {
        Ratio { num, den }
    }
}

/// Scaling by a ratio of at most `k` gives at most `k` times the value.
pub proof fn lemma_scaled_le(x: int, n: int, d: int, k: int)
    requires
        0 <= x,
        0 <= n,
        0 < d,
        0 <= k,
        n <= k * d,
    ensures
        floor_mul(x, n, d) <= k * x,
        poke_round_mul(x, n, d) <= k * x,
{
    assert(x * n <= d * (k * x)) by (nonlinear_arith)
        requires
            0 <= x,
            n <= k * d,
    ;
    lemma_multiply_divide_le(x * n, d, k * x);
    assert(100000 * (x * n) + 49999 * d < (100000 * d) * (k * x + 1)) by (nonlinear_arith)
        requires
            x * n <= d * (k * x),
            0 < d,
    ;
    lemma_multiply_divide_lt(100000 * (x * n) + 49999 * d, 100000 * d, k * x + 1);
}

/// Scaling by a fixed ratio keeps the order of values.
pub proof fn lemma_scaled_mono(x: int, y: int, n: int, d: int)
    requires
        0 <= x <= y,
        0 <= n,
        0 < d,
    ensures
        floor_mul(x, n, d) <= floor_mul(y, n, d),
        poke_round_mul(x, n, d) <= poke_round_mul(y, n, d),
{
    lemma_mul_inequality(x, y, n);
    lemma_div_is_ordered(x * n, y * n, d);
    lemma_div_is_ordered(100000 * (x * n) + 49999 * d, 100000 * (y * n) + 49999 * d, 100000 * d);
}

/// Biased rounding leaves a whole product unchanged.
pub proof fn lemma_poke_whole(x: int, h: int)
    requires
        0 <= x,
        0 <= h,
    ensures
        poke_round_mul(x, h, 1) == x * h,
{
    let m = x * h;
    assert(0 <= m) by (nonlinear_arith)
        requires
            0 <= x,
            0 <= h,
            m == x * h,
    ;
    lemma_multiply_divide_lt(100000 * m + 49999, 100000, m + 1);
    lemma_div_multiples_vanish(m, 100000);
    lemma_div_is_ordered(100000 * m, 100000 * m + 49999, 100000);
}

/// A smaller ratio scales to no more, rounding down.
pub proof fn lemma_smaller_ratio(x: int, n1: int, d1: int, n2: int, d2: int)
    requires
        0 <= x,
        0 <= n1,
        0 < d1,
        0 < d2,
        n1 * d2 <= n2 * d1,
    ensures
        floor_mul(x, n1, d1) <= floor_mul(x, n2, d2),
{
    let q = x * n1 / d1;
    vstd::arithmetic::div_mod::lemma_fundamental_div_mod(x * n1, d1);
    vstd::arithmetic::div_mod::lemma_mod_pos_bound(x * n1, d1);
    assert(q * d1 <= x * n1) by (nonlinear_arith)
        requires
            x * n1 == d1 * q + (x * n1) % d1,
            0 <= (x * n1) % d1,
    ;
    assert(q * d2 <= x * n2) by (nonlinear_arith)
        requires
            q * d1 <= x * n1,
            n1 * d2 <= n2 * d1,
            0 <= x,
            0 < d1,
            0 < d2,
    ;
    lemma_div_is_ordered(q * d2, x * n2, d2);
    lemma_div_multiples_vanish(q, d2);
    assert(d2 * q == q * d2) by (nonlinear_arith);
}

/// Scaling a non-negative value gives a non-negative value.
pub proof fn lemma_scaled_nonneg(x: int, n: int, d: int)
    requires
        0 <= x,
        0 <= n,
        0 < d,
    ensures
        0 <= floor_mul(x, n, d),
        0 <= poke_round_mul(x, n, d),
{
    lemma_scaled_mono(0, x, n, d);
}

} // verus!
