//! Integer forms of the rounding rules that the ball's motion uses.
use vstd::prelude::*;
use vstd::arithmetic::div_mod::lemma_fundamental_div_mod_converse;

verus! {

/// The least integer `q` with `n <= q * d` (the ceiling of `n / d`), for `d > 0`.
pub open spec fn ceil_div(n: int, d: int) -> int {
    -((-n) / d)
}

/// Remainder of `v` by `UNIT` that keeps the sign of `v`: the fixed-point
/// form of `v % 1.0`.
pub open spec fn rem_unit(v: int) -> int {
    if v >= 0 {
        v % 1_000_000
    } else {
        -((-v) % 1_000_000)
    }
}

/// `v * 1.5`, rounded toward zero.
pub open spec fn three_halves(v: int) -> int {
    if v >= 0 {
        (3 * v) / 2
    } else {
        -((-3 * v) / 2)
    }
}

/// Ceiling of `n / d`.
pub fn ceil_div_exec(n: i128, d: i128) -> (q: i128)
    requires
        d > 0,
        -0x1_0000_0000_0000_0000_0000_0000 < n < 0x1_0000_0000_0000_0000_0000_0000,
        d < 0x1_0000_0000_0000_0000,
    ensures
        q == ceil_div(n as int, d as int),
        -0x2_0000_0000_0000_0000_0000_0000 < q < 0x2_0000_0000_0000_0000_0000_0000,
{
    if n >= 0 {
        let q = (n + d - 1) / d;
        proof {
            let m = (n + d - 1) as int;
            let r = m % (d as int);
            vstd::arithmetic::div_mod::lemma_fundamental_div_mod(m, d as int);
            vstd::arithmetic::div_mod::lemma_mod_pos_bound(m, d as int);
            assert(-n == (-q) * d + (d - 1 - r)) by (nonlinear_arith)
                requires
                    m == n + d - 1,
                    m == d * q + r,
            ;
            lemma_fundamental_div_mod_converse(-n, d as int, -q, d - 1 - r);
            vstd::arithmetic::div_mod::lemma_div_is_ordered_by_denominator(m, 1, d as int);
        }
        q
    } else {
        let m: i128 = -n;
        proof {
            vstd::arithmetic::div_mod::lemma_div_is_ordered_by_denominator(m as int, 1, d as int);
            vstd::arithmetic::div_mod::lemma_div_pos_is_pos(m as int, d as int);
        }
        -(m / d)
    }
}

/// Fixed-point `v % 1.0`, for `v` held in micro-units.
pub fn rem_unit_exec(v: i64) -> (r: i64)
    requires
        v > i64::MIN,
    ensures
        r == rem_unit(v as int),
        -1_000_000 < r < 1_000_000,
{
    if v >= 0 {
        v % 1_000_000
    } else {
        let m: i64 = -v;
        -(m % 1_000_000)
    }
}

/// Fixed-point `v * 1.5`, rounded toward zero.
pub fn three_halves_exec(v: i32) -> (r: i64)
    ensures
        r == three_halves(v as int),
{
    let w: i64 = v as i64;
    if w >= 0 {
        (3 * w) / 2
    } else {
        let m: i64 = (0 - w) * 3;
        -(m / 2)
    }
}

} // verus!
