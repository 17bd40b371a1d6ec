//! Q16.16 fixed-point arithmetic on `i64`.
//!
//! A value represents `v / 65536` of its physical unit.  Every operation
//! saturates its result to `[-SAT_LIMIT, SAT_LIMIT]`, so the arithmetic is
//! total: no operation here panics or overflows.  Divisions round to the
//! nearest representable value, half away from zero, which keeps them
//! symmetric under negation.

use vstd::prelude::*;

verus! {

/// The fixed-point scale: one unit is `QSCALE` raw steps.
pub const QSCALE: i64 = 65536;

/// Saturation bound for every fixed-point quantity (two to the 45th).
pub const SAT_LIMIT: i64 = 0x2000_0000_0000;

/// Absolute value of a mathematical integer.
pub open spec fn iabs(a: int) -> int {
    if a >= 0 {
        a
    } else {
        -a
    }
}

/// Clamp a mathematical integer into the saturation range.
pub open spec fn sat(v: int) -> int {
    if v > SAT_LIMIT {
        SAT_LIMIT as int
    } else if v < -(SAT_LIMIT as int) {
        -(SAT_LIMIT as int)
    } else {
        v
    }
}

/// Rounded division, nearest integer with halves away from zero.
/// Meaningful for `b != 0`; symmetric in the sign of either argument.
pub open spec fn rdiv(a: int, b: int) -> int {
    let q = (2 * iabs(a) + iabs(b)) / (2 * iabs(b));
    if (a >= 0) == (b >= 0) {
        q
    } else {
        -q
    }
}

/// Fixed-point product, rounded then saturated.
pub open spec fn qmul(a: int, b: int) -> int {
    sat(rdiv(a * b, QSCALE as int))
}

/// Fixed-point quotient, rounded then saturated.
pub open spec fn qdiv(a: int, b: int) -> int {
    sat(rdiv(a * (QSCALE as int), b))
}

/// Saturated sum.
pub open spec fn sat_add(a: int, b: int) -> int {
    sat(a + b)
}

/// Saturated difference.
pub open spec fn sat_sub(a: int, b: int) -> int {
    sat(a - b)
}

/// Whether a value lies in the saturation range.
pub open spec fn within_sat(v: int) -> bool {
    -(SAT_LIMIT as int) <= v <= SAT_LIMIT as int
}

/// Clamp into `[lo, hi]`.
pub open spec fn clamp_s(v: int, lo: int, hi: int) -> int {
    if v > hi {
        hi
    } else if v < lo {
        lo
    } else {
        v
    }
}

/// Truncating division, toward zero, as the machine division operator works.
/// Meaningful for `b != 0`.
pub open spec fn tdiv(a: int, b: int) -> int {
    let q = iabs(a) / iabs(b);
    if (a >= 0) == (b >= 0) {
        q
    } else {
        -q
    }
}

/// Truncating division on `i64`, the one pair that overflows left out.
pub fn tdiv64(a: i64, b: i64) -> (r: i64)
    requires
        b != 0,
        !(a == i64::MIN && b == -1),
    ensures
        r == tdiv(a as int, b as int),
{
    let m: u64 = if a >= 0 {
        a as u64
    } else {
        (-(a as i128)) as u64
    };
    let bm: u64 = if b >= 0 {
        b as u64
    } else {
        (-(b as i128)) as u64
    };
    let q: u64 = m / bm;
    proof {
        vstd::arithmetic::div_mod::lemma_div_is_ordered_by_denominator(m as int, 1, bm as int);
        if bm >= 2 {
            vstd::arithmetic::div_mod::lemma_div_is_ordered_by_denominator(m as int, 2, bm as int);
        }
    }
    if (a >= 0) == (b >= 0) {
        q as i64
    } else if q == 0x8000_0000_0000_0000 {
        i64::MIN
    } else {
        -(q as i64)
    }
}

/// Saturate a wide intermediate value into an `i64` fixed-point value.
pub fn sat_narrow(v: i128) -> (r: i64)
    ensures
        r == sat(v as int),
{
    if v > SAT_LIMIT as i128 {
        SAT_LIMIT
    } else if v < -(SAT_LIMIT as i128) {
        -SAT_LIMIT
    } else {
        v as i64
    }
}

/// Rounded division of a wide value by a positive divisor, then saturation.
pub fn rdiv_wide_sat(a: i128, b: i128) -> (r: i64)
    requires
        0 < b <= 0x8000_0000_0000_0000,
        iabs(a as int) <= 0x4000_0000_0000_0000_0000_0000_0000_0000,
    ensures
        r == sat(rdiv(a as int, b as int)),
{
    let neg = a < 0;
    let m: u128 = if neg {
        (-a) as u128
    } else {
        a as u128
    };
    let bm: u128 = b as u128;
    let q: u128 = (2 * m + bm) / (2 * bm);
    assert(q == (2 * iabs(a as int) + iabs(b as int)) / (2 * iabs(b as int)));
    if q > SAT_LIMIT as u128 {
        if neg {
            -SAT_LIMIT
        } else {
            SAT_LIMIT
        }
    } else if neg {
        -(q as i64)
    } else {
        q as i64
    }
}

/// Truncating division of a wide value by a positive divisor, then
/// saturation.
pub fn tdiv_wide_sat(a: i128, b: i128) -> (r: i64)
    requires
        0 < b <= 0x8000_0000_0000_0000,
        iabs(a as int) <= 0x4000_0000_0000_0000_0000_0000_0000_0000,
    ensures
        r == sat(tdiv(a as int, b as int)),
{
    let neg = a < 0;
    let m: u128 = if neg {
        (-a) as u128
    } else {
        a as u128
    };
    let q: u128 = m / (b as u128);
    if q > SAT_LIMIT as u128 {
        if neg {
            -SAT_LIMIT
        } else {
            SAT_LIMIT
        }
    } else if neg {
        -(q as i64)
    } else {
        q as i64
    }
}

/// Rounded division of an `i64` by a positive `i64`.
pub fn rdiv64(a: i64, b: i64) -> (r: i64)
    requires
        b > 0,
    ensures
        r == sat(rdiv(a as int, b as int)),
{
    rdiv_wide_sat(a as i128, b as i128)
}

/// Fixed-point multiplication.
pub fn qmul64(a: i64, b: i64) -> (r: i64)
    ensures
        r == qmul(a as int, b as int),
{
    proof {
        lemma_product_bound(a as int, b as int);
    }
    let p: i128 = (a as i128) * (b as i128);
    rdiv_wide_sat(p, QSCALE as i128)
}

/// Fixed-point division; the divisor must be nonzero.
pub fn qdiv64(a: i64, b: i64) -> (r: i64)
    requires
        b != 0,
    ensures
        r == qdiv(a as int, b as int),
{
    proof {
        lemma_product_bound(a as int, QSCALE as int);
    }
    let p: i128 = (a as i128) * (QSCALE as i128);
    if b > 0 {
        rdiv_wide_sat(p, b as i128)
    } else {
        let r = rdiv_wide_sat(-p, -(b as i128));
        proof {
            lemma_rdiv_negate(p as int, b as int);
        }
        r
    }
}

/// The product of two `i64` values stays within the wide working range.
pub proof fn lemma_product_bound(a: int, b: int)
    requires
        -0x8000_0000_0000_0000 <= a <= 0x7fff_ffff_ffff_ffff,
        -0x8000_0000_0000_0000 <= b <= 0x7fff_ffff_ffff_ffff,
    ensures
        iabs(a * b) <= 0x4000_0000_0000_0000_0000_0000_0000_0000,
{
    assert(iabs(a * b) <= 0x4000_0000_0000_0000_0000_0000_0000_0000) by (nonlinear_arith)
        requires
            -0x8000_0000_0000_0000 <= a <= 0x7fff_ffff_ffff_ffff,
            -0x8000_0000_0000_0000 <= b <= 0x7fff_ffff_ffff_ffff,
    ;
}

/// Negating numerator and denominator leaves a truncated quotient
/// unchanged.
pub proof fn lemma_tdiv_negate(a: int, b: int)
    requires
        b != 0,
    ensures
        tdiv(-a, -b) == tdiv(a, b),
{
    if a == 0 {
        assert(iabs(0) == 0);
        vstd::arithmetic::div_mod::lemma_div_of0(iabs(b));
    }
}

/// Negating numerator and denominator leaves a rounded quotient unchanged.
proof fn lemma_rdiv_negate(a: int, b: int)
    requires
        b != 0,
    ensures
        rdiv(-a, -b) == rdiv(a, b),
{
    if a == 0 {
        vstd::arithmetic::div_mod::lemma_basic_div(iabs(b), 2 * iabs(b));
    }
}

/// Saturated addition.
pub fn sat_add64(a: i64, b: i64) -> (r: i64)
    ensures
        r == sat_add(a as int, b as int),
{
    sat_narrow(a as i128 + b as i128)
}

/// Saturated subtraction.
pub fn sat_sub64(a: i64, b: i64) -> (r: i64)
    ensures
        r == sat_sub(a as int, b as int),
{
    sat_narrow(a as i128 - b as i128)
}

/// Euclidean remainder of an `i64` by a positive modulus: the result is
/// always in `[0, m)`, also for negative dividends.
pub fn emod64(a: i64, m: i64) -> (r: i64)
    requires
        m > 0,
    ensures
        r == (a as int) % (m as int),
        0 <= r < m,
{
    let mm: u128 = m as u128;
    if a >= 0 {
        let am: u128 = (a as u128) % mm;
        am as i64
    } else {
        let x: i128 = -(a as i128);
        let am: u128 = (x as u128) % mm;
        proof {
            let xi = x as int;
            let mi = m as int;
            vstd::arithmetic::div_mod::lemma_fundamental_div_mod(xi, mi);
            let q = xi / mi;
            let rr = xi % mi;
            assert(mi * (-q) == -(mi * q)) by (nonlinear_arith);
            assert(mi * (-q - 1) == -(mi * q) - mi) by (nonlinear_arith);
            if rr == 0 {
                vstd::arithmetic::div_mod::lemma_fundamental_div_mod_converse(
                    a as int,
                    mi,
                    -q,
                    0,
                );
            } else {
                vstd::arithmetic::div_mod::lemma_fundamental_div_mod_converse(
                    a as int,
                    mi,
                    -q - 1,
                    mi - rr,
                );
            }
        }
        if am == 0 {
            0
        } else {
            (mm - am) as i64
        }
    }
}

/// Rounded division of an exact multiple recovers the factor.
pub proof fn lemma_rdiv_exact(k: int, b: int)
    requires
        b > 0,
    ensures
        rdiv(k * b, b) == k,
{
    assert(iabs(k * b) == iabs(k) * b) by (nonlinear_arith)
        requires
            b > 0,
    ;
    assert(2 * (iabs(k) * b) + b == (2 * iabs(k) + 1) * b) by (nonlinear_arith);
    assert(2 * b == 2 * b);
    vstd::arithmetic::div_mod::lemma_div_multiples_vanish_quotient(b, 2 * iabs(k) + 1, 2);
    assert(((2 * iabs(k) + 1) * b) / (2 * b) == (2 * iabs(k) + 1) / 2);
    vstd::arithmetic::div_mod::lemma_fundamental_div_mod_converse(2 * iabs(k) + 1, 2, iabs(k), 1);
    assert((2 * iabs(k) + 1) / 2 == iabs(k));
    if k > 0 {
        assert(k * b > 0) by (nonlinear_arith)
            requires
                k > 0 && b > 0,
        ;
    } else if k < 0 {
        assert(k * b < 0) by (nonlinear_arith)
            requires
                k < 0 && b > 0,
        ;
    }
}

/// Rounded division of zero is zero.
pub proof fn lemma_rdiv_zero(b: int)
    requires
        b != 0,
    ensures
        rdiv(0, b) == 0,
{
    vstd::arithmetic::div_mod::lemma_basic_div(iabs(b), 2 * iabs(b));
}

/// Rounded division is symmetric under negation of the dividend.
pub proof fn lemma_rdiv_neg(a: int, b: int)
    requires
        b != 0,
    ensures
        rdiv(-a, b) == -rdiv(a, b),
{
    if a == 0 {
        vstd::arithmetic::div_mod::lemma_basic_div(iabs(b), 2 * iabs(b));
    }
}

/// Multiplying by the unit `QSCALE` is saturation alone.
pub proof fn lemma_qmul_unit(d: int)
    ensures
        qmul(d, QSCALE as int) == sat(d),
{
    lemma_rdiv_exact(d, QSCALE as int);
}

/// A fixed-point product of nonnegative factors is nonnegative.
pub proof fn lemma_qmul_nonneg(a: int, b: int)
    requires
        a >= 0,
        b >= 0,
    ensures
        qmul(a, b) >= 0,
{
    assert(a * b >= 0) by (nonlinear_arith)
        requires
            a >= 0 && b >= 0,
    ;
    vstd::arithmetic::div_mod::lemma_div_pos_is_pos(
        2 * iabs(a * b) + iabs(QSCALE as int),
        2 * iabs(QSCALE as int),
    );
}

/// Fixed-point multiplication is symmetric under negation of either factor.
pub proof fn lemma_qmul_neg(a: int, b: int)
    ensures
        qmul(-a, b) == -qmul(a, b),
        qmul(a, -b) == -qmul(a, b),
{
    assert((-a) * b == -(a * b)) by (nonlinear_arith);
    assert(a * (-b) == -(a * b)) by (nonlinear_arith);
    lemma_rdiv_neg(a * b, QSCALE as int);
}

/// Clamp a value into `[lo, hi]`.
pub fn clamp64(v: i64, lo: i64, hi: i64) -> (r: i64)
    requires
        lo <= hi,
    ensures
        r == clamp_s(v as int, lo as int, hi as int),
{
    if v > hi {
        hi
    } else if v < lo {
        lo
    } else {
        v
    }
}

} // verus!
