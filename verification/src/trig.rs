//! Fixed-point sine and cosine on Q16.16 angles in radians.
//!
//! The full circle is `TWO_PI_Q` raw steps.  An arbitrary angle is first
//! reduced into `[0, TWO_PI_Q)` by Euclidean remainder, dispatched to one of
//! the four quadrants, and evaluated there by a truncated Taylor polynomial.
//! The result is clamped into `[-QSCALE, QSCALE]`, so callers always see a
//! value of magnitude at most one.  The absolute error against the real
//! functions is below two ten-thousandths, ample for millimetre-scale
//! dead-reckoning.

use vstd::prelude::*;

use crate::fixed::clamp_s;
use crate::fixed::clamp64;
use crate::fixed::emod64;
use crate::fixed::qmul;
use crate::fixed::qmul64;
use crate::fixed::rdiv;
use crate::fixed::rdiv64;
use crate::fixed::sat;
use crate::fixed::QSCALE;

verus! {

/// One full turn (two pi) in Q16.16 radians.
pub const TWO_PI_Q: i64 = 411775;

/// Half a turn (pi) in Q16.16 radians.
pub const PI_Q: i64 = 205887;

/// A quarter turn (pi over two) in Q16.16 radians.
pub const HALF_PI_Q: i64 = 102944;

/// Three quarter turns in Q16.16 radians.
pub const THREE_HALF_PI_Q: i64 = 308831;

/// An angle reduced into `[0, TWO_PI_Q)`.
pub open spec fn angle_reduce(a: int) -> int {
    a % (TWO_PI_Q as int)
}

/// Taylor polynomial for sine on the first quadrant, clamped to one unit.
pub open spec fn sin_poly(x: int) -> int {
    let x2 = qmul(x, x);
    let x3 = qmul(x2, x);
    let x5 = qmul(x3, x2);
    let x7 = qmul(x5, x2);
    clamp_s(
        x - sat(rdiv(x3, 6)) + sat(rdiv(x5, 120)) - sat(rdiv(x7, 5040)),
        -(QSCALE as int),
        QSCALE as int,
    )
}

/// Taylor polynomial for cosine on the first quadrant, clamped to one unit.
pub open spec fn cos_poly(x: int) -> int {
    let x2 = qmul(x, x);
    let x4 = qmul(x2, x2);
    let x6 = qmul(x4, x2);
    let x8 = qmul(x4, x4);
    clamp_s(
        QSCALE - sat(rdiv(x2, 2)) + sat(rdiv(x4, 24)) - sat(rdiv(x6, 720)) + sat(
            rdiv(x8, 40320),
        ),
        -(QSCALE as int),
        QSCALE as int,
    )
}

/// Fixed-point sine of an arbitrary Q16.16 angle.
pub open spec fn sin_q(a: int) -> int {
    let m = angle_reduce(a);
    if m < HALF_PI_Q {
        sin_poly(m)
    } else if m < PI_Q {
        cos_poly(m - HALF_PI_Q)
    } else if m < THREE_HALF_PI_Q {
        -sin_poly(m - PI_Q)
    } else {
        -cos_poly(m - THREE_HALF_PI_Q)
    }
}

/// Fixed-point cosine of an arbitrary Q16.16 angle.
pub open spec fn cos_q(a: int) -> int {
    let m = angle_reduce(a);
    if m < HALF_PI_Q {
        cos_poly(m)
    } else if m < PI_Q {
        -sin_poly(m - HALF_PI_Q)
    } else if m < THREE_HALF_PI_Q {
        -cos_poly(m - PI_Q)
    } else {
        sin_poly(m - THREE_HALF_PI_Q)
    }
}

fn sin_poly_exec(x: i64) -> (r: i64)
    requires
        0 <= x <= HALF_PI_Q,
    ensures
        r == sin_poly(x as int),
        -QSCALE <= r <= QSCALE,
{
    let x2 = qmul64(x, x);
    let x3 = qmul64(x2, x);
    let x5 = qmul64(x3, x2);
    let x7 = qmul64(x5, x2);
    let t3 = rdiv64(x3, 6);
    let t5 = rdiv64(x5, 120);
    let t7 = rdiv64(x7, 5040);
    clamp64(x - t3 + t5 - t7, -QSCALE, QSCALE)
}

fn cos_poly_exec(x: i64) -> (r: i64)
    requires
        0 <= x <= HALF_PI_Q,
    ensures
        r == cos_poly(x as int),
        -QSCALE <= r <= QSCALE,
{
    let x2 = qmul64(x, x);
    let x4 = qmul64(x2, x2);
    let x6 = qmul64(x4, x2);
    let x8 = qmul64(x4, x4);
    let t2 = rdiv64(x2, 2);
    let t4 = rdiv64(x4, 24);
    let t6 = rdiv64(x6, 720);
    let t8 = rdiv64(x8, 40320);
    clamp64(QSCALE - t2 + t4 - t6 + t8, -QSCALE, QSCALE)
}

/// Sine of a Q16.16 angle, within one unit of magnitude.
pub fn sin_q16(a: i64) -> (r: i64)
    ensures
        r == sin_q(a as int),
        -QSCALE <= r <= QSCALE,
{
    let m = emod64(a, TWO_PI_Q);
    if m < HALF_PI_Q {
        sin_poly_exec(m)
    } else if m < PI_Q {
        cos_poly_exec(m - HALF_PI_Q)
    } else if m < THREE_HALF_PI_Q {
        -sin_poly_exec(m - PI_Q)
    } else {
        -cos_poly_exec(m - THREE_HALF_PI_Q)
    }
}

/// Cosine of a Q16.16 angle, within one unit of magnitude.
pub fn cos_q16(a: i64) -> (r: i64)
    ensures
        r == cos_q(a as int),
        -QSCALE <= r <= QSCALE,
{
    let m = emod64(a, TWO_PI_Q);
    if m < HALF_PI_Q {
        cos_poly_exec(m)
    } else if m < PI_Q {
        -sin_poly_exec(m - HALF_PI_Q)
    } else if m < THREE_HALF_PI_Q {
        -cos_poly_exec(m - PI_Q)
    } else {
        sin_poly_exec(m - THREE_HALF_PI_Q)
    }
}

/// At angle zero the sine is exactly zero and the cosine exactly one unit.
pub proof fn lemma_trig_at_zero()
    ensures
        sin_q(0) == 0,
        cos_q(0) == QSCALE,
{
    assert(angle_reduce(0) == 0);
    crate::fixed::lemma_rdiv_zero(6);
    crate::fixed::lemma_rdiv_zero(120);
    crate::fixed::lemma_rdiv_zero(5040);
    crate::fixed::lemma_rdiv_zero(2);
    crate::fixed::lemma_rdiv_zero(24);
    crate::fixed::lemma_rdiv_zero(720);
    crate::fixed::lemma_rdiv_zero(40320);
    crate::fixed::lemma_rdiv_zero(QSCALE as int);
    assert(qmul(0, 0) == 0);
    assert(sin_poly(0) == 0);
    assert(cos_poly(0) == QSCALE);
}

} // verus!
