//! Dead-reckoning pose estimation from cumulative wheel ticks.
//!
//! The estimator keeps the last seen tick counts, a position in Q16.16
//! millimetres and a heading in Q16.16 radians.  The heading is not
//! wrapped: it grows without bound (up to saturation).  Each update
//! integrates the per-wheel distance deltas along the heading held
//! *before* the angular increment.  Queries round to whole millimetres
//! and milliradians at the boundary; nothing is rounded internally.

use vstd::prelude::*;

use crate::fixed::iabs;
use crate::fixed::lemma_qmul_nonneg;
use crate::fixed::lemma_qmul_unit;
use crate::fixed::lemma_rdiv_exact;
use crate::fixed::lemma_rdiv_neg;
use crate::fixed::lemma_rdiv_zero;
use crate::fixed::qdiv;
use crate::fixed::qdiv64;
use crate::fixed::qmul;
use crate::fixed::qmul64;
use crate::fixed::rdiv;
use crate::fixed::rdiv_wide_sat;
use crate::fixed::rdiv64;
use crate::fixed::sat;
use crate::fixed::sat_add64;
use crate::fixed::sat_narrow;
use crate::fixed::sat_sub64;
use crate::fixed::within_sat;
use crate::fixed::QSCALE;
use crate::navigation::tick_distance;
use crate::navigation::Coord;
use crate::navigation::PIDParameters;
use crate::trig::cos_q;
use crate::trig::cos_q16;
use crate::trig::lemma_trig_at_zero;
use crate::trig::sin_q;
use crate::trig::sin_q16;
use crate::units::MilliMeter;

verus! {

/// The robot's estimated pose, fed by the coder wheels.
#[derive(Debug, Copy, Clone)]
pub struct Odometry {
    /// Last seen cumulative left ticks.
    pub left_ticks: i64,
    /// Last seen cumulative right ticks.
    pub right_ticks: i64,
    /// x coordinate in Q16.16 millimetres.
    pub x: i64,
    /// y coordinate in Q16.16 millimetres.
    pub y: i64,
    /// Heading in Q16.16 radians, unbounded (not wrapped).
    pub angle: i64,
}

/// The pose after one update on cumulative tick counts: per-wheel
/// distance deltas since the last counts, their mean moved along the
/// heading held before the increment, and the heading advanced by the
/// wheel-difference over the inter-axial length.
pub open spec fn odo_next(o: Odometry, lt: i64, rt: i64, p: PIDParameters) -> Odometry {
    let dtl = sat(lt - o.left_ticks);
    let dtr = sat(rt - o.right_ticks);
    let dl = tick_distance(p.coder_radius, p.left_wheel_coef, p.ticks_per_turn, dtl);
    let dr = tick_distance(p.coder_radius, p.right_wheel_coef, p.ticks_per_turn, dtr);
    let dist = sat(rdiv(sat(dl + dr), 2));
    let adiff = qdiv(sat(dr - dl), p.inter_axial_length as int);
    Odometry {
        left_ticks: lt,
        right_ticks: rt,
        x: sat(o.x + qmul(dist, cos_q(o.angle as int))) as i64,
        y: sat(o.y + qmul(dist, sin_q(o.angle as int))) as i64,
        angle: sat(o.angle + adiff) as i64,
    }
}

impl Odometry {
    /// Pose and tick memory within the saturation range.
    pub open spec fn wf(&self) -> bool {
        within_sat(self.x as int) && within_sat(self.y as int) && within_sat(self.angle as int)
    }

    /// A fresh estimator: everything at zero.
    pub fn new() -> (r: Odometry)
        ensures
            r == (Odometry { left_ticks: 0, right_ticks: 0, x: 0, y: 0, angle: 0 }),
            r.wf(),
    {
        Odometry { left_ticks: 0, right_ticks: 0, x: 0, y: 0, angle: 0 }
    }

    /// Hard pose overwrite: position in whole millimetres, heading in
    /// milliradians, both converted to the internal fixed point.
    pub fn set_position_and_angle(&mut self, new_pos: Coord, new_angle: i64)
        ensures
            final(self).x == sat(new_pos.x.0 * (QSCALE as int)),
            final(self).y == sat(new_pos.y.0 * (QSCALE as int)),
            final(self).angle == sat(rdiv(new_angle * (QSCALE as int), 1000)),
            final(self).left_ticks == old(self).left_ticks,
            final(self).right_ticks == old(self).right_ticks,
            final(self).wf(),
    {
        self.x = sat_narrow((new_pos.x.0 as i128) * (QSCALE as i128));
        self.y = sat_narrow((new_pos.y.0 as i128) * (QSCALE as i128));
        proof {
            crate::fixed::lemma_product_bound(new_angle as int, QSCALE as int);
        }
        self.angle = rdiv_wide_sat((new_angle as i128) * (QSCALE as i128), 1000);
    }

    /// The position, rounded to whole millimetres at this boundary.
    pub fn get_position(&self) -> (r: Coord)
        ensures
            r.x.0 == sat(rdiv(self.x as int, QSCALE as int)),
            r.y.0 == sat(rdiv(self.y as int, QSCALE as int)),
    {
        Coord {
            x: MilliMeter(rdiv64(self.x, QSCALE)),
            y: MilliMeter(rdiv64(self.y, QSCALE)),
        }
    }

    /// The heading, rounded to milliradians at this boundary.
    pub fn get_angle(&self) -> (r: i64)
        ensures
            r == sat(rdiv(self.angle * 1000, QSCALE as int)),
    {
        proof {
            crate::fixed::lemma_product_bound(self.angle as int, 1000);
        }
        rdiv_wide_sat((self.angle as i128) * 1000, QSCALE as i128)
    }

    /// Integrate one reading of the cumulative tick counts.
    pub fn update(&mut self, left_ticks: i64, right_ticks: i64, params: &PIDParameters)
        requires
            old(self).wf(),
            params.valid(),
        ensures
            *final(self) == odo_next(*old(self), left_ticks, right_ticks, *params),
            final(self).wf(),
    {
        let dtl = sat_narrow((left_ticks as i128) - (self.left_ticks as i128));
        let dtr = sat_narrow((right_ticks as i128) - (self.right_ticks as i128));
        let (dist_left, dist_right) = params.ticks_to_distance(dtl, dtr);
        let dist_diff = rdiv64(sat_add64(dist_left, dist_right), 2);
        let angle_diff = qdiv64(sat_sub64(dist_right, dist_left), params.inter_axial_length);
        let sin = sin_q16(self.angle);
        let cos = cos_q16(self.angle);
        self.x = sat_add64(self.x, qmul64(dist_diff, cos));
        self.y = sat_add64(self.y, qmul64(dist_diff, sin));
        self.angle = sat_add64(self.angle, angle_diff);
        self.left_ticks = left_ticks;
        self.right_ticks = right_ticks;
    }
}

/// Driving straight at heading zero: an update with equal left and right
/// tick deltas (and equal wheel coefficients) leaves the heading and the
/// `y` coordinate unchanged, and advances `x` by exactly the per-wheel
/// tick distance `ticks * two_pi * radius * coef / ticks_per_turn` —
/// monotonically, once the delta and the coefficients are nonnegative.
/// Each such update preserves the premises, so any number of them keeps
/// `y` at its start and heading at zero.
pub proof fn lemma_straight_at_zero_heading(o: Odometry, lt: i64, rt: i64, p: PIDParameters)
    requires
        o.wf(),
        p.valid(),
        o.angle == 0,
        p.left_wheel_coef == p.right_wheel_coef,
        sat(lt - o.left_ticks) == sat(rt - o.right_ticks),
        within_sat(
            2 * tick_distance(
                p.coder_radius,
                p.left_wheel_coef,
                p.ticks_per_turn,
                sat(lt - o.left_ticks),
            ),
        ),
    ensures
        odo_next(o, lt, rt, p).y == o.y,
        odo_next(o, lt, rt, p).angle == 0,
        odo_next(o, lt, rt, p).x == sat(
            o.x + tick_distance(
                p.coder_radius,
                p.left_wheel_coef,
                p.ticks_per_turn,
                sat(lt - o.left_ticks),
            ),
        ),
        sat(lt - o.left_ticks) >= 0 && per_turn_nonneg(p) ==> odo_next(o, lt, rt, p).x >= o.x,
        odo_next(o, lt, rt, p).wf(),
{
    let dtl = sat(lt - o.left_ticks);
    let d = tick_distance(p.coder_radius, p.left_wheel_coef, p.ticks_per_turn, dtl);
    lemma_trig_at_zero();
    lemma_rdiv_exact(d, 2);
    assert(d * 2 == d + d) by (nonlinear_arith);
    assert(sat(rdiv(sat(d + d), 2)) == d);
    lemma_rdiv_zero(p.inter_axial_length as int);
    lemma_qmul_unit(d);
    assert(d * 0 == 0) by (nonlinear_arith);
    lemma_rdiv_zero(QSCALE as int);
    assert(qmul(d, 0) == 0);
    if dtl >= 0 && per_turn_nonneg(p) {
        vstd::arithmetic::div_mod::lemma_div_pos_is_pos(
            2 * iabs(dtl * crate::navigation::per_turn(p.coder_radius, p.left_wheel_coef))
                + iabs(p.ticks_per_turn as int),
            2 * iabs(p.ticks_per_turn as int),
        );
        assert(dtl * crate::navigation::per_turn(p.coder_radius, p.left_wheel_coef) >= 0)
            by (nonlinear_arith)
            requires
                dtl >= 0,
                crate::navigation::per_turn(p.coder_radius, p.left_wheel_coef) >= 0,
        ;
    }
}

/// Whether a configuration's left wheel runs a nonnegative distance per
/// turn, as any forward-counting geometry does.
pub open spec fn per_turn_nonneg(p: PIDParameters) -> bool {
    crate::navigation::per_turn(p.coder_radius, p.left_wheel_coef) >= 0
}

/// Round trip: an update with equal tick deltas `d` on both wheels,
/// followed by one returning to the original counts, restores position
/// and heading exactly — the wheel coefficients being equal (so the
/// heading never moves) and the position staying inside the saturation
/// range.
pub proof fn lemma_update_round_trip(o: Odometry, lt: i64, rt: i64, p: PIDParameters)
    requires
        o.wf(),
        p.valid(),
        p.left_wheel_coef == p.right_wheel_coef,
        sat(lt - o.left_ticks) == sat(rt - o.right_ticks),
        ({
            let d = tick_distance(
                p.coder_radius,
                p.left_wheel_coef,
                p.ticks_per_turn,
                sat(lt - o.left_ticks),
            );
            within_sat(2 * d) && within_sat(o.x + qmul(d, cos_q(o.angle as int))) && within_sat(
                o.y + qmul(d, sin_q(o.angle as int)),
            )
        }),
    ensures
        ({
            let back = odo_next(odo_next(o, lt, rt, p), o.left_ticks, o.right_ticks, p);
            back.x == o.x && back.y == o.y && back.angle == o.angle && back.left_ticks
                == o.left_ticks && back.right_ticks == o.right_ticks
        }),
{
    let dtl = sat(lt - o.left_ticks);
    let per = crate::navigation::per_turn(p.coder_radius, p.left_wheel_coef);
    let d = tick_distance(p.coder_radius, p.left_wheel_coef, p.ticks_per_turn, dtl);
    let o1 = odo_next(o, lt, rt, p);

    // Forward leg: equal deltas, so the heading stays and both
    // coordinates advance by the projections of `d`.
    lemma_rdiv_exact(d, 2);
    assert(d * 2 == d + d) by (nonlinear_arith);
    lemma_rdiv_zero(p.inter_axial_length as int);
    assert(o1.angle == o.angle);
    assert(o1.x == o.x + qmul(d, cos_q(o.angle as int)));
    assert(o1.y == o.y + qmul(d, sin_q(o.angle as int)));

    // Return leg: the deltas negate, hence so do the distances.
    assert(sat(o.left_ticks - lt) == -dtl);
    assert((-dtl) * per == -(dtl * per)) by (nonlinear_arith);
    lemma_rdiv_neg(dtl * per, p.ticks_per_turn as int);
    let dback = tick_distance(p.coder_radius, p.left_wheel_coef, p.ticks_per_turn, -dtl);
    assert(dback == -d);
    assert((-d) * 2 == -(d + d)) by (nonlinear_arith);
    lemma_rdiv_exact(-d, 2);
    assert(sat(rdiv(sat(dback + dback), 2)) == -d);
    crate::fixed::lemma_qmul_neg(d, cos_q(o.angle as int));
    crate::fixed::lemma_qmul_neg(d, sin_q(o.angle as int));
    lemma_rdiv_zero(p.inter_axial_length as int);
}

} // verus!
