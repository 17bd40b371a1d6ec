//! The motion-control core: configuration, tick/distance conversion, and
//! the top-level controller that ties encoders, control loops, odometry
//! and stall detection together.

use vstd::prelude::*;

use crate::blocking::Blocking;
use crate::fixed::iabs;
use crate::fixed::lemma_product_bound;
use crate::fixed::lemma_tdiv_negate;
use crate::fixed::qmul;
use crate::fixed::qmul64;
use crate::fixed::rdiv;
use crate::fixed::rdiv_wide_sat;
use crate::fixed::rdiv64;
use crate::fixed::sat;
use crate::fixed::qdiv;
use crate::fixed::qdiv64;
use crate::fixed::sat_add64;
use crate::fixed::sat_sub64;
use crate::fixed::tdiv;
use crate::fixed::tdiv_wide_sat;
use crate::fixed::within_sat;
use crate::fixed::QSCALE;
use crate::fixed::SAT_LIMIT;
use crate::motor::Command;
use crate::odometry::Odometry;
use crate::pid::PolarController;
use crate::transmission::navigation::NavigationParametersFrame;
use crate::trig::TWO_PI_Q;
use crate::units::MilliMeter;

verus! {

/// A point on the table, in whole millimetres.
#[derive(Debug, Copy, Clone, PartialEq, Eq, Structural)]
pub struct Coord {
    /// The length component.
    pub x: MilliMeter,
    /// The width component.
    pub y: MilliMeter,
}

/// The configuration of the motion core.  Lengths are Q16.16 millimetres,
/// gains and speeds Q16.16 ratios; see the field comments.
#[derive(Debug, Copy, Clone, PartialEq, Eq, Structural)]
pub struct PIDParameters {
    /// Coder-wheel radius in Q16.16 millimetres.
    pub coder_radius: i64,
    /// Correction coefficient of the left coder wheel (Q16.16), carrying
    /// its counting direction.
    pub left_wheel_coef: i64,
    /// Correction coefficient of the right coder wheel (Q16.16), carrying
    /// direction and diameter mismatch.
    pub right_wheel_coef: i64,
    /// Encoder ticks in one wheel turn.
    pub ticks_per_turn: u16,
    /// Distance between the coder wheels in Q16.16 millimetres.
    pub inter_axial_length: i64,
    /// Proportional position gain (Q16.16).
    pub pos_kp: i64,
    /// Derivative position gain (Q16.16).
    pub pos_kd: i64,
    /// Proportional gain of the linear speed loop (Q16.16).
    pub pos_speed_kp: i64,
    /// Proportional orientation gain (Q16.16).
    pub orient_kp: i64,
    /// Derivative orientation gain (Q16.16).
    pub orient_kd: i64,
    /// Proportional gain of the angular speed loop (Q16.16).
    pub orient_speed_kp: i64,
    /// Sampling period in Q16.16 milliseconds.
    pub te: i64,
    /// Linear speed ceiling (Q16.16).
    pub max_lin_speed: i64,
    /// Angular speed ceiling (Q16.16).
    pub max_ang_speed: i64,
    /// Linear acceleration ceiling (Q16.16, per second).
    pub max_lin_acc: i64,
    /// Angular acceleration ceiling (Q16.16, per second).
    pub max_ang_acc: i64,
    /// Output magnitude ceiling.
    pub max_output: u16,
    /// Command threshold of the stall detector.
    pub command_threshold: u16,
    /// Distance threshold of the stall detector, in Q16.16 millimetres.
    pub distance_threshold: i64,
}

/// The Q16.16 distance one coder wheel runs in a full turn: the
/// circumference times the wheel's correction coefficient.
pub open spec fn per_turn(radius: i64, coef: i64) -> int {
    qmul(qmul(TWO_PI_Q as int, radius as int), coef as int)
}

/// The Q16.16 distance a wheel runs for a tick count.
pub open spec fn tick_distance(radius: i64, coef: i64, tpt: u16, ticks: int) -> int {
    sat(rdiv(ticks * per_turn(radius, coef), tpt as int))
}

/// The tick count a wheel shows for a whole-millimetre distance.
pub open spec fn distance_ticks(radius: i64, coef: i64, tpt: u16, mm: int) -> int {
    sat(tdiv(mm * (QSCALE as int) * (tpt as int), per_turn(radius, coef)))
}

impl PIDParameters {
    /// A configuration the core can run on: a positive period, positive
    /// geometry divisors, nonnegative ceilings, and every ratio within
    /// the saturation range.  The core does not check this itself;
    /// install only parameters that satisfy it.
    pub open spec fn valid(&self) -> bool {
        within_sat(self.coder_radius as int) && within_sat(self.left_wheel_coef as int)
            && within_sat(self.right_wheel_coef as int) && self.ticks_per_turn >= 1 && 1
            <= self.inter_axial_length <= SAT_LIMIT && within_sat(self.pos_kp as int) && within_sat(
            self.pos_kd as int,
        ) && within_sat(self.pos_speed_kp as int) && within_sat(self.orient_kp as int)
            && within_sat(self.orient_kd as int) && within_sat(self.orient_speed_kp as int) && 1
            <= self.te <= SAT_LIMIT && 0 <= self.max_lin_speed <= SAT_LIMIT && 0
            <= self.max_ang_speed <= SAT_LIMIT && 0 <= self.max_lin_acc <= SAT_LIMIT && 0
            <= self.max_ang_acc <= SAT_LIMIT && 0 <= self.distance_threshold <= SAT_LIMIT
    }

    /// New parameters from a received parameter frame: the frame's
    /// fixed-point ratios are taken as they are, its tenth-of-millimetre
    /// lengths divided by ten, and every other field inherited from
    /// `base`.  The result is not validated here.
    pub fn from_frame(base: &PIDParameters, params_frame: &NavigationParametersFrame) -> (r:
        PIDParameters)
        ensures
            r.coder_radius == sat(rdiv(params_frame.coder_radius * (QSCALE as int), 10)),
            r.left_wheel_coef == base.left_wheel_coef,
            r.right_wheel_coef == params_frame.right_wheel_coef,
            r.ticks_per_turn == base.ticks_per_turn,
            r.inter_axial_length == sat(
                rdiv(params_frame.inter_axial_length * (QSCALE as int), 10),
            ),
            r.pos_kp == params_frame.pos_kp,
            r.pos_kd == params_frame.pos_kd,
            r.orient_kp == params_frame.orient_kp,
            r.orient_kd == params_frame.orient_kd,
            r.pos_speed_kp == base.pos_speed_kp,
            r.orient_speed_kp == base.orient_speed_kp,
            r.te == base.te,
            r.max_lin_speed == base.max_lin_speed,
            r.max_ang_speed == base.max_ang_speed,
            r.max_lin_acc == base.max_lin_acc,
            r.max_ang_acc == base.max_ang_acc,
            r.max_output == base.max_output,
            r.command_threshold == base.command_threshold,
            r.distance_threshold == base.distance_threshold,
    {
        PIDParameters {
            coder_radius: rdiv64((params_frame.coder_radius as i64) * QSCALE, 10),
            left_wheel_coef: base.left_wheel_coef,
            right_wheel_coef: params_frame.right_wheel_coef as i64,
            ticks_per_turn: base.ticks_per_turn,
            inter_axial_length: rdiv64((params_frame.inter_axial_length as i64) * QSCALE, 10),
            pos_kp: params_frame.pos_kp as i64,
            pos_kd: params_frame.pos_kd as i64,
            orient_kp: params_frame.orient_kp as i64,
            orient_kd: params_frame.orient_kd as i64,
            ..*base
        }
    }

    /// Per-wheel distances (Q16.16 millimetres) for cumulative tick
    /// counts: `ticks * two_pi * radius * coef / ticks_per_turn`,
    /// independently per wheel.
    pub fn ticks_to_distance(&self, left_ticks: i64, right_ticks: i64) -> (r: (i64, i64))
        requires
            self.valid(),
        ensures
            r.0 == tick_distance(
                self.coder_radius,
                self.left_wheel_coef,
                self.ticks_per_turn,
                left_ticks as int,
            ),
            r.1 == tick_distance(
                self.coder_radius,
                self.right_wheel_coef,
                self.ticks_per_turn,
                right_ticks as int,
            ),
    {
        let per_left = qmul64(qmul64(TWO_PI_Q, self.coder_radius), self.left_wheel_coef);
        let per_right = qmul64(qmul64(TWO_PI_Q, self.coder_radius), self.right_wheel_coef);
        proof {
            lemma_product_bound(left_ticks as int, per_left as int);
            lemma_product_bound(right_ticks as int, per_right as int);
        }
        (
            rdiv_wide_sat(
                (left_ticks as i128) * (per_left as i128),
                self.ticks_per_turn as i128,
            ),
            rdiv_wide_sat(
                (right_ticks as i128) * (per_right as i128),
                self.ticks_per_turn as i128,
            ),
        )
    }

    /// Tick counts for per-wheel whole-millimetre distances: the inverse
    /// conversion, truncated toward zero.  The per-turn distances must be
    /// nonzero, and the distances small enough to scale.
    pub fn distance_to_ticks(&self, left_distance: MilliMeter, right_distance: MilliMeter) -> (r:
        (i64, i64))
        requires
            self.valid(),
            per_turn(self.coder_radius, self.left_wheel_coef) != 0,
            per_turn(self.coder_radius, self.right_wheel_coef) != 0,
            iabs(left_distance.0 as int) * (QSCALE as int) <= SAT_LIMIT,
            iabs(right_distance.0 as int) * (QSCALE as int) <= SAT_LIMIT,
        ensures
            r.0 == distance_ticks(
                self.coder_radius,
                self.left_wheel_coef,
                self.ticks_per_turn,
                left_distance.0 as int,
            ),
            r.1 == distance_ticks(
                self.coder_radius,
                self.right_wheel_coef,
                self.ticks_per_turn,
                right_distance.0 as int,
            ),
    {
        let per_left = qmul64(qmul64(TWO_PI_Q, self.coder_radius), self.left_wheel_coef);
        let per_right = qmul64(qmul64(TWO_PI_Q, self.coder_radius), self.right_wheel_coef);
        let tl = Self::scaled_distance_over(left_distance.0, self.ticks_per_turn, per_left);
        let tr = Self::scaled_distance_over(right_distance.0, self.ticks_per_turn, per_right);
        (tl, tr)
    }

    /// `mm * QSCALE * tpt / per`, truncated toward zero and saturated.
    fn scaled_distance_over(mm: i64, tpt: u16, per: i64) -> (r: i64)
        requires
            per != 0,
            tpt >= 1,
            iabs(mm as int) * (QSCALE as int) <= SAT_LIMIT,
        ensures
            r == sat(tdiv(mm * (QSCALE as int) * (tpt as int), per as int)),
    {
        proof {
            assert(iabs(mm * (QSCALE as int) * (tpt as int)) <= SAT_LIMIT * 0x1_0000_0000)
                by (nonlinear_arith)
                requires
                    iabs(mm as int) * (QSCALE as int) <= SAT_LIMIT,
                    1 <= tpt <= 0xffff,
                    QSCALE == 65536,
                    SAT_LIMIT == 0x2000_0000_0000,
            ;
        }
        let num: i128 = (mm as i128) * (QSCALE as i128) * (tpt as i128);
        if per > 0 {
            tdiv_wide_sat(num, per as i128)
        } else {
            let r = tdiv_wide_sat(-num, -(per as i128));
            proof {
                lemma_tdiv_negate(num as int, per as int);
            }
            r
        }
    }
}

/// A source of cumulative encoder ticks.  `sample` latches a new reading
/// from the hardware counter; `ticks` returns the latched signed
/// cumulative count.  Unwrapping the hardware counter's wraparound is the
/// implementor's responsibility.
pub trait EncoderSource {
    /// Latch a new reading.
    fn sample(&mut self);

    /// The latched signed cumulative tick count.
    fn ticks(&self) -> i64;
}

/// The controller a `PolarController` built from a configuration is.
pub open spec fn polar_from_params(p: PIDParameters) -> PolarController {
    PolarController {
        linear_control: crate::pid::PID {
            kp: p.pos_kp,
            kd: p.pos_kd,
            ki: 0,
            integral: 0,
            current: 0,
            current_error: 0,
            goal: 0,
            command: 0,
        },
        angular_control: crate::pid::PID {
            kp: p.orient_kp,
            kd: p.orient_kd,
            ki: 0,
            integral: 0,
            current: 0,
            current_error: 0,
            goal: 0,
            command: 0,
        },
        linear_speed_control: crate::pid::PID {
            kp: p.pos_speed_kp,
            kd: 0,
            ki: 0,
            integral: 0,
            current: 0,
            current_error: 0,
            goal: 0,
            command: 0,
        },
        angular_speed_control: crate::pid::PID {
            kp: p.orient_speed_kp,
            kd: 0,
            ki: 0,
            integral: 0,
            current: 0,
            current_error: 0,
            goal: 0,
            command: 0,
        },
        current_lin_command: 0,
        current_ang_command: 0,
        max_output: p.max_output,
        max_angle_output: p.max_output,
        te: p.te,
        max_lin_speed: p.max_lin_speed,
        max_ang_speed: p.max_ang_speed,
        max_lin_acc: sat(rdiv(p.max_lin_acc as int, 1000)) as i64,
        max_ang_acc: sat(rdiv(p.max_ang_acc as int, 1000)) as i64,
        linear_control_enabled: true,
        angular_control_enabled: true,
        pos_kd: p.pos_kd,
        orient_kd: p.orient_kd,
        lin_goal_twice: 0,
        ang_goal: 0,
    }
}

/// The per-wheel Q16.16 distances a configuration assigns to a pair of
/// cumulative tick counts.
pub open spec fn wheel_distances(p: PIDParameters, lt: i64, rt: i64) -> (int, int) {
    (
        tick_distance(p.coder_radius, p.left_wheel_coef, p.ticks_per_turn, lt as int),
        tick_distance(p.coder_radius, p.right_wheel_coef, p.ticks_per_turn, rt as int),
    )
}

/// A relative milliradian turn wrapped into `[-3141, 3141]`, one full
/// turn being 6283 milliradians.
pub open spec fn wrap_mrad(d: int) -> int {
    (d + 3141) % 6283 - 3141
}

/// The wrapped delta is a half turn at most either way, and differs from
/// the unwrapped delta by whole turns only: the turn
/// [`RealWorldPid::rotate_absolute`] makes is the shortest one.
pub proof fn lemma_wrap_mrad_shortest(d: int)
    ensures
        -3141 <= wrap_mrad(d) <= 3141,
        (d - wrap_mrad(d)) % 6283 == 0,
{
    vstd::arithmetic::div_mod::lemma_fundamental_div_mod(d + 3141, 6283);
    let q = (d + 3141) / 6283;
    assert(d - wrap_mrad(d) == 6283 * q);
    assert(6283 * q == q * 6283) by (nonlinear_arith);
    vstd::arithmetic::div_mod::lemma_mod_multiples_basic(q, 6283);
}

/// The differential distance a milliradian turn asks of the wheels:
/// `angle * inter_axial_length / 1000`, in Q16.16 millimetres.
pub open spec fn turn_distance(angle: int, inter_axial_length: i64) -> int {
    sat(rdiv(angle * (inter_axial_length as int), 1000))
}

/// The central motion controller: encoders in, commands and pose out.
pub struct RealWorldPid<L, R> where L: EncoderSource, R: EncoderSource {
    /// The cascaded control loops.
    pub internal_pid: PolarController,
    /// The dead-reckoning pose estimator.
    pub odometry: Odometry,
    /// The installed configuration.
    pub params: PIDParameters,
    /// The left and right encoder sources.
    pub qei: (L, R),
    /// The command pair computed by the last update.
    pub command: (Command, Command),
    /// The stall detector.
    pub blocking: Blocking,
}

impl<L, R> RealWorldPid<L, R> where L: EncoderSource, R: EncoderSource {
    /// Control loops, pose and configuration all well formed.
    pub open spec fn wf(&self) -> bool {
        self.internal_pid.wf() && self.odometry.wf() && self.params.valid() && self.blocking.wf()
    }

    /// What one control step on the tick pair `(lt, rt)` does: the ticks
    /// are converted to distances, the cascaded loops run on them, the
    /// resulting command pair is cached, and the odometry integrates the
    /// raw ticks.  Everything else, the encoders included, is untouched.
    pub open spec fn step_state(self, lt: i64, rt: i64) -> (RealWorldPid<L, R>, (Command, Command)) {
        let (dl, dr) = wheel_distances(self.params, lt, rt);
        let pid2 = crate::pid::polar_next(self.internal_pid, dl as i64, dr as i64);
        let cmd = (
            crate::motor::truncate_spec(
                sat(pid2.current_lin_command - pid2.current_ang_command),
                self.internal_pid.max_output as int,
            ),
            crate::motor::truncate_spec(
                sat(pid2.current_lin_command + pid2.current_ang_command),
                self.internal_pid.max_output as int,
            ),
        );
        (
            RealWorldPid {
                internal_pid: pid2,
                odometry: crate::odometry::odo_next(self.odometry, lt, rt, self.params),
                command: cmd,
                ..self
            },
            cmd,
        )
    }

    /// Whether `post` is `pre` after one control step on some tick pair,
    /// the encoder fields aside.
    pub open spec fn stepped_on(pre: RealWorldPid<L, R>, post: RealWorldPid<L, R>, lt: i64, rt: i64) -> bool {
        let (next, _cmd) = pre.step_state(lt, rt);
        post.internal_pid == next.internal_pid && post.odometry == next.odometry && post.command
            == next.command && post.params == pre.params && post.blocking == pre.blocking
    }

    /// Build the controller from the two encoder sources and a valid
    /// configuration.
    pub fn new(qei_left: L, qei_right: R, params: &PIDParameters) -> (r: RealWorldPid<L, R>)
        requires
            params.valid(),
        ensures
            r.internal_pid == polar_from_params(*params),
            r.odometry == (Odometry { left_ticks: 0, right_ticks: 0, x: 0, y: 0, angle: 0 }),
            r.params == *params,
            r.command == (Command::Front(0u16), Command::Front(0u16)),
            r.blocking == (crate::blocking::Blocking {
                command_threshold: params.command_threshold,
                distance_threshold: params.distance_threshold,
                last_dist_left: 0,
                last_dist_right: 0,
                blocked: false,
            }),
            r.wf(),
    {
        RealWorldPid {
            internal_pid: PolarController::new(
                params.pos_kp,
                0,
                params.pos_kd,
                params.orient_kp,
                0,
                params.orient_kd,
                params.pos_speed_kp,
                params.orient_speed_kp,
                params.max_output,
                params.max_output,
                params.te,
                params.max_lin_speed,
                params.max_ang_speed,
                params.max_lin_acc,
                params.max_ang_acc,
            ),
            odometry: Odometry::new(),
            params: *params,
            qei: (qei_left, qei_right),
            command: (Command::Front(0), Command::Front(0)),
            blocking: Blocking::new(params.command_threshold, params.distance_threshold),
        }
    }

    /// The installed configuration.
    pub fn get_params(&self) -> (r: &PIDParameters)
        ensures
            *r == self.params,
    {
        &self.params
    }

    /// Install a new configuration.  Outstanding goals are not rescaled.
    pub fn set_params(&mut self, params: &PIDParameters)
        requires
            old(self).wf(),
            params.valid(),
        ensures
            final(self).params == *params,
            final(self).internal_pid == old(self).internal_pid,
            final(self).odometry == old(self).odometry,
            final(self).command == old(self).command,
            final(self).blocking == old(self).blocking,
            final(self).wf(),
    {
        self.params = *params;
    }

    /// One control step at the fixed period on an already sampled tick
    /// pair.
    pub fn update_with_ticks(&mut self, left_ticks: i64, right_ticks: i64)
        requires
            old(self).wf(),
        ensures
            Self::stepped_on(*old(self), *final(self), left_ticks, right_ticks),
            final(self).qei == old(self).qei,
            final(self).wf(),
    {
        let (left_dist, right_dist) = self.params.ticks_to_distance(left_ticks, right_ticks);
        self.command = self.internal_pid.update(left_dist, right_dist);
        self.odometry.update(left_ticks, right_ticks, &self.params);
    }

    /// One control step at the fixed period: sample both encoders once,
    /// then step on whatever tick pair they latched.
    pub fn update(&mut self)
        requires
            old(self).wf(),
        ensures
            exists|lt: i64, rt: i64| Self::stepped_on(*old(self), *final(self), lt, rt),
            final(self).wf(),
    {
        self.qei.0.sample();
        self.qei.1.sample();
        let (left_ticks, right_ticks) = self.get_qei_ticks();
        self.update_with_ticks(left_ticks, right_ticks);
        proof {
            assert(Self::stepped_on(*old(self), *self, left_ticks, right_ticks));
        }
    }

    /// Enable or mute the longitudinal and angular loops' outputs.
    pub fn enable_asserv(&mut self, lin_ctrl: bool, ang_ctrl: bool)
        requires
            old(self).wf(),
        ensures
            final(self).internal_pid == (PolarController {
                linear_control_enabled: lin_ctrl,
                angular_control_enabled: ang_ctrl,
                ..old(self).internal_pid
            }),
            *final(self) == (RealWorldPid { internal_pid: final(self).internal_pid, ..*old(self) }),
            final(self).wf(),
    {
        self.internal_pid.enable_control(lin_ctrl, ang_ctrl);
    }

    /// Replace the speed ceilings of the cascaded loops.
    pub fn set_speed(&mut self, lin_speed: i64, ang_speed: i64)
        requires
            old(self).wf(),
            0 <= lin_speed <= SAT_LIMIT,
            0 <= ang_speed <= SAT_LIMIT,
        ensures
            final(self).internal_pid == (PolarController {
                max_lin_speed: lin_speed,
                max_ang_speed: ang_speed,
                ..old(self).internal_pid
            }),
            *final(self) == (RealWorldPid { internal_pid: final(self).internal_pid, ..*old(self) }),
            final(self).wf(),
    {
        self.internal_pid.set_max_speed(lin_speed, ang_speed);
    }

    /// Overwrite the odometry pose: position in whole millimetres,
    /// heading in milliradians.
    pub fn set_position_and_angle(&mut self, position: Coord, angle: i64)
        requires
            old(self).wf(),
        ensures
            final(self).odometry.x == sat(position.x.0 * (QSCALE as int)),
            final(self).odometry.y == sat(position.y.0 * (QSCALE as int)),
            final(self).odometry.angle == sat(rdiv(angle * (QSCALE as int), 1000)),
            final(self).odometry.left_ticks == old(self).odometry.left_ticks,
            final(self).odometry.right_ticks == old(self).odometry.right_ticks,
            *final(self) == (RealWorldPid { odometry: final(self).odometry, ..*old(self) }),
            final(self).wf(),
    {
        self.odometry.set_position_and_angle(position, angle);
    }

    /// The command pair computed by the last update.
    pub fn get_command(&self) -> (r: (Command, Command))
        ensures
            r == self.command,
    {
        self.command
    }

    /// The estimated position, in whole millimetres.
    pub fn get_position(&self) -> (r: Coord)
        ensures
            r.x.0 == sat(rdiv(self.odometry.x as int, QSCALE as int)),
            r.y.0 == sat(rdiv(self.odometry.y as int, QSCALE as int)),
    {
        self.odometry.get_position()
    }

    /// The estimated heading in milliradians.
    pub fn get_angle(&self) -> (r: i64)
        ensures
            r == sat(rdiv(self.odometry.angle * 1000, QSCALE as int)),
    {
        self.odometry.get_angle()
    }

    /// The latched cumulative tick counts of both encoders.
    pub fn get_qei_ticks(&self) -> (i64, i64) {
        (self.qei.0.ticks(), self.qei.1.ticks())
    }

    /// The distances run by the coder wheels, in Q16.16 millimetres, for
    /// the tick counts the encoders latched.
    pub fn get_wheel_dist(&self) -> (r: (i64, i64))
        requires
            self.wf(),
        ensures
            exists|lt: i64, rt: i64|
                (r.0 as int, r.1 as int) == wheel_distances(self.params, lt, rt),
    {
        let (left_ticks, right_ticks) = self.get_qei_ticks();
        let r = self.params.ticks_to_distance(left_ticks, right_ticks);
        proof {
            assert((r.0 as int, r.1 as int) == wheel_distances(
                self.params,
                left_ticks,
                right_ticks,
            ));
        }
        r
    }

    /// Advance the linear goal by a Q16.16 millimetre distance; the
    /// angular goal is untouched.
    pub fn forward(&mut self, distance: i64)
        requires
            old(self).wf(),
        ensures
            final(self).internal_pid.lin_goal_twice == sat(
                old(self).internal_pid.lin_goal_twice + 2 * distance,
            ),
            final(self).internal_pid.ang_goal == old(self).internal_pid.ang_goal,
            final(self).internal_pid == (PolarController {
                lin_goal_twice: final(self).internal_pid.lin_goal_twice,
                linear_control: final(self).internal_pid.linear_control,
                ..old(self).internal_pid
            }),
            *final(self) == (RealWorldPid { internal_pid: final(self).internal_pid, ..*old(self) }),
            final(self).wf(),
    {
        self.internal_pid.increment_linear_goal(distance);
    }

    /// Retreat the linear goal by a Q16.16 millimetre distance.
    pub fn backward(&mut self, distance: i64)
        requires
            old(self).wf(),
            distance != i64::MIN,
        ensures
            final(self).internal_pid.lin_goal_twice == sat(
                old(self).internal_pid.lin_goal_twice - 2 * distance,
            ),
            final(self).internal_pid.ang_goal == old(self).internal_pid.ang_goal,
            *final(self) == (RealWorldPid { internal_pid: final(self).internal_pid, ..*old(self) }),
            final(self).wf(),
    {
        self.internal_pid.increment_linear_goal(-distance);
    }

    /// Turn by a relative angle in milliradians: the equivalent
    /// differential distance `angle * inter_axial_length / 1000` is added
    /// to the angular goal.  A positive angle advances the right wheel
    /// and retreats the left one.
    pub fn rotate(&mut self, angle: i64)
        requires
            old(self).wf(),
        ensures
            final(self).internal_pid.ang_goal == sat(
                old(self).internal_pid.ang_goal + turn_distance(
                    angle as int,
                    old(self).params.inter_axial_length,
                ),
            ),
            final(self).internal_pid.lin_goal_twice == old(self).internal_pid.lin_goal_twice,
            *final(self) == (RealWorldPid { internal_pid: final(self).internal_pid, ..*old(self) }),
            final(self).wf(),
    {
        proof {
            lemma_product_bound(angle as int, self.params.inter_axial_length as int);
        }
        let turn: i64 = rdiv_wide_sat(
            (angle as i128) * (self.params.inter_axial_length as i128),
            1000,
        );
        self.internal_pid.increment_angular_goal(turn);
    }

    /// Turn to an absolute heading in milliradians: the shortest signed
    /// delta from the current odometry heading, wrapped into a half turn
    /// either way, is handed to [`Self::rotate`].
    pub fn rotate_absolute(&mut self, angle: i64)
        requires
            old(self).wf(),
        ensures
            ({
                let current = sat(rdiv(old(self).odometry.angle * 1000, QSCALE as int));
                let diff = wrap_mrad(sat(angle - current));
                final(self).internal_pid.ang_goal == sat(
                    old(self).internal_pid.ang_goal + turn_distance(
                        diff,
                        old(self).params.inter_axial_length,
                    ),
                )
            }),
            final(self).internal_pid.lin_goal_twice == old(self).internal_pid.lin_goal_twice,
            *final(self) == (RealWorldPid { internal_pid: final(self).internal_pid, ..*old(self) }),
            final(self).wf(),
    {
        let current_angle = self.get_angle();
        let diff = sat_sub64(angle, current_angle);
        let wrapped = crate::fixed::emod64(diff + 3141, 6283) - 3141;
        self.rotate(wrapped);
    }

    /// Freeze motion: the per-wheel goals become the currently measured
    /// per-wheel distances, so the command fades without a discontinuity.
    pub fn stop(&mut self)
        requires
            old(self).wf(),
        ensures
            exists|lt: i64, rt: i64|
                stopped_goals(old(self).params, final(self).internal_pid, lt, rt),
            *final(self) == (RealWorldPid { internal_pid: final(self).internal_pid, ..*old(self) }),
            final(self).wf(),
    {
        let (left_ticks, right_ticks) = self.get_qei_ticks();
        let (left_dist, right_dist) = self.params.ticks_to_distance(left_ticks, right_ticks);
        self.internal_pid.set_left_right_goal(left_dist, right_dist);
        proof {
            assert(stopped_goals(old(self).params, self.internal_pid, left_ticks, right_ticks));
        }
    }

    /// The stall detector's cached verdict.
    pub fn is_robot_blocked(&self) -> (r: bool)
        ensures
            r == self.blocking.blocked,
    {
        self.blocking.blocked()
    }

    /// Feed the latest command pair and wheel distances to the stall
    /// detector.  Runs on its own cadence, apart from `update`.
    pub fn update_blocking(&mut self)
        requires
            old(self).wf(),
        ensures
            exists|lt: i64, rt: i64|
                blocking_judged(
                    old(self).params,
                    old(self).command,
                    old(self).blocking,
                    final(self).blocking,
                    lt,
                    rt,
                ),
            *final(self) == (RealWorldPid { blocking: final(self).blocking, ..*old(self) }),
            final(self).wf(),
    {
        let (left_ticks, right_ticks) = self.get_qei_ticks();
        let dists = self.params.ticks_to_distance(left_ticks, right_ticks);
        let cmd = self.get_command();
        self.blocking.update(cmd, dists);
        proof {
            assert(blocking_judged(
                old(self).params,
                old(self).command,
                old(self).blocking,
                self.blocking,
                left_ticks,
                right_ticks,
            ));
        }
    }

    /// Whether both the linear and the angular gap between the measured
    /// distances and the current goals lie within the given tolerances:
    /// `lin_accuracy` in Q16.16 millimetres, `ang_accuracy` in Q16.16
    /// milliradians.
    pub fn is_goal_reached(&self, lin_accuracy: i64, ang_accuracy: i64) -> (r: bool)
        requires
            self.wf(),
            0 <= lin_accuracy,
            0 <= ang_accuracy,
        ensures
            exists|lt: i64, rt: i64|
                r == goal_gaps_within(
                    self.params,
                    self.internal_pid,
                    lt,
                    rt,
                    lin_accuracy,
                    ang_accuracy,
                ),
    {
        let (left_ticks, right_ticks) = self.get_qei_ticks();
        let (left_dist, right_dist) = self.params.ticks_to_distance(left_ticks, right_ticks);
        let (left_goal, right_goal) = self.internal_pid.get_left_right_goal();
        let lin_gap = rdiv64(
            sat_sub64(sat_sub64(sat_add64(left_dist, right_dist), left_goal), right_goal),
            2,
        );
        let ang_gap = qdiv64(
            sat_add64(sat_sub64(sat_sub64(left_dist, right_dist), left_goal), right_goal),
            self.params.inter_axial_length,
        );
        let ang_threshold = rdiv64(ang_accuracy, 1000);
        let r = iabs64(lin_gap) < lin_accuracy && iabs64(ang_gap) < ang_threshold;
        proof {
            assert(r == goal_gaps_within(
                self.params,
                self.internal_pid,
                left_ticks,
                right_ticks,
                lin_accuracy,
                ang_accuracy,
            ));
        }
        r
    }
}

/// Whether a controller's goal pair is the one `stop` sets at the tick
/// pair `(lt, rt)`: the summed and differenced measured distances.
pub open spec fn stopped_goals(p: PIDParameters, c: PolarController, lt: i64, rt: i64) -> bool {
    let (dl, dr) = wheel_distances(p, lt, rt);
    c.lin_goal_twice == sat(dl + dr) && c.ang_goal == sat(dr - dl)
}

/// Whether `post` is the stall detector `pre` after judging the command
/// pair against the distances measured at the tick pair `(lt, rt)`.
pub open spec fn blocking_judged(
    p: PIDParameters,
    command: (Command, Command),
    pre: Blocking,
    post: Blocking,
    lt: i64,
    rt: i64,
) -> bool {
    let (dl, dr) = wheel_distances(p, lt, rt);
    post.blocked == (crate::blocking::wheel_blocked(
        command.0,
        sat(dl - pre.last_dist_left),
        pre.command_threshold,
        pre.distance_threshold,
    ) || crate::blocking::wheel_blocked(
        command.1,
        sat(dr - pre.last_dist_right),
        pre.command_threshold,
        pre.distance_threshold,
    )) && post.last_dist_left == dl && post.last_dist_right == dr && post.command_threshold
        == pre.command_threshold && post.distance_threshold == pre.distance_threshold
}

/// Whether, at the tick pair `(lt, rt)`, both goal gaps lie within the
/// tolerances: the linear gap is half the difference between the summed
/// distances and the summed goals, the angular gap that difference of
/// differences over the inter-axial length, compared against the
/// milliradian tolerance scaled to radians.
pub open spec fn goal_gaps_within(
    p: PIDParameters,
    c: PolarController,
    lt: i64,
    rt: i64,
    lin_accuracy: i64,
    ang_accuracy: i64,
) -> bool {
    let (dl, dr) = wheel_distances(p, lt, rt);
    let lg = sat(rdiv(sat(c.lin_goal_twice - c.ang_goal), 2));
    let rg = sat(rdiv(sat(c.lin_goal_twice + c.ang_goal), 2));
    let lin_gap = sat(rdiv(sat(sat(sat(dl + dr) - lg) - rg), 2));
    let ang_gap = qdiv(sat(sat(sat(dl - dr) - lg) + rg), p.inter_axial_length as int);
    iabs(lin_gap) < lin_accuracy && iabs(ang_gap) < sat(rdiv(ang_accuracy as int, 1000))
}

/// Absolute value of an `i64` that is not the minimum.
fn iabs64(v: i64) -> (r: i64)
    requires
        v != i64::MIN,
    ensures
        r == iabs(v as int),
{
    if v >= 0 {
        v
    } else {
        -v
    }
}

impl Default for PIDParameters {
    /// A plausible bench configuration: unit coefficients and gains, a
    /// ten-millimetre coder wheel, 1024 ticks per turn, and soft output
    /// and stall ceilings.
    fn default() -> (r: PIDParameters)
        ensures
            r == (PIDParameters {
                coder_radius: 655360,
                left_wheel_coef: 65536,
                right_wheel_coef: 65536,
                ticks_per_turn: 1024,
                inter_axial_length: 6553600,
                pos_kp: 65536,
                pos_kd: 0,
                pos_speed_kp: 6553600,
                orient_kp: 65536,
                orient_kd: 0,
                orient_speed_kp: 6553600,
                te: 65536,
                max_lin_speed: 29491,
                max_ang_speed: 13107,
                max_lin_acc: 65536,
                max_ang_acc: 65536,
                max_output: 100,
                command_threshold: 100,
                distance_threshold: 6554,
            }),
            r.valid(),
    {
        PIDParameters {
            coder_radius: 655360,
            left_wheel_coef: 65536,
            right_wheel_coef: 65536,
            ticks_per_turn: 1024,
            inter_axial_length: 6553600,
            pos_kp: 65536,
            pos_kd: 0,
            pos_speed_kp: 6553600,
            orient_kp: 65536,
            orient_kd: 0,
            orient_speed_kp: 6553600,
            te: 65536,
            max_lin_speed: 29491,
            max_ang_speed: 13107,
            max_lin_acc: 65536,
            max_ang_acc: 65536,
            max_output: 100,
            command_threshold: 100,
            distance_threshold: 6554,
        }
    }
}

} // verus!
