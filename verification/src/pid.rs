//! The single-axis PID loop and the cascaded polar controller.
//!
//! `PID` runs one proportional/integral/derivative loop over a scalar
//! goal/measurement pair.  `PolarController` cascades two of them per axis
//! (a position loop feeding a speed loop) for the linear and the angular
//! axis of a differential drive, clamps speed goals to an
//! acceleration-limited envelope, and folds the two axes into one motor
//! command per wheel.
//!
//! All quantities are Q16.16 fixed-point (see [`crate::fixed`]).  The
//! linear goal is stored doubled (`lin_goal_twice`), so that the
//! left/right goal pair set through [`PolarController::set_left_right_goal`]
//! is recovered exactly by [`PolarController::get_left_right_goal`], for
//! every input pair.

use vstd::prelude::*;

use crate::fixed::clamp_s;
use crate::fixed::clamp64;
use crate::fixed::iabs;
use crate::fixed::qdiv;
use crate::fixed::qdiv64;
use crate::fixed::qmul;
use crate::fixed::qmul64;
use crate::fixed::lemma_qmul_nonneg;
use crate::fixed::lemma_rdiv_exact;
use crate::fixed::rdiv;
use crate::fixed::rdiv64;
use crate::fixed::sat;
use crate::fixed::sat_add64;
use crate::fixed::sat_narrow;
use crate::fixed::sat_sub64;
use crate::fixed::within_sat;
use crate::fixed::QSCALE;
use crate::motor::truncate_spec;
use crate::motor::Command;

verus! {

/// Below this linear position error (five millimetres) the derivative gain
/// of the linear position loop is muted.
pub const LIN_KD_BAND: i64 = 327680;

/// Below this angular position error (in wheel-differential millimetres)
/// the derivative gain of the angular position loop is muted.
pub const ANG_KD_BAND: i64 = 571911;

/// One proportional/integral/derivative loop.
#[derive(Debug, Copy, Clone)]
pub struct PID {
    /// Proportional gain.
    pub kp: i64,
    /// Derivative gain.
    pub kd: i64,
    /// Integral gain.
    pub ki: i64,
    /// Accumulated integral of the error.
    pub integral: i64,
    /// Last measured value.
    pub current: i64,
    /// Last error, goal minus measurement.
    pub current_error: i64,
    /// The value the loop drives its measurement toward.
    pub goal: i64,
    /// Last computed command.
    pub command: i64,
}

impl PID {
    /// Every field within the saturation range.
    pub open spec fn wf(&self) -> bool {
        within_sat(self.kp as int) && within_sat(self.kd as int) && within_sat(self.ki as int)
            && within_sat(self.integral as int) && within_sat(self.current as int) && within_sat(
            self.current_error as int,
        ) && within_sat(self.goal as int) && within_sat(self.command as int)
    }

    /// A fresh loop with the given gains and zeroed memory.
    pub fn new(kp: i64, kd: i64, ki: i64) -> (r: PID)
        requires
            within_sat(kp as int),
            within_sat(kd as int),
            within_sat(ki as int),
        ensures
            r == (PID { kp, kd, ki, integral: 0, current: 0, current_error: 0, goal: 0, command: 0 }),
            r.wf(),
    {
        PID { kp, kd, ki, integral: 0, current: 0, current_error: 0, goal: 0, command: 0 }
    }

    /// Replace the goal.
    pub fn set_goal(&mut self, goal: i64)
        requires
            within_sat(goal as int),
        ensures
            *final(self) == (PID { goal, ..*old(self) }),
    {
        self.goal = goal;
    }

    /// Shift the goal; integral and derivative memory are untouched.
    pub fn increment_goal(&mut self, inc: i64)
        ensures
            *final(self) == (PID { goal: sat(old(self).goal + inc) as i64, ..*old(self) }),
    {
        self.goal = sat_narrow(self.goal as i128 + inc as i128);
    }

    /// The current goal.
    pub fn get_goal(&self) -> (r: i64)
        ensures
            r == self.goal,
    {
        self.goal
    }

    /// The command computed by the last update.
    pub fn get_command(&self) -> (r: i64)
        ensures
            r == self.command,
    {
        self.command
    }

    /// One control-period step on a new measurement.
    pub fn update(&mut self, val: i64)
        requires
            old(self).wf(),
            within_sat(val as int),
        ensures
            *final(self) == pid_next(*old(self), val),
            final(self).wf(),
    {
        let error = sat_sub64(self.goal, val);
        let d_error = sat_sub64(error, self.current_error);
        self.integral = sat_add64(self.integral, sat_add64(error, self.current_error));
        self.command = sat_add64(
            sat_add64(qmul64(error, self.kp), qmul64(self.integral, self.ki)),
            qmul64(d_error, self.kd),
        );
        self.current = val;
        self.current_error = error;
    }
}

/// The state of a PID loop after one update on measurement `val`:
/// `error = goal - val`, `d_error = error - last_error`,
/// `integral += error + last_error`,
/// `command = kp * error + ki * integral + kd * d_error`,
/// every step saturated.
pub open spec fn pid_next(p: PID, val: i64) -> PID {
    let e = sat(p.goal - val);
    let integ = sat(p.integral + sat(e + p.current_error));
    let cmd = sat(
        sat(qmul(e, p.kp as int) + qmul(integ, p.ki as int)) + qmul(
            sat(e - p.current_error),
            p.kd as int,
        ),
    );
    PID {
        integral: integ as i64,
        current: val,
        current_error: e as i64,
        command: cmd as i64,
        ..p
    }
}

/// The same loop with another derivative gain.
pub open spec fn pid_with_kd(p: PID, kd: i64) -> PID {
    PID { kd, ..p }
}

/// The same loop with another goal.
pub open spec fn pid_with_goal(p: PID, goal: i64) -> PID {
    PID { goal, ..p }
}

/// The derivative gain actually used for a position loop: muted inside the
/// hysteresis band around the goal.
pub open spec fn gated_kd(current_error: i64, kd: i64, band: i64) -> i64 {
    if iabs(current_error as int) < band {
        0
    } else {
        kd
    }
}

/// The measured linear value: the mean of the wheel distances.
pub open spec fn measured_lin(l: i64, r: i64) -> int {
    sat(rdiv(sat(l + r), 2))
}

/// The measured angular value: the wheel-distance difference.
pub open spec fn measured_ang(l: i64, r: i64) -> int {
    sat(r - l)
}

/// Instantaneous speed: the change of a measured value over one period.
pub open spec fn speed_of(te: i64, val: int, prev: i64) -> int {
    qdiv(sat(val - prev), te as int)
}

/// A speed goal clamped first to the acceleration envelope around the last
/// measured speed, then to the speed ceiling.
pub open spec fn clamp_speed_s(te: i64, speed: int, last_speed: int, max_speed: i64, max_acc: i64) -> int {
    let step = qmul(max_acc as int, te as int);
    clamp_s(
        clamp_s(speed, sat(last_speed - step), sat(last_speed + step)),
        -(max_speed as int),
        max_speed as int,
    )
}

/// Cascaded position-plus-speed controller for the linear and angular axes.
#[derive(Debug, Copy, Clone)]
pub struct PolarController {
    /// Position loop on the linear axis.
    pub linear_control: PID,
    /// Position loop on the angular axis.
    pub angular_control: PID,
    /// Speed loop on the linear axis.
    pub linear_speed_control: PID,
    /// Speed loop on the angular axis.
    pub angular_speed_control: PID,
    /// Accumulated linear output command.
    pub current_lin_command: i64,
    /// Accumulated angular output command.
    pub current_ang_command: i64,
    /// Ceiling of the per-wheel output magnitude.
    pub max_output: u16,
    /// Ceiling of the angular command accumulator.
    pub max_angle_output: u16,
    /// Sampling period.
    pub te: i64,
    /// Linear speed ceiling.
    pub max_lin_speed: i64,
    /// Angular speed ceiling.
    pub max_ang_speed: i64,
    /// Linear acceleration ceiling per period (already divided by 1000).
    pub max_lin_acc: i64,
    /// Angular acceleration ceiling per period (already divided by 1000).
    pub max_ang_acc: i64,
    /// When false the linear axis contributes nothing to the output.
    pub linear_control_enabled: bool,
    /// When false the angular axis contributes nothing to the output.
    pub angular_control_enabled: bool,
    /// Derivative gain of the linear position loop, before gating.
    pub pos_kd: i64,
    /// Derivative gain of the angular position loop, before gating.
    pub orient_kd: i64,
    /// Twice the linear goal, kept exact so the left/right goal pair
    /// round-trips without losing the low bit.
    pub lin_goal_twice: i64,
    /// The angular goal.
    pub ang_goal: i64,
}

impl PolarController {
    /// Well-formedness: loops well formed, period positive, ceilings
    /// nonnegative, every stored quantity within the saturation range, and
    /// the position-loop goals tied to the stored goal pair.
    pub open spec fn wf(&self) -> bool {
        self.linear_control.wf() && self.angular_control.wf() && self.linear_speed_control.wf()
            && self.angular_speed_control.wf() && 1 <= self.te <= crate::fixed::SAT_LIMIT && 0
            <= self.max_lin_speed <= crate::fixed::SAT_LIMIT && 0 <= self.max_ang_speed
            <= crate::fixed::SAT_LIMIT && 0 <= self.max_lin_acc <= crate::fixed::SAT_LIMIT && 0
            <= self.max_ang_acc <= crate::fixed::SAT_LIMIT && within_sat(self.pos_kd as int)
            && within_sat(self.orient_kd as int) && within_sat(self.current_lin_command as int)
            && within_sat(self.current_ang_command as int) && within_sat(self.lin_goal_twice as int)
            && within_sat(self.ang_goal as int) && self.linear_control.goal == sat(
            rdiv(self.lin_goal_twice as int, 2),
        ) && self.angular_control.goal == self.ang_goal
    }

    /// Build a controller from its gains and limits.  The acceleration
    /// ceilings are given per second and divided by 1000 here, so that they
    /// apply per millisecond period.
    pub fn new(
        pos_kp: i64,
        pos_ki: i64,
        pos_kd: i64,
        orient_kp: i64,
        orient_ki: i64,
        orient_kd: i64,
        pos_speed_kp: i64,
        orient_speed_kp: i64,
        max_output: u16,
        max_angle_output: u16,
        te: i64,
        max_lin_speed: i64,
        max_ang_speed: i64,
        max_lin_acc: i64,
        max_ang_acc: i64,
    ) -> (r: PolarController)
        requires
            within_sat(pos_kp as int),
            within_sat(pos_ki as int),
            within_sat(pos_kd as int),
            within_sat(orient_kp as int),
            within_sat(orient_ki as int),
            within_sat(orient_kd as int),
            within_sat(pos_speed_kp as int),
            within_sat(orient_speed_kp as int),
            1 <= te <= crate::fixed::SAT_LIMIT,
            0 <= max_lin_speed <= crate::fixed::SAT_LIMIT,
            0 <= max_ang_speed <= crate::fixed::SAT_LIMIT,
            0 <= max_lin_acc <= crate::fixed::SAT_LIMIT,
            0 <= max_ang_acc <= crate::fixed::SAT_LIMIT,
        ensures
            r.wf(),
            r.linear_control == (PID {
                kp: pos_kp,
                kd: pos_kd,
                ki: pos_ki,
                integral: 0,
                current: 0,
                current_error: 0,
                goal: 0,
                command: 0,
            }),
            r.angular_control == (PID {
                kp: orient_kp,
                kd: orient_kd,
                ki: orient_ki,
                integral: 0,
                current: 0,
                current_error: 0,
                goal: 0,
                command: 0,
            }),
            r.linear_speed_control == (PID {
                kp: pos_speed_kp,
                kd: 0,
                ki: 0,
                integral: 0,
                current: 0,
                current_error: 0,
                goal: 0,
                command: 0,
            }),
            r.angular_speed_control == (PID {
                kp: orient_speed_kp,
                kd: 0,
                ki: 0,
                integral: 0,
                current: 0,
                current_error: 0,
                goal: 0,
                command: 0,
            }),
            r.current_lin_command == 0 && r.current_ang_command == 0,
            r.max_output == max_output && r.max_angle_output == max_angle_output,
            r.te == te,
            r.max_lin_speed == max_lin_speed && r.max_ang_speed == max_ang_speed,
            r.max_lin_acc == sat(rdiv(max_lin_acc as int, 1000)),
            r.max_ang_acc == sat(rdiv(max_ang_acc as int, 1000)),
            r.linear_control_enabled && r.angular_control_enabled,
            r.pos_kd == pos_kd && r.orient_kd == orient_kd,
            r.lin_goal_twice == 0 && r.ang_goal == 0,
    {
        let r = PolarController {
            linear_control: PID::new(pos_kp, pos_kd, pos_ki),
            angular_control: PID::new(orient_kp, orient_kd, orient_ki),
            linear_speed_control: PID::new(pos_speed_kp, 0, 0),
            angular_speed_control: PID::new(orient_speed_kp, 0, 0),
            current_lin_command: 0,
            current_ang_command: 0,
            max_output,
            max_angle_output,
            te,
            max_lin_speed,
            max_ang_speed,
            max_lin_acc: rdiv64(max_lin_acc, 1000),
            max_ang_acc: rdiv64(max_ang_acc, 1000),
            linear_control_enabled: true,
            angular_control_enabled: true,
            pos_kd,
            orient_kd,
            lin_goal_twice: 0,
            ang_goal: 0,
        };
        proof {
            crate::fixed::lemma_rdiv_zero(2);
        }
        r
    }

    /// Enable or mute each axis's contribution to the output.  The loops'
    /// internal state, goals included, is untouched.
    pub fn enable_control(&mut self, lin_ctrl: bool, ang_ctrl: bool)
        ensures
            *final(self) == (PolarController {
                linear_control_enabled: lin_ctrl,
                angular_control_enabled: ang_ctrl,
                ..*old(self)
            }),
    {
        self.linear_control_enabled = lin_ctrl;
        self.angular_control_enabled = ang_ctrl;
    }

    /// Replace the speed ceilings.
    pub fn set_max_speed(&mut self, lin_speed: i64, ang_speed: i64)
        requires
            0 <= lin_speed <= crate::fixed::SAT_LIMIT,
            0 <= ang_speed <= crate::fixed::SAT_LIMIT,
        ensures
            *final(self) == (PolarController {
                max_lin_speed: lin_speed,
                max_ang_speed: ang_speed,
                ..*old(self)
            }),
    {
        self.max_lin_speed = lin_speed;
        self.max_ang_speed = ang_speed;
    }

    /// Replace the output ceiling.
    pub fn set_max_output(&mut self, max_output: u16)
        ensures
            *final(self) == (PolarController { max_output, ..*old(self) }),
    {
        self.max_output = max_output;
    }

    /// Set the goal from a per-wheel pair: the linear goal becomes the
    /// mean, the angular goal the difference.
    pub fn set_left_right_goal(&mut self, left: i64, right: i64)
        requires
            old(self).wf(),
        ensures
            final(self).lin_goal_twice == sat(left + right),
            final(self).ang_goal == sat(right - left),
            final(self).linear_control == (PID {
                goal: sat(rdiv(sat(left + right), 2)) as i64,
                ..old(self).linear_control
            }),
            final(self).angular_control == (PID {
                goal: sat(right - left) as i64,
                ..old(self).angular_control
            }),
            *final(self) == (PolarController {
                lin_goal_twice: final(self).lin_goal_twice,
                ang_goal: final(self).ang_goal,
                linear_control: final(self).linear_control,
                angular_control: final(self).angular_control,
                ..*old(self)
            }),
            final(self).wf(),
    {
        self.lin_goal_twice = sat_add64(left, right);
        self.ang_goal = sat_sub64(right, left);
        let g = rdiv64(self.lin_goal_twice, 2);
        self.linear_control.set_goal(g);
        self.angular_control.set_goal(self.ang_goal);
    }

    /// Replace the linear goal.
    pub fn set_linear_goal(&mut self, goal: i64)
        requires
            old(self).wf(),
        ensures
            final(self).lin_goal_twice == sat(2 * goal),
            final(self).linear_control == (PID {
                goal: sat(rdiv(sat(2 * goal), 2)) as i64,
                ..old(self).linear_control
            }),
            *final(self) == (PolarController {
                lin_goal_twice: final(self).lin_goal_twice,
                linear_control: final(self).linear_control,
                ..*old(self)
            }),
            final(self).wf(),
    {
        self.lin_goal_twice = sat_narrow(2 * (goal as i128));
        let g = rdiv64(self.lin_goal_twice, 2);
        self.linear_control.set_goal(g);
    }

    /// Shift the linear goal.
    pub fn increment_linear_goal(&mut self, inc: i64)
        requires
            old(self).wf(),
        ensures
            final(self).lin_goal_twice == sat(old(self).lin_goal_twice + 2 * inc),
            final(self).linear_control == (PID {
                goal: sat(rdiv(sat(old(self).lin_goal_twice + 2 * inc), 2)) as i64,
                ..old(self).linear_control
            }),
            *final(self) == (PolarController {
                lin_goal_twice: final(self).lin_goal_twice,
                linear_control: final(self).linear_control,
                ..*old(self)
            }),
            final(self).wf(),
    {
        self.lin_goal_twice = sat_narrow(self.lin_goal_twice as i128 + 2 * (inc as i128));
        let g = rdiv64(self.lin_goal_twice, 2);
        self.linear_control.set_goal(g);
    }

    /// Replace the angular goal.
    pub fn set_angular_goal(&mut self, goal: i64)
        requires
            old(self).wf(),
        ensures
            final(self).ang_goal == sat(goal as int),
            final(self).angular_control == (PID {
                goal: sat(goal as int) as i64,
                ..old(self).angular_control
            }),
            *final(self) == (PolarController {
                ang_goal: final(self).ang_goal,
                angular_control: final(self).angular_control,
                ..*old(self)
            }),
            final(self).wf(),
    {
        self.ang_goal = sat_narrow(goal as i128);
        self.angular_control.set_goal(self.ang_goal);
    }

    /// Shift the angular goal.
    pub fn increment_angular_goal(&mut self, inc: i64)
        requires
            old(self).wf(),
        ensures
            final(self).ang_goal == sat(old(self).ang_goal + inc),
            final(self).angular_control == (PID {
                goal: sat(old(self).ang_goal + inc) as i64,
                ..old(self).angular_control
            }),
            *final(self) == (PolarController {
                ang_goal: final(self).ang_goal,
                angular_control: final(self).angular_control,
                ..*old(self)
            }),
            final(self).wf(),
    {
        self.ang_goal = sat_add64(self.ang_goal, inc);
        self.angular_control.set_goal(self.ang_goal);
    }

    /// The per-wheel goal pair: the exact inverse of
    /// [`Self::set_left_right_goal`].
    pub fn get_left_right_goal(&self) -> (r: (i64, i64))
        ensures
            r.0 == sat(rdiv(sat(self.lin_goal_twice - self.ang_goal), 2)),
            r.1 == sat(rdiv(sat(self.lin_goal_twice + self.ang_goal), 2)),
    {
        (
            rdiv64(sat_sub64(self.lin_goal_twice, self.ang_goal), 2),
            rdiv64(sat_add64(self.lin_goal_twice, self.ang_goal), 2),
        )
    }

    /// The (linear, angular) goal pair as the position loops see it.
    pub fn get_lin_ang_goal(&self) -> (r: (i64, i64))
        ensures
            r.0 == self.linear_control.goal,
            r.1 == self.angular_control.goal,
    {
        (self.linear_control.get_goal(), self.angular_control.get_goal())
    }

    /// Clamp a speed goal to the acceleration envelope around the last
    /// measured speed, then to the speed ceiling.
    pub fn clamp_speed(&self, speed: i64, last_speed: i64, max_speed: i64, max_acc: i64) -> (r:
        i64)
        requires
            0 <= self.te,
            0 <= max_speed,
            0 <= max_acc,
        ensures
            r == clamp_speed_s(self.te, speed as int, last_speed as int, max_speed, max_acc),
    {
        proof {
            lemma_qmul_nonneg(max_acc as int, self.te as int);
        }
        let step = qmul64(max_acc, self.te);
        let upbound = sat_add64(last_speed, step);
        let lowbound = sat_sub64(last_speed, step);
        clamp64(clamp64(speed, lowbound, upbound), -max_speed, max_speed)
    }

    /// One control-period update on the measured wheel distances; yields
    /// the (left, right) motor commands.
    pub fn update(&mut self, left_dist: i64, right_dist: i64) -> (r: (Command, Command))
        requires
            old(self).wf(),
            within_sat(left_dist as int),
            within_sat(right_dist as int),
        ensures
            final(self).wf(),
            *final(self) == polar_next(*old(self), left_dist, right_dist),
            r.0 == truncate_spec(
                sat(final(self).current_lin_command - final(self).current_ang_command),
                old(self).max_output as int,
            ),
            r.1 == truncate_spec(
                sat(final(self).current_lin_command + final(self).current_ang_command),
                old(self).max_output as int,
            ),
    {
        let lin_val = rdiv64(sat_add64(left_dist, right_dist), 2);
        let ang_val = sat_sub64(right_dist, left_dist);

        let lin_speed = qdiv64(sat_sub64(lin_val, self.linear_control.current), self.te);
        let ang_speed = qdiv64(sat_sub64(ang_val, self.angular_control.current), self.te);

        // Mute the derivative gain near the goal to suppress noise.
        self.linear_control.kd = if abs_below(self.linear_control.current_error, LIN_KD_BAND) {
            0
        } else {
            self.pos_kd
        };
        self.angular_control.kd = if abs_below(self.angular_control.current_error, ANG_KD_BAND) {
            0
        } else {
            self.orient_kd
        };

        self.linear_control.update(lin_val);
        self.angular_control.update(ang_val);

        let lin_speed_goal = self.clamp_speed(
            self.linear_control.get_command(),
            lin_speed,
            self.max_lin_speed,
            self.max_lin_acc,
        );
        let ang_speed_goal = self.clamp_speed(
            self.angular_control.get_command(),
            ang_speed,
            self.max_ang_speed,
            self.max_ang_acc,
        );

        self.linear_speed_control.set_goal(lin_speed_goal);
        self.angular_speed_control.set_goal(ang_speed_goal);

        self.linear_speed_control.update(lin_speed);
        self.angular_speed_control.update(ang_speed);

        self.current_lin_command = if self.linear_control_enabled {
            clamp64(
                sat_add64(self.current_lin_command, self.linear_speed_control.get_command()),
                -((self.max_output as i64) * QSCALE),
                (self.max_output as i64) * QSCALE,
            )
        } else {
            0
        };
        self.current_ang_command = if self.angular_control_enabled {
            clamp64(
                sat_add64(self.current_ang_command, self.angular_speed_control.get_command()),
                -((self.max_angle_output as i64) * QSCALE),
                (self.max_angle_output as i64) * QSCALE,
            )
        } else {
            0
        };

        (
            Command::truncate(
                sat_sub64(self.current_lin_command, self.current_ang_command),
                self.max_output,
            ),
            Command::truncate(
                sat_add64(self.current_lin_command, self.current_ang_command),
                self.max_output,
            ),
        )
    }
}

/// Whether the magnitude of a value is below a bound.
fn abs_below(v: i64, band: i64) -> (r: bool)
    requires
        band >= 0,
    ensures
        r == (iabs(v as int) < band),
{
    -band < v && v < band
}

/// The controller state after one update on the measured wheel distances:
/// measured values and speeds are formed, the position loops run with their
/// derivative gains gated, their outputs are clamped into speed goals, the
/// speed loops run, and their outputs accumulate into the clamped command
/// accumulators.
pub open spec fn polar_next(c: PolarController, left_dist: i64, right_dist: i64) -> PolarController {
    let lv = sat(rdiv(sat(left_dist + right_dist), 2)) as i64;
    let av = sat(right_dist - left_dist) as i64;
    let lin_speed = speed_of(c.te, lv as int, c.linear_control.current) as i64;
    let ang_speed = speed_of(c.te, av as int, c.angular_control.current) as i64;
    let lin_pid = pid_next(
        pid_with_kd(
            c.linear_control,
            gated_kd(c.linear_control.current_error, c.pos_kd, LIN_KD_BAND),
        ),
        lv,
    );
    let ang_pid = pid_next(
        pid_with_kd(
            c.angular_control,
            gated_kd(c.angular_control.current_error, c.orient_kd, ANG_KD_BAND),
        ),
        av,
    );
    let lin_speed_goal = clamp_speed_s(
        c.te,
        lin_pid.command as int,
        lin_speed as int,
        c.max_lin_speed,
        c.max_lin_acc,
    ) as i64;
    let ang_speed_goal = clamp_speed_s(
        c.te,
        ang_pid.command as int,
        ang_speed as int,
        c.max_ang_speed,
        c.max_ang_acc,
    ) as i64;
    let lin_speed_pid = pid_next(pid_with_goal(c.linear_speed_control, lin_speed_goal), lin_speed);
    let ang_speed_pid = pid_next(pid_with_goal(c.angular_speed_control, ang_speed_goal), ang_speed);
    let lin_cmd = if c.linear_control_enabled {
        clamp_s(
            sat(c.current_lin_command + lin_speed_pid.command),
            -(c.max_output as int) * (QSCALE as int),
            (c.max_output as int) * (QSCALE as int),
        )
    } else {
        0
    };
    let ang_cmd = if c.angular_control_enabled {
        clamp_s(
            sat(c.current_ang_command + ang_speed_pid.command),
            -(c.max_angle_output as int) * (QSCALE as int),
            (c.max_angle_output as int) * (QSCALE as int),
        )
    } else {
        0
    };
    PolarController {
        linear_control: lin_pid,
        angular_control: ang_pid,
        linear_speed_control: lin_speed_pid,
        angular_speed_control: ang_speed_pid,
        current_lin_command: lin_cmd as i64,
        current_ang_command: ang_cmd as i64,
        ..c
    }
}

/// Reading the per-wheel goals gives back exactly the pair that was last
/// set, for every `(left, right)` pair in the working range: setting
/// stores the doubled sum and the difference, and reading halves their
/// sum and difference again without losing the low bit.  The left-hand
/// sides below are what [`PolarController::get_left_right_goal`] returns
/// after [`PolarController::set_left_right_goal`] stored the pair.
pub proof fn lemma_left_right_goal_round_trip(left: i64, right: i64)
    requires
        within_sat(2 * left),
        within_sat(2 * right),
    ensures
        ({
            let lg2 = sat(left + right);
            let ag = sat(right - left);
            sat(rdiv(sat(lg2 - ag), 2)) == left && sat(rdiv(sat(lg2 + ag), 2)) == right
        }),
{
    assert(sat(left + right) == left + right);
    assert(sat(right - left) == right - left);
    assert(sat((left + right) - (right - left)) == 2 * left);
    assert(sat((left + right) + (right - left)) == 2 * right);
    lemma_rdiv_exact(left as int, 2);
    lemma_rdiv_exact(right as int, 2);
    assert(left * 2 == 2 * left) by (nonlinear_arith);
    assert(right * 2 == 2 * right) by (nonlinear_arith);
}

} // verus!
