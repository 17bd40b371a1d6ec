//! Stall detection: the robot counts as blocked when a wheel receives a
//! commanded effort above a threshold yet barely moves in the commanded
//! direction.
//!
//! Each wheel is judged independently and the verdicts are joined by a
//! logical or; a wheel whose commanded effort is at or below the command
//! threshold never contributes a positive verdict.  A slow rotation with
//! the wheels commanded in opposite directions can trip the detector —
//! a known false positive of the heuristic, kept as designed.

use vstd::prelude::*;

use crate::fixed::sat;
use crate::fixed::sat_sub64;
use crate::motor::command_value;
use crate::motor::Command;

verus! {

/// Whether one wheel reports a stall: commanded above the threshold, yet
/// displaced less than the distance threshold in the commanded direction.
pub open spec fn wheel_blocked(c: Command, diff: int, command_threshold: u16, distance_threshold: i64) -> bool {
    command_value(c) > command_threshold && (match c {
        Command::Front(_) => diff < distance_threshold,
        Command::Back(_) => diff > -distance_threshold,
    })
}

/// The stall detector.
#[derive(Debug, Copy, Clone)]
pub struct Blocking {
    /// Efforts above this count as a real command.
    pub command_threshold: u16,
    /// Displacements below this (Q16.16 millimetres) count as standing
    /// still.
    pub distance_threshold: i64,
    /// Left wheel distance recorded at the last update.
    pub last_dist_left: i64,
    /// Right wheel distance recorded at the last update.
    pub last_dist_right: i64,
    /// The cached verdict of the last update.
    pub blocked: bool,
}

impl Blocking {
    /// The distance threshold is a magnitude: never negative.
    pub open spec fn wf(&self) -> bool {
        self.distance_threshold >= 0
    }

    /// A fresh detector with the given thresholds and a clear verdict.
    pub fn new(command_threshold: u16, distance_threshold: i64) -> (r: Blocking)
        requires
            distance_threshold >= 0,
        ensures
            r.wf(),
            r == (Blocking {
                command_threshold,
                distance_threshold,
                last_dist_left: 0,
                last_dist_right: 0,
                blocked: false,
            }),
    {
        Blocking {
            command_threshold,
            distance_threshold,
            last_dist_left: 0,
            last_dist_right: 0,
            blocked: false,
        }
    }

    /// Clear the displacement baseline and the verdict.  Call this
    /// whenever a new goal is issued, so stale deltas cannot trigger.
    /// Afterward `blocked()` is false, whatever the prior state.
    pub fn reset(&mut self)
        ensures
            *final(self) == (Blocking {
                last_dist_left: 0,
                last_dist_right: 0,
                blocked: false,
                ..*old(self)
            }),
            final(self).blocked == false,
    {
        self.last_dist_left = 0;
        self.last_dist_right = 0;
        self.blocked = false;
    }

    /// Judge the latest commands against the displacement since the prior
    /// call.  The verdict is recomputed wholly from this call's inputs.
    pub fn update(&mut self, command: (Command, Command), dist: (i64, i64))
        requires
            old(self).wf(),
        ensures
            final(self).wf(),
            final(self).last_dist_left == dist.0,
            final(self).last_dist_right == dist.1,
            final(self).blocked == (wheel_blocked(
                command.0,
                sat(dist.0 - old(self).last_dist_left),
                old(self).command_threshold,
                old(self).distance_threshold,
            ) || wheel_blocked(
                command.1,
                sat(dist.1 - old(self).last_dist_right),
                old(self).command_threshold,
                old(self).distance_threshold,
            )),
            final(self).command_threshold == old(self).command_threshold,
            final(self).distance_threshold == old(self).distance_threshold,
    {
        let left_diff = sat_sub64(dist.0, self.last_dist_left);
        let right_diff = sat_sub64(dist.1, self.last_dist_right);
        self.last_dist_left = dist.0;
        self.last_dist_right = dist.1;
        let (left_command, right_command) = command;

        let left_verdict = if left_command.get_value() > self.command_threshold {
            match left_command {
                Command::Front(_) => left_diff < self.distance_threshold,
                Command::Back(_) => left_diff > -self.distance_threshold,
            }
        } else {
            false
        };
        let right_verdict = if right_command.get_value() > self.command_threshold {
            match right_command {
                Command::Front(_) => right_diff < self.distance_threshold,
                Command::Back(_) => right_diff > -self.distance_threshold,
            }
        } else {
            false
        };
        self.blocked = left_verdict || right_verdict;
    }

    /// The verdict cached by the last update.
    pub fn blocked(&self) -> (r: bool)
        ensures
            r == self.blocked,
    {
        self.blocked
    }
}

} // verus!
