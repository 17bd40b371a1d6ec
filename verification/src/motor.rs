//! The per-wheel motor command: a direction and a 16-bit effort.

use vstd::prelude::*;

use crate::fixed::iabs;
use crate::fixed::QSCALE;

verus! {

/// A command for one motor: drive forward or backward at the given effort.
#[derive(Debug, Copy, Clone, PartialEq, Eq, Structural)]
pub enum Command {
    /// The motor must drive forward at the given effort.
    Front(u16),
    /// The motor must drive backward at the given effort.
    Back(u16),
}

/// The effort carried by a command, whatever its direction.
pub open spec fn command_value(c: Command) -> int {
    match c {
        Command::Front(v) => v as int,
        Command::Back(v) => v as int,
    }
}

/// What `Command::truncate` yields: the sign picks the direction, the
/// magnitude is the whole-unit part of the Q16.16 value, capped at
/// `max_output`.
pub open spec fn truncate_spec(value: int, max_output: int) -> Command {
    let m = iabs(value) / (QSCALE as int);
    let mag = if m > max_output {
        max_output
    } else {
        m
    };
    if value >= 0 {
        Command::Front(mag as u16)
    } else {
        Command::Back(mag as u16)
    }
}

impl Command {
    /// The effort of the command.
    pub fn get_value(&self) -> (r: u16)
        ensures
            r == command_value(*self),
    {
        match self {
            Command::Front(val) => *val,
            Command::Back(val) => *val,
        }
    }

    /// Turn a signed Q16.16 effort into a motor command.  Total: any input
    /// yields a command whose magnitude never exceeds `max_output`.
    pub fn truncate(value: i64, max_output: u16) -> (r: Command)
        ensures
            r == truncate_spec(value as int, max_output as int),
            command_value(r) <= max_output,
    {
        let m: u64 = if value >= 0 {
            (value as u64) / (QSCALE as u64)
        } else {
            ((-(value as i128)) as u64) / (QSCALE as u64)
        };
        let mag: u16 = if m > max_output as u64 {
            max_output
        } else {
            m as u16
        };
        if value >= 0 {
            Command::Front(mag)
        } else {
            Command::Back(mag)
        }
    }
}

} // verus!
