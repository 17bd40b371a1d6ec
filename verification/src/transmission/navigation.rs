//! The message types exchanged with the motion board.

use vstd::prelude::*;

verus! {

/// The state and command frame exchanged between the computer and the
/// motion board.
#[derive(Debug, Copy, Clone, PartialEq, Eq, Structural)]
pub struct NavigationFrame {
    /// Robot x position in tenths of millimetres.
    pub x: i32,
    /// Robot y position in tenths of millimetres.
    pub y: i32,
    /// Robot heading in hundreds of microradians.
    pub angle: i32,
    /// Distance run by the left wheel in millimetres.
    pub left_dist: i32,
    /// Distance run by the right wheel in millimetres.
    pub right_dist: i32,
    /// True when the robot cannot advance.
    pub blocked: bool,
    /// True when the robot has finished the command.
    pub moving_done: bool,
    /// True when the linear control loop runs.
    pub asserv_lin: bool,
    /// True when the angular control loop runs.
    pub asserv_ang: bool,
    /// Module LED lighting, where present.
    pub led: bool,
    /// When true the computer may overwrite (x, y, angle).
    pub reset: bool,
    /// Longitudinal speed ceiling in millimetres per second.
    pub max_lin_speed: u16,
    /// Angular speed ceiling in milliradians per second.
    pub max_ang_speed: u16,
    /// Longitudinal accuracy in tenths of millimetres.
    pub lin_accuracy: u16,
    /// Angular accuracy in tenths of milliradians.
    pub ang_accuracy: u16,
    /// The command to run.
    pub command: NavigationCommand,
    /// First command argument.
    pub args_cmd1: u16,
    /// Second command argument.
    pub args_cmd2: u16,
    /// Running command number; a larger one preempts.
    pub counter: u16,
}

/// The commands the motion board can run.
#[derive(Debug, PartialEq, Copy, Clone, Eq, Structural)]
pub enum NavigationCommand {
    /// Move forward; arguments: distance.
    GoForward,
    /// Move backward; arguments: distance.
    GoBackward,
    /// Turn by an angle relative to the current heading; arguments: angle.
    TurnRelative,
    /// Turn to an absolute heading; arguments: angle.
    TurnAbsolute,
    /// Do nothing.
    DoNothing,
    /// Emergency stop.
    EmergencyStop,
    /// Ordinary stop.
    Stop,
}

impl Default for NavigationCommand {
    /// The idle command.
    fn default() -> (r: Self)
        ensures
            r == NavigationCommand::DoNothing,
    {
        NavigationCommand::DoNothing
    }
}

/// Live-tunable motion parameters, every ratio a Q16.16 fixed-point value
/// as the core itself holds it.
#[derive(Debug, Copy, Clone, PartialEq, Eq, Structural)]
pub struct NavigationParametersFrame {
    /// Coder-wheel radius in tenths of millimetres.
    pub coder_radius: u16,
    /// Right-wheel correction coefficient in Q16.16.
    pub right_wheel_coef: u32,
    /// Distance between the coder wheels in tenths of millimetres.
    pub inter_axial_length: u16,
    /// Proportional position gain in Q16.16.
    pub pos_kp: u32,
    /// Derivative position gain in Q16.16.
    pub pos_kd: u32,
    /// Proportional orientation gain in Q16.16.
    pub orient_kp: u32,
    /// Derivative orientation gain in Q16.16.
    pub orient_kd: u32,
}

} // verus!
