//! State of the robot as the IO and pneumatic boards see it.

use vstd::prelude::*;

verus! {

/// The state of a trigger: waiting to fire, or fired.
#[derive(Debug, Copy, Clone, PartialEq, Eq, Structural)]
pub enum TriggerState {
    /// The trigger has fired.
    Triggered,
    /// The trigger is waiting.
    Waiting,
}

/// The state of an IO port.
#[derive(Debug, Copy, Clone, PartialEq, Eq, Structural)]
pub enum IOState {
    /// The port is driven high.
    On,
    /// The port is driven low.
    Off,
}

/// What the buzzer is playing.
#[derive(Debug, Copy, Clone, PartialEq, Eq, Structural)]
pub enum BuzzerState {
    /// Silent.
    Rest,
    /// Playing the error sound.
    PlayErrorSound,
    /// Playing the success sound.
    PlaySuccessSound,
}

/// The robot's state from the IO board's point of view.
#[derive(Debug, Copy, Clone, PartialEq, Eq, Structural)]
pub struct IO {
    /// The buzzer sound.
    pub buzzer: BuzzerState,
    /// The starter cord.
    pub tirette: TriggerState,
    /// Lower left limit switch.
    pub limit_left_down: TriggerState,
    /// Middle left limit switch.
    pub limit_left_middle: TriggerState,
    /// Upper left limit switch.
    pub limit_left_high: TriggerState,
    /// Lower right limit switch.
    pub limit_right_down: TriggerState,
    /// Middle right limit switch.
    pub limit_right_middle: TriggerState,
    /// Upper right limit switch.
    pub limit_right_high: TriggerState,
}

/// The robot's state from the pneumatic board's point of view.
#[derive(Debug, Copy, Clone)]
pub struct Pneumatic {
    /// The pumps (both share one pin).
    pub pump: IOState,
    /// The valves.
    pub valves: [IOState; 4],
}

} // verus!
