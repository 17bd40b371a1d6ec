//! High-level description of one servo motor.

use vstd::prelude::*;

verus! {

/// One servo motor.
#[derive(Debug, Copy, Clone, Eq)]
pub struct Servo {
    /// Identifier of the servo.  Zero is the wildcard: two servos with
    /// identifier zero compare equal whatever their other fields.
    pub id: u8,
    /// Current known position.
    pub known_position: u16,
    /// Whether the servo is commanded in angle or in speed.
    pub control: Control,
    /// Direction of rotation for a speed command.
    pub rotation: Rotation,
    /// Argument of the `Speed` or `Position` command.
    pub data: u16,
    /// True when the servo is blocked.
    pub blocked: bool,
    /// Behaviour of the servo when blocked from outside.
    pub mode: BlockingMode,
    /// Colour shown by the servo.
    pub color: Color,
}

impl PartialEq for Servo {
    /// Equality for debugging: identifier zero is a wildcard, and the
    /// rotation and data fields never take part.
    fn eq(&self, other: &Servo) -> (r: bool) {
        self.id == other.id && (self.id == 0 || (self.known_position == other.known_position
            && self.control == other.control && self.blocked == other.blocked && self.mode
            == other.mode && self.color == other.color))
    }
}

impl vstd::std_specs::cmp::PartialEqSpecImpl for Servo {
    open spec fn obeys_eq_spec() -> bool {
        true
    }

    open spec fn eq_spec(&self, other: &Servo) -> bool {
        self.id == other.id && (self.id == 0 || (self.known_position == other.known_position
            && self.control == other.control && self.blocked == other.blocked && self.mode
            == other.mode && self.color == other.color))
    }
}

impl Default for Servo {
    /// A blank position-controlled servo.
    fn default() -> (r: Servo)
        ensures
            r.id == 0 && r.known_position == 0 && r.control == Control::Position && r.rotation
                == Rotation::CounterClockwise && r.data == 0 && r.blocked == false && r.mode
                == BlockingMode::Unblocking && r.color == Color::Green,
    {
        Servo {
            id: 0,
            known_position: 0,
            control: Control::Position,
            rotation: Rotation::CounterClockwise,
            data: 0,
            blocked: false,
            mode: BlockingMode::Unblocking,
            color: Color::Green,
        }
    }
}

/// A group of servos addressed together.
#[derive(Debug, Copy, Clone)]
pub struct ServoGroup {
    /// The servos of the group.
    pub servos: Servo,
}

/// Behaviour of a servo when blocked.
#[derive(Debug, PartialEq, Copy, Clone, Eq, Structural)]
pub enum BlockingMode {
    /// Release the pressure when blocked.
    Unblocking,
    /// Hold a torque against the blockage.
    HoldOnBlock,
}

impl Default for BlockingMode {
    /// Release by default.
    fn default() -> (r: Self)
        ensures
            r == BlockingMode::Unblocking,
    {
        BlockingMode::Unblocking
    }
}

/// Direction of rotation of a speed-controlled servo.
#[derive(Debug, PartialEq, Copy, Clone, Eq, Structural)]
pub enum Rotation {
    /// Trigonometric direction, the default.
    CounterClockwise,
    /// Clockwise direction.
    Clockwise,
}

impl Default for Rotation {
    /// Trigonometric by default.
    fn default() -> (r: Self)
        ensures
            r == Rotation::CounterClockwise,
    {
        Rotation::CounterClockwise
    }
}

/// How a servo is commanded.
#[derive(Debug, PartialEq, Copy, Clone, Eq, Structural)]
pub enum Control {
    /// Commanded in speed.
    Speed,
    /// Commanded in position.
    Position,
}

impl Default for Control {
    /// Position control by default.
    fn default() -> (r: Self)
        ensures
            r == Control::Position,
    {
        Control::Position
    }
}

/// Colour shown by a servo.
#[derive(Debug, PartialEq, Copy, Clone, Eq, Structural)]
pub enum Color {
    /// Black.
    Black,
    /// Red.
    Red,
    /// Green.
    Green,
    /// Yellow.
    Yellow,
    /// Blue.
    Blue,
    /// Magenta.
    Magenta,
    /// Cyan.
    Cyan,
    /// White.
    White,
}

impl Default for Color {
    /// Green by default.
    fn default() -> (r: Self)
        ensures
            r == Color::Green,
    {
        Color::Green
    }
}

} // verus!
