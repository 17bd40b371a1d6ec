//! The playing colour reported to the robot.

use vstd::prelude::*;

verus! {

/// The colour the robot plays under.
#[derive(Debug, Copy, Clone, PartialEq, Eq, Structural)]
pub enum Color {
    /// Red side.
    Red,
    /// Green side.
    Green,
    /// Blue side.
    Blue,
}

} // verus!
