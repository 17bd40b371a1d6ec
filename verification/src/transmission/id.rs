//! Board identifiers, used to derive the listening and sending ports of
//! the UDP links.

use vstd::prelude::*;

verus! {

/// The identifier of the motion board.
pub const ID_NAVIGATION: u16 = 1;

/// The identifier of the servo board.
pub const ID_SERVO: u16 = 2;

/// The identifier of the IO board (starter cord and buzzer).
pub const ID_IO: u16 = 4;

/// The identifier of the pneumatic board.
pub const ID_PNEUMATIC: u16 = 5;

/// The identifier of the colour board.
pub const ID_COLOR: u16 = 6;

/// The identifier of the motion-parameter channel.
pub const ID_NAVIGATION_PARAMETERS: u16 = 10;

/// Base port to which a board identifier is added for frames sent to the
/// computer.
pub const INFO_LISTENING_PORT: u16 = 5000;

/// Base port to which a board identifier is added for frames received
/// from the computer.
pub const ELEC_LISTENING_PORT: u16 = 50;

} // verus!
