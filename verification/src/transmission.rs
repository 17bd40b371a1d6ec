//! Types shared with the telemetry and command transport.
//!
//! The wire work itself (sockets, JSON encoding) lives outside this crate;
//! here stand the plain message types and the message-kind tags that the
//! core hands over and receives.

use vstd::prelude::*;

pub mod color;
pub mod id;
pub mod io;
pub mod navigation;
pub mod servo;

verus! {

/// Largest payload a frame may carry.
pub const FRAME_MAX_SIZE: usize = 256;

/// The kind of a message on the wire.
#[derive(Clone, Copy, Debug, PartialEq, Eq, Structural)]
pub enum MessageKind {
    /// A servo-motor command.
    Servo,
    /// A motion command.
    Navigation,
}

impl MessageKind {
    /// The wire tag of this kind.
    pub fn to_u8(&self) -> (r: u8)
        ensures
            r == kind_tag(*self),
    {
        match self {
            MessageKind::Servo => 4,
            MessageKind::Navigation => 5,
        }
    }

    /// Decode a wire tag; only the two known tags are accepted.
    pub fn from_u8(data: u8) -> (r: Result<MessageKind, ()>)
        ensures
            data == 4 ==> r == Result::<MessageKind, ()>::Ok(MessageKind::Servo),
            data == 5 ==> r == Result::<MessageKind, ()>::Ok(MessageKind::Navigation),
            data != 4 && data != 5 ==> r == Result::<MessageKind, ()>::Err(()),
    {
        match data {
            4 => Ok(MessageKind::Servo),
            5 => Ok(MessageKind::Navigation),
            _ => Err(()),
        }
    }
}

/// The wire tag of a message kind.
pub open spec fn kind_tag(k: MessageKind) -> u8 {
    match k {
        MessageKind::Servo => 4,
        MessageKind::Navigation => 5,
    }
}

} // verus!
