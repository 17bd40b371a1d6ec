//! Motion-control core for a differential-drive robot.
//!
//! The crate turns wheel-encoder ticks into an estimated pose and per-wheel
//! motor commands, and detects mechanical stalls.  All physical quantities
//! are carried as Q16.16 fixed-point integers (an `i64` holding the value
//! scaled by 65536): distances in millimetres, angles in radians, gains and
//! speeds likewise.  Angles cross the public boundary as integer
//! milliradians only.

pub mod blocking;
pub mod fixed;
pub mod motor;
pub mod navigation;
pub mod odometry;
pub mod pid;
pub mod trame;
pub mod trame_reader;
pub mod transmission;
pub mod trig;
pub mod units;
pub mod utils;
