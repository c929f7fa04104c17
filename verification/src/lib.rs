//! Protocol driver core for the SM2335EGH five-channel constant-current LED
//! controller.
//!
//! The chip is written over a two-wire, clock-and-data serial bus that the
//! host bit-bangs. This crate holds the protocol itself: how channel
//! intensities and current levels become a twelve-byte command frame, and how
//! a frame becomes an exact sequence of clock and data line operations. It
//! touches no hardware; the caller performs the operations it is handed, in
//! order, on its two output lines.

pub mod driver;
pub mod frame;
pub mod signal;

pub use driver::{Sm2335Egh, DEFAULT_CW_POWER_LEVEL, DEFAULT_RGB_POWER_LEVEL};
pub use frame::{Mode, Msg, BIT_DEPTH, CHANNEL_MAX};
pub use signal::{LineLevels, LineOp};
