//! Seesaw register addresses of the quad rotary encoder board.
//!
//! A register is named by two bytes, the module and the offset within it. For
//! the registers that exist once per encoder, the encoder index (0 to 3) is
//! OR-ed into the offset.

use vstd::prelude::*;

verus! {

/// Seesaw status module identifier.
pub const MODULE_GPIO: u8 = 0x01;

/// Seesaw encoder module identifier.
pub const MODULE_ENCODER: u8 = 0x11;

/// Interrupt flag register (32-bit, read-only). Reading it clears all
/// interrupt flags and releases the INT pin.
pub const STATUS_INTFLAG: u8 = 0x0A;

/// Base register of the absolute encoder position (32-bit signed).
pub const ENCODER_POSITION: u8 = 0x30;

/// Base register of the encoder delta since the last read.
pub const ENCODER_DELTA: u8 = 0x40;

/// Base register that enables an encoder's interrupt.
pub const ENCODER_INT_SET: u8 = 0x10;

/// Base register that disables an encoder's interrupt.
pub const ENCODER_INT_CLR: u8 = 0x20;

/// Delay in microseconds that the firmware needs between the write of a
/// register address and the read of its value.
pub const SEESAW_DELAY_US: u64 = 125;

/// Default bus address of the board.
pub const DEFAULT_ADDRESS: u8 = 0x49;

/// Number of rotary encoders on the board.
pub const ENCODER_COUNT: usize = 4;

} // verus!
