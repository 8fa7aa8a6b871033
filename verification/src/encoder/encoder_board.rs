//! The board's registers by encoder, with the index checked.

use vstd::prelude::*;

use super::error::EncoderError;
use super::registers::{
    ENCODER_COUNT, ENCODER_INT_SET, ENCODER_POSITION, MODULE_ENCODER, MODULE_GPIO, STATUS_INTFLAG,
};
use super::seesaw::SeesawDriver;

verus! {

/// The quad rotary encoder board on a bus.
pub struct QuadEncoderBoard<I2C> {
    driver: SeesawDriver<I2C>,
}

impl<I2C> QuadEncoderBoard<I2C> {
    /// Create a board interface that owns the bus `i2c` and talks to the
    /// 7-bit address `address`.
    pub fn new(i2c: I2C, address: u8) -> (board: Self)
        ensures
            board.spec_driver().spec_address() == address,
            board.spec_driver().spec_i2c() == i2c,
    {
        Self { driver: SeesawDriver::new(i2c, address) }
    }

    /// The driver that the board talks through.
    pub closed spec fn spec_driver(&self) -> SeesawDriver<I2C> {
        self.driver
    }

    /// The driver, for the transfers that the caller makes.
    pub fn driver_mut(&mut self) -> (driver: &mut SeesawDriver<I2C>)
        ensures
            *driver == old(self).spec_driver(),
            final(self).spec_driver() == *final(driver),
    {
        &mut self.driver
    }
}

/// The register that holds the absolute position of `encoder`.
///
/// Returns [`EncoderError::InvalidEncoder`] if `encoder` is not below
/// `ENCODER_COUNT`.
pub fn position_register<E>(encoder: u8) -> (res: Result<[u8; 2], EncoderError<E>>)
    ensures
        encoder < ENCODER_COUNT ==> res is Ok && res->Ok_0@ == seq![
            MODULE_ENCODER,
            ENCODER_POSITION | encoder,
        ] && res->Ok_0[1] == ENCODER_POSITION + encoder,
        encoder >= ENCODER_COUNT ==> res is Err && res->Err_0 is InvalidEncoder,
{
    if encoder >= ENCODER_COUNT as u8 {
        return Err(EncoderError::InvalidEncoder);
    }
    assert(0x30u8 | encoder == 0x30u8 + encoder) by (bit_vector)
        requires
            encoder < 4u8,
    ;
    Ok([MODULE_ENCODER, ENCODER_POSITION | encoder])
}

/// The register that switches on the interrupt of `encoder`. Writing 1 to it
/// makes the INT pin go low whenever that encoder moves.
///
/// Returns [`EncoderError::InvalidEncoder`] if `encoder` is not below
/// `ENCODER_COUNT`.
pub fn interrupt_enable_register<E>(encoder: u8) -> (res: Result<[u8; 2], EncoderError<E>>)
    ensures
        encoder < ENCODER_COUNT ==> res is Ok && res->Ok_0@ == seq![
            MODULE_ENCODER,
            ENCODER_INT_SET | encoder,
        ] && res->Ok_0[1] == ENCODER_INT_SET + encoder,
        encoder >= ENCODER_COUNT ==> res is Err && res->Err_0 is InvalidEncoder,
{
    if encoder >= ENCODER_COUNT as u8 {
        return Err(EncoderError::InvalidEncoder);
    }
    assert(0x10u8 | encoder == 0x10u8 + encoder) by (bit_vector)
        requires
            encoder < 4u8,
    ;
    Ok([MODULE_ENCODER, ENCODER_INT_SET | encoder])
}

/// The register whose read clears all pending interrupt flags.
pub fn interrupt_flag_register() -> (register: [u8; 2])
    ensures
        register@ == seq![MODULE_GPIO, STATUS_INTFLAG],
{
    [MODULE_GPIO, STATUS_INTFLAG]
}

} // verus!
