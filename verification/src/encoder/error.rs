use vstd::prelude::*;
use vstd::std_specs::convert::FromSpecImpl;

verus! {

/// Errors that can occur when talking to the encoder board.
#[derive(Debug)]
pub enum EncoderError<E> {
    /// Error of the underlying bus.
    I2c(E),
    /// Encoder index out of range (must be 0 to 3).
    InvalidEncoder,
}

/// A bus error becomes [`EncoderError::I2c`], so that `?` carries it through.
impl<E> From<E> for EncoderError<E> {
    fn from(error: E) -> (res: Self) {
        EncoderError::I2c(error)
    }
}

impl<E> FromSpecImpl<E> for EncoderError<E> {
    open spec fn obeys_from_spec() -> bool {
        true
    }

    open spec fn from_spec(error: E) -> Self {
        EncoderError::I2c(error)
    }
}

} // verus!
