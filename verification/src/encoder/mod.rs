//! The quad rotary encoder board: its register addresses, the bytes that go
//! over the bus, and the bookkeeping that turns absolute positions into
//! deltas for the parameter store.
//!
//! The bus itself is the caller's. This module says which bytes to write and
//! what the bytes that come back mean.

pub mod encoder_board;
pub mod error;
pub mod processor;
pub mod registers;
pub mod seesaw;

pub use encoder_board::QuadEncoderBoard;
pub use error::EncoderError;
pub use processor::EncoderUpdateProcessor;
pub use registers::{DEFAULT_ADDRESS, ENCODER_COUNT};
pub use seesaw::SeesawDriver;
