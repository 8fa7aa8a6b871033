//! State layer of a small control surface: rotary encoders edit ranged
//! parameters that are grouped into pages, a display shows the active page,
//! and a change feed carries edits to a synthesis engine.
//!
//! Everything in this crate is plain data and arithmetic. Bus traffic, timers
//! and locking belong to the caller, which hands readings in and takes
//! decisions out.

pub mod display;
pub mod encoder;
pub mod parameter_values;
