use vstd::prelude::*;

verus! {

/// Errors that can occur when working with parameters.
#[derive(Debug, Clone, Copy, PartialEq, Eq, Structural)]
pub enum ParameterError {
    /// Page index is out of bounds (must be < N_PAGES).
    InvalidPageIndex,
    /// Encoder index is out of bounds (must be < PARAMS_PER_PAGE).
    InvalidEncoderIndex,
    /// Operation targeted a `Null` slot.
    NullSlot,
    /// Global parameter index is out of bounds (must be < N_PAGES * PARAMS_PER_PAGE).
    InvalidGlobalIndex,
}

} // verus!
