use vstd::prelude::*;

verus! {

/// Errors reported by pin operations.
#[derive(Debug)]
pub enum WiringXError {
    /// The pin number is already claimed by a live handle.
    PinUsed,
    /// The hardware could not be configured for the requested capability at all.
    Unsupported,
    /// The hardware rejected the value supplied.
    InvalidArgument,
    /// Any other hardware configuration failure, with a description.
    Other(String),
}

} // verus!
