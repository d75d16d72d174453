use vstd::prelude::*;

verus! {

/// The single error a latch can raise: the forbidden active-low input pair
/// `(false, false)` was offered to an `SrLatch`.
#[derive(Clone, Copy, Debug, PartialEq, Eq, Structural)]
pub enum LatchError {
    InvalidInput,
}

impl LatchError {
    /// A short description of the error, suitable for display.
    pub fn message(&self) -> (r: &'static str)
        ensures
            r@ == "Invalid latch input combination."@,
    {
        "Invalid latch input combination."
    }
}

} // verus!
