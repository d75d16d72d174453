use vstd::prelude::*;

verus! {

/// The clock transition at which an edge-triggered flip-flop admits an update
/// to its wrapped latch: on a low-to-high transition, on a high-to-low
/// transition, or on every call regardless of the clock.
#[derive(Clone, Copy, Debug, PartialEq, Eq, Structural)]
pub enum SignalEdge {
    Rising,
    Falling,
    Change,
}

} // verus!
