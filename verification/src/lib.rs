//! Digital sequential-logic primitives: latches and clocked flip-flops built
//! from elementary logic gates.
//!
//! Each primitive recomputes its outputs deterministically from its stored
//! state and fresh inputs; there is no timing simulation. The `SrLatch` is the
//! atomic memory cell; `DLatch`, `JkLatch` and `TLatch` derive their set/reset
//! signals from it; `SrFlipFlop` gates latch updates on clock transitions.

pub mod flip_flops;
pub mod latch;
pub mod logic_gate;
pub mod signal;

pub use crate::flip_flops::SrFlipFlop;
pub use crate::latch::error::LatchError;
pub use crate::latch::DLatch;
pub use crate::latch::JkLatch;
pub use crate::latch::Latch;
pub use crate::latch::SrLatch;
pub use crate::latch::TLatch;
pub use crate::logic_gate::AndGate;
pub use crate::logic_gate::Gate;
pub use crate::logic_gate::NandGate;
pub use crate::logic_gate::NorGate;
pub use crate::logic_gate::NotGate;
pub use crate::logic_gate::OrGate;
pub use crate::logic_gate::XnorGate;
pub use crate::logic_gate::XorGate;
pub use crate::signal::SignalEdge;
