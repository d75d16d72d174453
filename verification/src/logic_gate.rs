use vstd::prelude::*;

verus! {

/// A stateless two-input boolean gate. Each implementation states its truth
/// table exactly in the `ensures` of its `evaluate`.
pub trait Gate {
    fn evaluate(a: bool, b: bool) -> bool;
}

pub struct AndGate;

impl Gate for AndGate {
    fn evaluate(a: bool, b: bool) -> (r: bool)
        ensures
            r == (a && b),
    {
        a && b
    }
}

pub struct OrGate;

impl Gate for OrGate {
    fn evaluate(a: bool, b: bool) -> (r: bool)
        ensures
            r == (a || b),
    {
        a || b
    }
}

pub struct NotGate;

impl NotGate {
    /// The one-input inverter; it is not a two-input `Gate`.
    pub fn evaluate(a: bool) -> (r: bool)
        ensures
            r == !a,
    {
        !a
    }
}

pub struct NandGate;

impl Gate for NandGate {
    fn evaluate(a: bool, b: bool) -> (r: bool)
        ensures
            r == !(a && b),
    {
        !(a && b)
    }
}

pub struct NorGate;

impl Gate for NorGate {
    fn evaluate(a: bool, b: bool) -> (r: bool)
        ensures
            r == !(a || b),
    {
        !(a || b)
    }
}

pub struct XorGate;

impl Gate for XorGate {
    fn evaluate(a: bool, b: bool) -> (r: bool)
        ensures
            r == (a != b),
    {
        a ^ b
    }
}

pub struct XnorGate;

impl Gate for XnorGate {
    fn evaluate(a: bool, b: bool) -> (r: bool)
        ensures
            r == (a == b),
    {
        !(a ^ b)
    }
}

} // verus!
