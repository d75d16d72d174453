use vstd::prelude::*;

use crate::latch::error::LatchError;
use crate::latch::Latch;
use crate::latch::SrLatch;
use crate::logic_gate::Gate;
use crate::logic_gate::NotGate;
use crate::logic_gate::XorGate;
use crate::signal::SignalEdge;

verus! {

/// An edge-triggered wrapper around an owned `SrLatch`. The wrapped latch is
/// updated only at the configured clock transition; the stored clock value is
/// refreshed on every call, so edge detection is always relative to the
/// immediately preceding call's clock.
#[derive(Debug)]
pub struct SrFlipFlop {
    pub clk: bool,
    pub sr_latch: SrLatch,
    pub edge_trigger: SignalEdge,
}

impl SrFlipFlop {
    /// The flip-flop's internal invariant: the wrapped cell is well-formed.
    pub open spec fn wf(&self) -> bool {
        self.sr_latch.wf()
    }

    /// The stored output `Q`.
    pub open spec fn q_spec(&self) -> bool {
        self.sr_latch.q
    }

    /// The stored complementary output `¬Q`.
    pub open spec fn nq_spec(&self) -> bool {
        self.sr_latch.nq
    }

    /// Whether a call that sees the new clock value `clk` reaches the
    /// wrapped latch: on a low-to-high transition for `Rising`, on a
    /// high-to-low transition for `Falling`, and always for `Change`.
    pub open spec fn applies(&self, clk: bool) -> bool {
        match self.edge_trigger {
            SignalEdge::Rising => !self.clk && clk,
            SignalEdge::Falling => self.clk && !clk,
            SignalEdge::Change => true,
        }
    }

    /// A flip-flop with the given trigger mode, in the fixed power-on state:
    /// clock low, wrapped cell at its own power-on state.
    pub fn new(edge_trigger: SignalEdge) -> (r: Self)
        ensures
            r.wf(),
            r.clk == false,
            r.edge_trigger == edge_trigger,
            r.sr_latch == (SrLatch { ns: true, nr: true, q: true, nq: false }),
    {
        SrFlipFlop { clk: false, sr_latch: SrLatch::default(), edge_trigger: edge_trigger }
    }

    /// Apply the active-high inputs under the configured clock gating. The
    /// wrapped latch is updated only when the clock transition matches the
    /// trigger; the stored clock is refreshed unconditionally, even when the
    /// update is suppressed or rejected.
    pub fn set(&mut self, s: bool, r: bool, clk: bool) -> (res: Result<(), LatchError>)
        requires
            old(self).wf(),
        ensures
            final(self).wf(),
            final(self).clk == clk,
            final(self).edge_trigger == old(self).edge_trigger,
            !old(self).applies(clk) ==> res == Ok::<(), LatchError>(())
                && final(self).sr_latch == old(self).sr_latch,
            old(self).applies(clk) && <SrLatch as Latch>::set_allowed(s, r)
                ==> res == Ok::<(), LatchError>(())
                && final(self).sr_latch == old(self).sr_latch.set_next(s, r),
            old(self).applies(clk) && !<SrLatch as Latch>::set_allowed(s, r)
                ==> res == Err::<(), LatchError>(LatchError::InvalidInput)
                && final(self).sr_latch == old(self).sr_latch,
    {
        let did_change = XorGate::evaluate(clk, self.clk);

        let res = match self.edge_trigger {
            SignalEdge::Rising => {
                if did_change && clk {
                    self.sr_latch.set(s, r)
                } else {
                    Ok(())
                }
            },
            SignalEdge::Falling => {
                if did_change && !clk {
                    self.sr_latch.set(s, r)
                } else {
                    Ok(())
                }
            },
            SignalEdge::Change => self.sr_latch.set(s, r),
        };

        self.clk = clk;
        res
    }

    /// Apply the active-low inputs under the same clock gating as `set`.
    pub fn set_n(&mut self, na: bool, nb: bool, clk: bool) -> (res: Result<(), LatchError>)
        requires
            old(self).wf(),
        ensures
            final(self).wf(),
            final(self).clk == clk,
            final(self).edge_trigger == old(self).edge_trigger,
            !old(self).applies(clk) ==> res == Ok::<(), LatchError>(())
                && final(self).sr_latch == old(self).sr_latch,
            old(self).applies(clk) && <SrLatch as Latch>::set_n_allowed(na, nb)
                ==> res == Ok::<(), LatchError>(())
                && final(self).sr_latch == old(self).sr_latch.set_n_next(na, nb),
            old(self).applies(clk) && !<SrLatch as Latch>::set_n_allowed(na, nb)
                ==> res == Err::<(), LatchError>(LatchError::InvalidInput)
                && final(self).sr_latch == old(self).sr_latch,
    {
        self.set(NotGate::evaluate(na), NotGate::evaluate(nb), clk)
    }

    /// Recompute the wrapped latch's outputs from its stored inputs. Does
    /// not look at the clock or the trigger mode.
    pub fn evaluate(&mut self)
        requires
            old(self).wf(),
        ensures
            final(self).wf(),
            *final(self) == (SrFlipFlop {
                clk: old(self).clk,
                sr_latch: old(self).sr_latch.eval_next(),
                edge_trigger: old(self).edge_trigger,
            }),
    {
        self.sr_latch.evaluate()
    }

    /// Read the stored output `Q`; no side effects.
    pub fn get_q(&self) -> (r: bool)
        ensures
            r == self.q_spec(),
    {
        self.sr_latch.get_q()
    }

    /// Read the stored complementary output `¬Q`; no side effects.
    pub fn get_nq(&self) -> (r: bool)
        ensures
            r == self.nq_spec(),
    {
        self.sr_latch.get_nq()
    }
}

/// Law (edge gating): a rising-edge flip-flop admits an update exactly on a
/// low-to-high clock transition, a falling-edge one exactly on a high-to-low
/// transition; in particular a call that repeats the stored clock value never
/// reaches the wrapped latch in either mode.
pub proof fn flip_flop_edge_gating(ff: SrFlipFlop, clk: bool)
    ensures
        ff.edge_trigger == SignalEdge::Rising ==> (ff.applies(clk) <==> (!ff.clk && clk)),
        ff.edge_trigger == SignalEdge::Falling ==> (ff.applies(clk) <==> (ff.clk && !clk)),
        ff.edge_trigger != SignalEdge::Change && clk == ff.clk ==> !ff.applies(clk),
{
}

/// Law (change mode): a change-mode flip-flop admits an update on every
/// call, whatever clock value it sees.
pub proof fn flip_flop_change_applies(ff: SrFlipFlop, clk: bool)
    ensures
        ff.edge_trigger == SignalEdge::Change ==> ff.applies(clk),
{
}

} // verus!
