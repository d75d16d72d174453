pub mod error;

use vstd::prelude::*;

use crate::latch::error::LatchError;
use crate::logic_gate::Gate;
use crate::logic_gate::NandGate;
use crate::logic_gate::NotGate;

verus! {

/// The next stored output of a NAND-wired SR cell: the fresh `nq` is computed
/// from the active-low reset and the previous `q` (the feedback term), then
/// the fresh `q` from the active-low set and that fresh `nq`.
///
/// With both inputs inactive (`ns == nr == true`) this holds the previous
/// `q`; an asserted (low) `ns` forces `q` high; an asserted (low) `nr` with
/// `ns` inactive forces `q` low.
pub open spec fn sr_step_q(ns: bool, nr: bool, q: bool) -> bool {
    !(ns && !(nr && q))
}

/// The capability shared by the level-sensitive latches: apply active-high
/// inputs (`set`) or active-low inputs (`set_n`), recompute the stored
/// outputs (`evaluate`), and read `q` / `nq`.
///
/// Each implementation pins its behaviour down with spec functions: which
/// inputs a call accepts (`set_allowed` / `set_n_allowed`) and the exact
/// post-state of an accepted call (`set_next` / `set_n_next`, `eval_next`).
/// A rejected call returns `LatchError::InvalidInput` and leaves the latch
/// untouched.
pub trait Latch: Sized {
    /// The latch's internal invariant; constructors establish it and every
    /// method preserves it.
    spec fn wf(&self) -> bool;

    /// The stored output `Q`.
    spec fn q_spec(&self) -> bool;

    /// The stored complementary output `¬Q`.
    spec fn nq_spec(&self) -> bool;

    /// Whether `set(a, b)` is accepted.
    spec fn set_allowed(a: bool, b: bool) -> bool;

    /// The state after an accepted `set(a, b)`.
    spec fn set_next(&self, a: bool, b: bool) -> Self;

    /// Whether `set_n(na, nb)` is accepted.
    spec fn set_n_allowed(na: bool, nb: bool) -> bool;

    /// The state after an accepted `set_n(na, nb)`.
    spec fn set_n_next(&self, na: bool, nb: bool) -> Self;

    /// The state after `evaluate`.
    spec fn eval_next(&self) -> Self;

    /// Apply the active-high inputs `a` (set) and `b` (reset), recomputing
    /// the stored outputs on success.
    fn set(&mut self, a: bool, b: bool) -> (r: Result<(), LatchError>)
        requires
            old(self).wf(),
        ensures
            final(self).wf(),
            Self::set_allowed(a, b) ==> r == Ok::<(), LatchError>(())
                && *final(self) == old(self).set_next(a, b),
            !Self::set_allowed(a, b) ==> r == Err::<(), LatchError>(LatchError::InvalidInput)
                && *final(self) == *old(self),
    ;

    /// Apply the active-low inputs `na` and `nb`, recomputing the stored
    /// outputs on success.
    fn set_n(&mut self, na: bool, nb: bool) -> (r: Result<(), LatchError>)
        requires
            old(self).wf(),
        ensures
            final(self).wf(),
            Self::set_n_allowed(na, nb) ==> r == Ok::<(), LatchError>(())
                && *final(self) == old(self).set_n_next(na, nb),
            !Self::set_n_allowed(na, nb) ==> r == Err::<(), LatchError>(LatchError::InvalidInput)
                && *final(self) == *old(self),
    ;

    /// Recompute the stored outputs from the stored inputs.
    fn evaluate(&mut self)
        requires
            old(self).wf(),
        ensures
            final(self).wf(),
            *final(self) == old(self).eval_next(),
    ;

    /// Read the stored output `Q`; no side effects.
    fn get_q(&self) -> (r: bool)
        ensures
            r == self.q_spec(),
    ;

    /// Read the stored complementary output `¬Q`; no side effects.
    fn get_nq(&self) -> (r: bool)
        ensures
            r == self.nq_spec(),
    ;
}

/// The foundational bistable memory cell. `ns` / `nr` are the stored
/// active-low set and reset inputs; `q` / `nq` are the cached outputs. The
/// pair `(ns, nr) == (false, false)` is the forbidden input combination and
/// is rejected before any mutation.
#[derive(Debug)]
pub struct SrLatch {
    pub ns: bool,
    pub nr: bool,
    pub q: bool,
    pub nq: bool,
}

impl Latch for SrLatch {
    open spec fn wf(&self) -> bool {
        self.nq == !self.q
    }

    open spec fn q_spec(&self) -> bool {
        self.q
    }

    open spec fn nq_spec(&self) -> bool {
        self.nq
    }

    open spec fn set_allowed(a: bool, b: bool) -> bool {
        !(a && b)
    }

    open spec fn set_next(&self, a: bool, b: bool) -> Self {
        self.set_n_next(!a, !b)
    }

    open spec fn set_n_allowed(na: bool, nb: bool) -> bool {
        na || nb
    }

    open spec fn set_n_next(&self, na: bool, nb: bool) -> Self {
        SrLatch {
            ns: na,
            nr: nb,
            q: sr_step_q(na, nb, self.q),
            nq: !sr_step_q(na, nb, self.q),
        }
    }

    open spec fn eval_next(&self) -> Self {
        SrLatch {
            ns: self.ns,
            nr: self.nr,
            q: sr_step_q(self.ns, self.nr, self.q),
            nq: !sr_step_q(self.ns, self.nr, self.q),
        }
    }

    fn set(&mut self, s: bool, r: bool) -> Result<(), LatchError> {
        self.set_n(NotGate::evaluate(s), NotGate::evaluate(r))
    }

    fn set_n(&mut self, ns: bool, nr: bool) -> Result<(), LatchError> {
        if ns == false && nr == false {
            return Err(LatchError::InvalidInput);
        }

        self.ns = ns;
        self.nr = nr;
        self.evaluate();

        Ok(())
    }

    fn evaluate(&mut self) {
        let next_nq = NandGate::evaluate(self.nr, self.q);
        let next_q = NandGate::evaluate(self.ns, next_nq);

        self.q = next_q;
        self.nq = NotGate::evaluate(self.q);
    }

    fn get_q(&self) -> bool {
        self.q
    }

    fn get_nq(&self) -> bool {
        self.nq
    }
}

impl Default for SrLatch {
    /// The fixed power-on state: both inputs inactive, `q` high.
    fn default() -> (r: Self)
        ensures
            r.wf(),
            r == (SrLatch { ns: true, nr: true, q: true, nq: false }),
    {
        Self { ns: true, nr: true, q: true, nq: false }
    }
}

/// A transparent data latch over an owned `SrLatch`: while `e` (enable) is
/// high, `q` follows `d`; while `e` is low, the stored state is held.
#[derive(Debug)]
pub struct DLatch {
    pub d: bool,
    pub e: bool,
    pub sr_latch: SrLatch,
}

impl Latch for DLatch {
    open spec fn wf(&self) -> bool {
        self.sr_latch.wf()
    }

    open spec fn q_spec(&self) -> bool {
        self.sr_latch.q
    }

    open spec fn nq_spec(&self) -> bool {
        self.sr_latch.nq
    }

    open spec fn set_allowed(a: bool, b: bool) -> bool {
        true
    }

    open spec fn set_next(&self, a: bool, b: bool) -> Self {
        DLatch { d: a, e: b, sr_latch: self.sr_latch }.eval_next()
    }

    open spec fn set_n_allowed(na: bool, nb: bool) -> bool {
        true
    }

    open spec fn set_n_next(&self, na: bool, nb: bool) -> Self {
        self.set_next(!na, !nb)
    }

    open spec fn eval_next(&self) -> Self {
        DLatch {
            d: self.d,
            e: self.e,
            sr_latch: self.sr_latch.set_n_next(
                !(self.d && self.e),
                !(!self.d && self.e),
            ),
        }
    }

    fn set(&mut self, d: bool, e: bool) -> Result<(), LatchError> {
        self.d = d;
        self.e = e;

        self.evaluate();
        Ok(())
    }

    fn set_n(&mut self, nd: bool, ne: bool) -> Result<(), LatchError> {
        self.set(NotGate::evaluate(nd), NotGate::evaluate(ne))
    }

    fn evaluate(&mut self) {
        let ns = NandGate::evaluate(self.d, self.e);
        let nr = NandGate::evaluate(NotGate::evaluate(self.d), self.e);

        // The derived signals can never both be low, so the inner update is
        // never rejected.
        match self.sr_latch.set_n(ns, nr) {
            Ok(()) => {}
            Err(_) => unreached(),
        }
    }

    fn get_q(&self) -> bool {
        self.sr_latch.get_q()
    }

    fn get_nq(&self) -> bool {
        self.sr_latch.get_nq()
    }
}

impl Default for DLatch {
    /// The fixed power-on state: transparent with `d` high, inner cell at its
    /// own power-on state.
    fn default() -> (r: Self)
        ensures
            r.wf(),
            r == (DLatch {
                d: true,
                e: true,
                sr_latch: SrLatch { ns: true, nr: true, q: true, nq: false },
            }),
    {
        Self { d: true, e: true, sr_latch: SrLatch::default() }
    }
}

/// A JK latch over an owned `SrLatch`: `(j, k)` of `(false, false)` holds,
/// `(true, false)` sets, `(false, true)` resets, and `(true, true)` toggles
/// the stored output, by feeding the latch's own outputs back into the
/// derived set/reset signals.
#[derive(Debug)]
pub struct JkLatch {
    pub j: bool,
    pub k: bool,
    pub sr_latch: SrLatch,
}

impl Latch for JkLatch {
    open spec fn wf(&self) -> bool {
        self.sr_latch.wf()
    }

    open spec fn q_spec(&self) -> bool {
        self.sr_latch.q
    }

    open spec fn nq_spec(&self) -> bool {
        self.sr_latch.nq
    }

    open spec fn set_allowed(a: bool, b: bool) -> bool {
        true
    }

    open spec fn set_next(&self, a: bool, b: bool) -> Self {
        JkLatch { j: a, k: b, sr_latch: self.sr_latch }.eval_next()
    }

    open spec fn set_n_allowed(na: bool, nb: bool) -> bool {
        true
    }

    open spec fn set_n_next(&self, na: bool, nb: bool) -> Self {
        self.set_next(!na, !nb)
    }

    open spec fn eval_next(&self) -> Self {
        JkLatch {
            j: self.j,
            k: self.k,
            sr_latch: self.sr_latch.set_n_next(
                !(self.j && self.sr_latch.nq),
                !(self.k && self.sr_latch.q),
            ),
        }
    }

    fn set(&mut self, j: bool, k: bool) -> Result<(), LatchError> {
        self.j = j;
        self.k = k;
        self.evaluate();

        Ok(())
    }

    fn set_n(&mut self, nj: bool, nk: bool) -> Result<(), LatchError> {
        self.set(NotGate::evaluate(nj), NotGate::evaluate(nk))
    }

    fn evaluate(&mut self) {
        let ns = NandGate::evaluate(self.j, self.sr_latch.get_nq());
        let nr = NandGate::evaluate(self.k, self.sr_latch.get_q());

        // With `nq == !q`, `j && nq` and `k && q` cannot hold together, so
        // the derived signals are never both low and the inner update is
        // never rejected.
        match self.sr_latch.set_n(ns, nr) {
            Ok(()) => {}
            Err(_) => unreached(),
        }
    }

    fn get_q(&self) -> bool {
        self.sr_latch.get_q()
    }

    fn get_nq(&self) -> bool {
        self.sr_latch.get_nq()
    }
}

impl Default for JkLatch {
    /// The fixed power-on state: `j` asserted, `k` clear, inner cell at its
    /// own power-on state.
    fn default() -> (r: Self)
        ensures
            r.wf(),
            r == (JkLatch {
                j: true,
                k: false,
                sr_latch: SrLatch { ns: true, nr: true, q: true, nq: false },
            }),
    {
        Self { j: true, k: false, sr_latch: SrLatch::default() }
    }
}

/// A toggle latch over an owned `JkLatch`: `set(true)` inverts the stored
/// output, `set(false)` holds it. Its `set` takes a single input, so it
/// stands beside the `Latch` capability rather than inside it.
#[derive(Debug)]
pub struct TLatch {
    pub t: bool,
    pub jk_latch: JkLatch,
}

impl TLatch {
    /// The latch's internal invariant.
    pub open spec fn wf(&self) -> bool {
        self.jk_latch.wf()
    }

    /// The stored output `Q`.
    pub open spec fn q_spec(&self) -> bool {
        self.jk_latch.q_spec()
    }

    /// The stored complementary output `¬Q`.
    pub open spec fn nq_spec(&self) -> bool {
        self.jk_latch.nq_spec()
    }

    /// The state after `set(t)`.
    pub open spec fn set_next(&self, t: bool) -> Self {
        TLatch { t: t, jk_latch: self.jk_latch.set_next(t, t) }
    }

    /// The state after `evaluate`.
    pub open spec fn eval_next(&self) -> Self {
        TLatch { t: self.t, jk_latch: self.jk_latch.eval_next() }
    }

    /// Apply the toggle input: `true` flips the stored output, `false` holds
    /// it. Always succeeds.
    pub fn set(&mut self, t: bool) -> (r: Result<(), LatchError>)
        requires
            old(self).wf(),
        ensures
            final(self).wf(),
            r == Ok::<(), LatchError>(()),
            *final(self) == old(self).set_next(t),
    {
        self.t = t;
        self.jk_latch.set(t, t)
    }

    /// Apply the active-low toggle input; the second argument is unused and
    /// stands only to mirror the two-input latches. Always succeeds.
    pub fn set_n(&mut self, nt: bool, _nb: bool) -> (r: Result<(), LatchError>)
        requires
            old(self).wf(),
        ensures
            final(self).wf(),
            r == Ok::<(), LatchError>(()),
            *final(self) == old(self).set_next(!nt),
    {
        self.set(NotGate::evaluate(nt))
    }

    /// Recompute the stored outputs from the stored inputs.
    pub fn evaluate(&mut self)
        requires
            old(self).wf(),
        ensures
            final(self).wf(),
            *final(self) == old(self).eval_next(),
    {
        self.jk_latch.evaluate()
    }

    /// Read the stored output `Q`; no side effects.
    pub fn get_q(&self) -> (r: bool)
        ensures
            r == self.q_spec(),
    {
        self.jk_latch.get_q()
    }

    /// Read the stored complementary output `¬Q`; no side effects.
    pub fn get_nq(&self) -> (r: bool)
        ensures
            r == self.nq_spec(),
    {
        self.jk_latch.get_nq()
    }
}

impl Default for TLatch {
    /// The fixed power-on state: toggle input clear, inner latch at its own
    /// power-on state.
    fn default() -> (r: Self)
        ensures
            r.wf(),
            r == (TLatch {
                t: false,
                jk_latch: JkLatch {
                    j: true,
                    k: false,
                    sr_latch: SrLatch { ns: true, nr: true, q: true, nq: false },
                },
            }),
    {
        Self { t: false, jk_latch: JkLatch::default() }
    }
}

/// Law: with both active-high inputs low (the "no change" command), an
/// accepted `set` leaves a well-formed SR latch's outputs exactly as they
/// were.
pub proof fn sr_latch_hold(l: SrLatch)
    requires
        l.wf(),
    ensures
        <SrLatch as Latch>::set_allowed(false, false),
        l.set_next(false, false).q == l.q,
        l.set_next(false, false).nq == l.nq,
{
}

/// Law: asserting both active-high inputs of an SR latch is the forbidden
/// combination; by the `Latch` contract every such `set` returns
/// `InvalidInput` and leaves the latch untouched.
pub proof fn sr_latch_forbidden()
    ensures
        !<SrLatch as Latch>::set_allowed(true, true),
{
}

/// Law: every evaluation of an SR latch re-establishes the complement
/// invariant `nq == !q`, whatever state the cell was in and whatever
/// active-low inputs an accepted `set_n` stored.
pub proof fn sr_latch_complement(l: SrLatch, na: bool, nb: bool)
    ensures
        l.eval_next().nq == !l.eval_next().q,
        l.set_n_next(na, nb).nq == !l.set_n_next(na, nb).q,
{
}

/// Law (transparency): with enable high, a D latch's output follows the data
/// input, whatever the prior state.
pub proof fn d_latch_transparent(l: DLatch, d: bool)
    ensures
        <DLatch as Latch>::set_allowed(d, true),
        l.set_next(d, true).q_spec() == d,
        l.set_next(d, true).nq_spec() == !d,
{
}

/// Law (hold): with enable low, a D latch's `set` stores the new inputs but
/// never changes the output `q`, whatever the data input.
pub proof fn d_latch_hold(l: DLatch, d: bool)
    ensures
        <DLatch as Latch>::set_allowed(d, false),
        l.set_next(d, false).q_spec() == l.q_spec(),
{
}

/// Law (toggle): `set(true, true)` on a well-formed JK latch inverts the
/// stored output; repeated calls therefore alternate it every call.
pub proof fn jk_latch_toggle(l: JkLatch)
    requires
        l.wf(),
    ensures
        <JkLatch as Latch>::set_allowed(true, true),
        l.set_next(true, true).q_spec() == !l.q_spec(),
        l.set_next(true, true).nq_spec() == l.q_spec(),
{
}

/// Law (set/reset): on a well-formed JK latch, `set(true, false)` forces the
/// output high and `set(false, true)` forces it low, regardless of the prior
/// state.
pub proof fn jk_latch_set_reset(l: JkLatch)
    requires
        l.wf(),
    ensures
        l.set_next(true, false).q_spec() == true,
        l.set_next(true, false).nq_spec() == false,
        l.set_next(false, true).q_spec() == false,
        l.set_next(false, true).nq_spec() == true,
{
}

/// Law: on a well-formed T latch, `set(true)` flips the stored output and
/// `set(false)` preserves it.
pub proof fn t_latch_toggle(l: TLatch)
    requires
        l.wf(),
    ensures
        l.set_next(true).q_spec() == !l.q_spec(),
        l.set_next(false).q_spec() == l.q_spec(),
{
}

} // verus!
