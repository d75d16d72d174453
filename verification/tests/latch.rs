use latches::DLatch;
use latches::JkLatch;
use latches::Latch;
use latches::LatchError;
use latches::SrLatch;
use latches::TLatch;

#[test]
fn test_sr_latch() {
    let mut sr_latch = SrLatch::default();

    // Initial state
    assert_eq!(sr_latch.get_q(), true);
    assert_eq!(sr_latch.get_nq(), false);

    // Set
    sr_latch.set(true, false).expect("Unable to set s, r to 1, 0");
    assert_eq!(sr_latch.get_q(), true);
    assert_eq!(sr_latch.get_nq(), false);

    // Reset
    sr_latch.set(false, true).expect("Unable to set s, r to 0, 1");
    assert_eq!(sr_latch.get_q(), false);
    assert_eq!(sr_latch.get_nq(), true);

    // No change
    sr_latch.set(false, false).expect("Unable to set s, r to 0, 0");
    assert_eq!(sr_latch.get_q(), false);
    assert_eq!(sr_latch.get_nq(), true);

    sr_latch.set(true, false).expect("Unable to set s, r to 1, 0");
    sr_latch.set(false, false).expect("Unable to set s, r to 0, 0");
    assert_eq!(sr_latch.get_q(), true);
    assert_eq!(sr_latch.get_nq(), false);

    // Invalid state
    let result = sr_latch.set(true, true);
    assert!(result.is_err());
    assert_eq!(result.err(), Some(LatchError::InvalidInput));
}

#[test]
fn test_d_latch() {
    let mut d_latch = DLatch::default();

    // Initial state
    assert_eq!(d_latch.get_q(), true);
    assert_eq!(d_latch.get_nq(), false);

    // Reset Q to 0
    d_latch.set(false, true).expect("Unable to set e, d to 0, 1");
    assert_eq!(d_latch.get_q(), false);
    assert_eq!(d_latch.get_nq(), true);

    // Set Q to 1
    d_latch.set(true, true).expect("Unable to set e, d to 1, 1");
    assert_eq!(d_latch.get_q(), true);
    assert_eq!(d_latch.get_nq(), false);

    // No change
    d_latch.set(false, false).expect("Unable to set e, d to 0, 0");
    assert_eq!(d_latch.get_q(), true);
    assert_eq!(d_latch.get_nq(), false);

    d_latch.set(false, true).expect("Unable to set e, d to 0, 1");
    d_latch.set(true, false).expect("Unable to set e, d to 1, 0");
    assert_eq!(d_latch.get_q(), false);
    assert_eq!(d_latch.get_nq(), true);
}

#[test]
fn test_jk_latch() {
    let mut jk_latch = JkLatch::default();

    // Initial state
    assert_eq!(jk_latch.get_q(), true);
    assert_eq!(jk_latch.get_nq(), false);

    // Reset
    jk_latch.set(true, false).unwrap();
    assert_eq!(jk_latch.get_q(), true);
    assert_eq!(jk_latch.get_nq(), false);

    // Set
    jk_latch.set(false, true).unwrap();
    assert_eq!(jk_latch.get_q(), false);
    assert_eq!(jk_latch.get_nq(), true);

    // Save
    jk_latch.set(false, false).unwrap();
    assert_eq!(jk_latch.get_q(), false);
    assert_eq!(jk_latch.get_nq(), true);

    jk_latch.set(true, false).unwrap();
    jk_latch.set(false, false).unwrap();
    assert_eq!(jk_latch.get_q(), true);
    assert_eq!(jk_latch.get_nq(), false);

    // Toggle
    jk_latch.set(true, true).unwrap();
    assert_eq!(jk_latch.get_q(), false);
    assert_eq!(jk_latch.get_nq(), true);

    jk_latch.set(true, true).unwrap();
    assert_eq!(jk_latch.get_q(), true);
    assert_eq!(jk_latch.get_nq(), false);

    jk_latch.set(true, true).unwrap();
    assert_eq!(jk_latch.get_q(), false);
    assert_eq!(jk_latch.get_nq(), true);
}

#[test]
fn test_t_latch() {
    let mut t_latch = TLatch::default();

    // Initial state
    assert_eq!(t_latch.get_q(), true);
    assert_eq!(t_latch.get_nq(), false);

    // Toggle
    t_latch.set(true).unwrap();
    assert_eq!(t_latch.get_q(), false);
    assert_eq!(t_latch.get_nq(), true);

    t_latch.set(true).unwrap();
    assert_eq!(t_latch.get_q(), true);
    assert_eq!(t_latch.get_nq(), false);

    // Save
    t_latch.set(false).unwrap();
    assert_eq!(t_latch.get_q(), true);
    assert_eq!(t_latch.get_nq(), false);

    t_latch.set(true).unwrap();
    t_latch.set(false).unwrap();
    assert_eq!(t_latch.get_q(), false);
    assert_eq!(t_latch.get_nq(), true);
}

#[test]
fn test_sr_latch_set_n() {
    let mut sr_latch = SrLatch::default();

    // Active-low reset: nr asserted (low)
    sr_latch.set_n(true, false).unwrap();
    assert_eq!(sr_latch.get_q(), false);
    assert_eq!(sr_latch.get_nq(), true);

    // Active-low set: ns asserted (low)
    sr_latch.set_n(false, true).unwrap();
    assert_eq!(sr_latch.get_q(), true);
    assert_eq!(sr_latch.get_nq(), false);

    // Both inactive: hold
    sr_latch.set_n(true, true).unwrap();
    assert_eq!(sr_latch.get_q(), true);
    assert_eq!(sr_latch.get_nq(), false);

    // Both asserted: the forbidden pair, rejected without mutation
    let result = sr_latch.set_n(false, false);
    assert_eq!(result, Err(LatchError::InvalidInput));
    assert_eq!(sr_latch.get_q(), true);
    assert_eq!(sr_latch.get_nq(), false);
}

#[test]
fn test_latch_complement_invariant() {
    // After every successful update, nq is the complement of q.
    let mut sr_latch = SrLatch::default();
    assert_eq!(sr_latch.get_nq(), !sr_latch.get_q());
    sr_latch.set(false, true).unwrap();
    assert_eq!(sr_latch.get_nq(), !sr_latch.get_q());
    sr_latch.set(true, false).unwrap();
    assert_eq!(sr_latch.get_nq(), !sr_latch.get_q());
    sr_latch.evaluate();
    assert_eq!(sr_latch.get_nq(), !sr_latch.get_q());

    let mut jk_latch = JkLatch::default();
    jk_latch.set(true, true).unwrap();
    assert_eq!(jk_latch.get_nq(), !jk_latch.get_q());
}

#[test]
fn test_d_latch_set_n() {
    let mut d_latch = DLatch::default();

    // set_n inverts both inputs: (nd, ne) == (true, false) is d = 0, e = 1
    d_latch.set_n(true, false).unwrap();
    assert_eq!(d_latch.get_q(), false);
    assert_eq!(d_latch.get_nq(), true);

    // (nd, ne) == (false, false) is d = 1, e = 1
    d_latch.set_n(false, false).unwrap();
    assert_eq!(d_latch.get_q(), true);

    // Enable low holds the state whatever d is
    d_latch.set_n(true, true).unwrap();
    assert_eq!(d_latch.get_q(), true);
}

#[test]
fn test_jk_latch_set_n() {
    let mut jk_latch = JkLatch::default();

    // (nj, nk) == (true, false) is j = 0, k = 1: reset
    jk_latch.set_n(true, false).unwrap();
    assert_eq!(jk_latch.get_q(), false);

    // (nj, nk) == (false, true) is j = 1, k = 0: set
    jk_latch.set_n(false, true).unwrap();
    assert_eq!(jk_latch.get_q(), true);

    // (nj, nk) == (false, false) is j = k = 1: toggle
    jk_latch.set_n(false, false).unwrap();
    assert_eq!(jk_latch.get_q(), false);
}

#[test]
fn test_t_latch_set_n() {
    let mut t_latch = TLatch::default();

    // nt low is t high: toggle; the second argument is ignored
    t_latch.set_n(false, true).unwrap();
    assert_eq!(t_latch.get_q(), false);

    // nt high is t low: hold
    t_latch.set_n(true, false).unwrap();
    assert_eq!(t_latch.get_q(), false);
}

#[test]
fn test_latch_evaluate_recompute() {
    // evaluate recomputes from the stored inputs; with both active-low
    // inputs inactive it holds the state and is idempotent.
    let mut sr_latch = SrLatch::default();
    sr_latch.set(false, true).unwrap();
    sr_latch.evaluate();
    assert_eq!(sr_latch.get_q(), false);
    sr_latch.evaluate();
    assert_eq!(sr_latch.get_q(), false);

    let mut t_latch = TLatch::default();
    t_latch.set(false).unwrap();
    // The JK latch inside holds j = k = 0: evaluate keeps the state.
    t_latch.evaluate();
    assert_eq!(t_latch.get_q(), true);
}

#[test]
fn test_latch_error_message() {
    let err = SrLatch::default().set(true, true).unwrap_err();
    assert_eq!(err, LatchError::InvalidInput);
    assert_eq!(err.message(), "Invalid latch input combination.");
}
