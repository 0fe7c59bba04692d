use proxy_core::drain::Drain;

#[test]
fn drain_refuses_new_work_and_waits_for_retained() {
    // One connection is retained before the signal; after the signal a new
    // connection attempt is refused, and completion is only reported once
    // the retained connection finishes.
    let mut d = Drain::new();
    assert!(!d.watch());
    assert!(d.try_accept());

    d.signal();
    assert!(d.watch());
    assert!(!d.try_accept());
    assert!(!d.is_drained());

    d.release();
    assert!(d.is_drained());
}

#[test]
fn signal_is_idempotent() {
    let mut d = Drain::new();
    assert!(d.try_accept());
    assert!(d.try_accept());
    d.signal();
    d.signal();
    assert!(d.watch());
    assert!(!d.is_drained());
    d.release();
    assert!(!d.is_drained());
    d.release();
    assert!(d.is_drained());
}

#[test]
fn fresh_coordinator_accepts_and_is_not_drained() {
    let mut d = Drain::new();
    assert!(!d.is_drained());
    assert!(d.try_accept());
    d.release();
    // Still not drained: shutdown was never requested.
    assert!(!d.is_drained());
}
