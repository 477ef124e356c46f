use achat::signal::CancellationState;

#[test]
fn starts_lowered() {
    let s = CancellationState::new();
    assert!(!s.is_cancelled());
}

#[test]
fn raising_is_idempotent_and_permanent() {
    let mut s = CancellationState::new();
    s.cancel();
    assert!(s.is_cancelled());
    // A repeated cancel is a no-op; the signal never goes down again.
    s.cancel();
    assert!(s.is_cancelled());
}

#[test]
fn a_late_holder_sees_the_raise_at_once() {
    let mut s = CancellationState::new();
    s.cancel();
    let held = &s;
    assert!(held.is_cancelled());
}
